//! Handing decoded data to NumPy and Arrow: what the NumPy array-coercion
//! protocol does with its `dtype` and `copy` arguments, which NumPy and Arrow
//! types variable-length data becomes, and how its elements are read.
use vstd::prelude::*;

use vstd::utf8::{decode_utf8, valid_utf8};

use crate::array_bytes::{lemma_offset_at_most_last, offsets_valid};
use crate::dtype::{zarrs_display, DataType};
use crate::tensor::spec_elements;

verus! {

/// What to do with the NumPy view of decoded data to answer `__array__`.
#[derive(Clone, Copy, Debug, PartialEq, Eq, Structural)]
pub enum ArrayCoercion {
    /// Hand back the array as it is.
    View,
    /// Hand back the array converted to the requested data type (`astype`).
    Convert,
    /// Hand back a copy of the array.
    Copy,
}

/// Why `__array__` refuses a request.
#[derive(Clone, Copy, Debug, PartialEq, Eq, Structural)]
pub enum CoercionError {
    /// `copy=False` with a data type other than the array's own.
    ZeroCopyWithOtherDtype,
    /// `copy=False` for variable-length data, which is always copied.
    ZeroCopyOfVariableLength,
}

impl CoercionError {
    /// The user-facing message of this error.
    pub open spec fn spec_message(self) -> Seq<char> {
        match self {
            CoercionError::ZeroCopyWithOtherDtype =>
                "cannot return a zero-copy array with a different dtype"@,
            CoercionError::ZeroCopyOfVariableLength =>
                "cannot return a zero-copy array from variable-length data"@,
        }
    }

    /// The user-facing message of this error.
    pub fn message(&self) -> (res: String)
        ensures
            res@ == self.spec_message(),
    {
        match self {
            CoercionError::ZeroCopyWithOtherDtype => String::from_str(
                "cannot return a zero-copy array with a different dtype",
            ),
            CoercionError::ZeroCopyOfVariableLength => String::from_str(
                "cannot return a zero-copy array from variable-length data",
            ),
        }
    }
}

/// Whether `__array__` on fixed-length data must compare the requested data
/// type with the array's: only for `copy=False` with a requested data type.
pub fn needs_dtype_comparison(copy: Option<bool>, dtype_requested: bool) -> (res: bool)
    ensures
        res == (copy == Some(false) && dtype_requested),
{
    match copy {
        Some(false) => dtype_requested,
        _ => false,
    }
}

/// The answer of `__array__` on fixed-length data, which NumPy can view
/// without a copy.
///
/// `copy=False` demands the view itself, which is refused when another data
/// type is requested. Otherwise a requested data type converts, `copy=True`
/// copies, and no request hands back the view. `dtype_matches` (whether the
/// requested data type equals the array's) is read only when
/// [`needs_dtype_comparison`] says so.
pub fn fixed_array_coercion(copy: Option<bool>, dtype_requested: bool, dtype_matches: bool) -> (res:
    Result<ArrayCoercion, CoercionError>)
    ensures
        copy == Some(false) ==> res == (if dtype_requested && !dtype_matches {
            Err::<ArrayCoercion, CoercionError>(CoercionError::ZeroCopyWithOtherDtype)
        } else {
            Ok(ArrayCoercion::View)
        }),
        copy != Some(false) && dtype_requested ==> res == Ok::<ArrayCoercion, CoercionError>(
            ArrayCoercion::Convert,
        ),
        copy == Some(true) && !dtype_requested ==> res == Ok::<ArrayCoercion, CoercionError>(
            ArrayCoercion::Copy,
        ),
        copy is None && !dtype_requested ==> res == Ok::<ArrayCoercion, CoercionError>(
            ArrayCoercion::View,
        ),
{
    match copy {
        Some(false) => {
            if dtype_requested && !dtype_matches {
                Err(CoercionError::ZeroCopyWithOtherDtype)
            } else {
                Ok(ArrayCoercion::View)
            }
        },
        Some(true) => {
            if dtype_requested {
                Ok(ArrayCoercion::Convert)
            } else {
                Ok(ArrayCoercion::Copy)
            }
        },
        None => {
            if dtype_requested {
                Ok(ArrayCoercion::Convert)
            } else {
                Ok(ArrayCoercion::View)
            }
        },
    }
}

/// The answer of `__array__` on variable-length data, which is always copied
/// into a fresh NumPy array: `copy=False` is refused, a requested data type
/// converts that fresh array, and otherwise it is handed back as it is.
pub fn variable_array_coercion(copy: Option<bool>, dtype_requested: bool) -> (res: Result<
    ArrayCoercion,
    CoercionError,
>)
    ensures
        copy == Some(false) ==> res == Err::<ArrayCoercion, CoercionError>(
            CoercionError::ZeroCopyOfVariableLength,
        ),
        copy != Some(false) ==> res == Ok::<ArrayCoercion, CoercionError>(
            if dtype_requested {
                ArrayCoercion::Convert
            } else {
                ArrayCoercion::View
            },
        ),
{
    if let Some(false) = copy {
        return Err(CoercionError::ZeroCopyOfVariableLength);
    }
    if dtype_requested {
        Ok(ArrayCoercion::Convert)
    } else {
        Ok(ArrayCoercion::View)
    }
}


/// Where variable-length data is exported to.
#[derive(Clone, Copy, Debug, PartialEq, Eq, Structural)]
pub enum ExportTarget {
    NumPy,
    Arrow,
}

/// How the elements of variable-length data are represented outside: as
/// text (NumPy `StringDType`, Arrow `LargeUtf8`) or as byte strings (NumPy
/// `object` holding `bytes`, Arrow `LargeBinary`).
#[derive(Clone, Copy, Debug, PartialEq, Eq, Structural)]
pub enum VariableElements {
    Text,
    Binary,
}

/// A variable-length data type that an export does not support; holds the
/// target and the data type as zarrs prints it.
#[derive(Clone, Debug)]
pub struct UnsupportedExport {
    pub target: ExportTarget,
    pub data_type: String,
}

impl UnsupportedExport {
    /// The user-facing message of this error.
    pub open spec fn spec_message(self) -> Seq<char> {
        match self.target {
            ExportTarget::NumPy => "NumPy export of variable-length data type "@
                + self.data_type@ + " is not supported"@,
            ExportTarget::Arrow => "Arrow export of variable-length data type "@
                + self.data_type@ + " is not supported"@,
        }
    }

    /// The user-facing message of this error.
    pub fn message(&self) -> (res: String)
        ensures
            res@ == self.spec_message(),
    {
        let mut s = match self.target {
            ExportTarget::NumPy => String::from_str("NumPy export of variable-length data type "),
            ExportTarget::Arrow => String::from_str("Arrow export of variable-length data type "),
        };
        s.append(self.data_type.as_str());
        s.append(" is not supported");
        s
    }
}

/// How variable-length data of `data_type` is exported: `string` as text,
/// `bytes` as byte strings, and no other data type.
pub open spec fn spec_variable_elements(data_type: DataType) -> Option<VariableElements> {
    match data_type {
        DataType::StringUtf8 => Some(VariableElements::Text),
        DataType::Bytes => Some(VariableElements::Binary),
        _ => None,
    }
}

/// How variable-length data of `data_type` is exported to `target`, or the
/// error that names the data type.
pub fn variable_elements(data_type: &DataType, target: ExportTarget) -> (res: Result<
    VariableElements,
    UnsupportedExport,
>)
    ensures
        match spec_variable_elements(*data_type) {
            Some(k) => res == Ok::<VariableElements, UnsupportedExport>(k),
            None => res matches Err(e) && e.target == target && e.data_type@
                == data_type.spec_zarrs_display(),
        },
{
    match data_type {
        DataType::StringUtf8 => Ok(VariableElements::Text),
        DataType::Bytes => Ok(VariableElements::Binary),
        _ => Err(UnsupportedExport { target, data_type: zarrs_display(data_type) }),
    }
}

/// Arrow's 64-bit offsets for element offsets that all fit an `i64`.
pub fn arrow_offsets(offsets: &[usize]) -> (res: Vec<i64>)
    requires
        forall|i: int| 0 <= i < offsets@.len() ==> #[trigger] offsets@[i] <= i64::MAX,
    ensures
        res@.len() == offsets@.len(),
        forall|i: int| 0 <= i < offsets@.len() ==> #[trigger] res@[i] == offsets@[i],
{
    let mut out: Vec<i64> = Vec::new();
    let mut i: usize = 0;
    while i < offsets.len()
        invariant
            i <= offsets@.len(),
            forall|k: int| 0 <= k < offsets@.len() ==> #[trigger] offsets@[k] <= i64::MAX,
            out@.len() == i,
            forall|k: int| 0 <= k < i ==> #[trigger] out@[k] == offsets@[k],
        decreases offsets.len() - i,
    {
        let o = offsets[i];
        out.push(o as i64);
        i = i + 1;
    }
    out
}


/// std's `str::from_utf8`: the text that `bytes` encode, present exactly when
/// `bytes` are valid UTF-8.
#[verifier::external_body]
pub(crate) fn utf8_str(bytes: &[u8]) -> (res: Option<&str>)
    ensures
        res is Some <==> valid_utf8(bytes@),
        res matches Some(s) ==> s@ == decode_utf8(bytes@),
{
    match std::str::from_utf8(bytes) {
        Ok(s) => Some(s),
        Err(_) => None,
    }
}

/// Read each element of variable-length string data as text.
///
/// Fails with the index of the first element that is not valid UTF-8.
pub fn text_elements(bytes: &[u8], offsets: &[usize]) -> (res: Result<Vec<String>, usize>)
    requires
        offsets_valid(offsets@, bytes@.len()),
    ensures
        match res {
            Ok(v) => v@.len() == spec_elements(bytes@, offsets@).len() && forall|i: int|
                0 <= i < v@.len() ==> valid_utf8(#[trigger] spec_elements(bytes@, offsets@)[i])
                    && v@[i]@ == decode_utf8(spec_elements(bytes@, offsets@)[i]),
            Err(k) => k < spec_elements(bytes@, offsets@).len() && !valid_utf8(
                spec_elements(bytes@, offsets@)[k as int],
            ) && forall|j: int|
                0 <= j < k ==> valid_utf8(#[trigger] spec_elements(bytes@, offsets@)[j]),
        },
{
    let ghost elems = spec_elements(bytes@, offsets@);
    let mut out: Vec<String> = Vec::new();
    let n = offsets.len() - 1;
    let mut i: usize = 0;
    proof {
        assert forall|j: int| 0 <= j < offsets@.len() implies #[trigger] offsets@[j] <= bytes@.len() by {
            lemma_offset_at_most_last(offsets@, j);
        }
    }
    while i < n
        invariant
            n == offsets@.len() - 1,
            i <= n,
            elems == spec_elements(bytes@, offsets@),
            elems.len() == n,
            offsets_valid(offsets@, bytes@.len()),
            forall|j: int| 0 <= j < offsets@.len() ==> #[trigger] offsets@[j] <= bytes@.len(),
            out@.len() == i,
            forall|j: int|
                0 <= j < i ==> valid_utf8(#[trigger] elems[j]) && out@[j]@ == decode_utf8(elems[j]),
        decreases n - i,
    {
        assert(offsets@[i as int] <= offsets@[i + 1]);
        let element = vstd::slice::slice_subrange(bytes, offsets[i], offsets[i + 1]);
        assert(element@ == elems[i as int]);
        match utf8_str(element) {
            None => {
                return Err(i);
            },
            Some(text) => {
                out.push(text.to_owned());
            },
        }
        i = i + 1;
    }
    Ok(out)
}

} // verus!
