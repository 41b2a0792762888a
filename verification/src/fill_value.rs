//! Fill values: the bytes of one element that stand for every element not
//! stored, paired with the data type that reads them.
use vstd::prelude::*;
use vstd::string::*;

use zarrs::array::FillValue as ZarrsFillValue;

use vstd::utf8::{decode_utf8, valid_utf8};

use crate::dtype::{data_type_display, same_data_type, spec_number_format, DataType, NumberKind};
use crate::export::utf8_str;

verus! {

/// Whether `bytes` is a whole number of repetitions of `fill` (for an empty
/// fill value: whether `bytes` is empty).
pub open spec fn spec_equals_all(fill: Seq<u8>, bytes: Seq<u8>) -> bool {
    if fill.len() == 0 {
        bytes.len() == 0
    } else {
        &&& bytes.len() >= fill.len()
        &&& bytes.len() % fill.len() == 0
        &&& forall|i: int| 0 <= i < bytes.len() ==> #[trigger] bytes[i] == fill[i % fill.len() as int]
    }
}

/// zarrs' `FillValue::equals_all`: the bytes must be a non-zero whole number
/// of copies of the fill value (or empty, for an empty fill value), and every
/// copy must equal it.
#[verifier::external_body]
fn zarrs_equals_all(fill: &[u8], bytes: &[u8]) -> (res: bool)
    ensures
        res == spec_equals_all(fill@, bytes@),
{
    ZarrsFillValue::new(fill.to_vec()).equals_all(bytes)
}

/// The bytes of one element.
pub struct FillValue {
    bytes: Vec<u8>,
}

impl FillValue {
    /// The fill value's bytes.
    pub closed spec fn spec_bytes(self) -> Seq<u8> {
        self.bytes@
    }

    /// A fill value of the given bytes.
    pub fn new(bytes: Vec<u8>) -> (res: Self)
        ensures
            res.spec_bytes() == bytes@,
    {
        FillValue { bytes }
    }

    /// The size of the fill value in bytes.
    pub fn size(&self) -> (res: usize)
        ensures
            res == self.spec_bytes().len(),
    {
        self.bytes.len()
    }

    /// The fill value's bytes, in native byte order.
    pub fn as_ne_bytes(&self) -> (res: &[u8])
        ensures
            res@ == self.spec_bytes(),
    {
        self.bytes.as_slice()
    }

    /// The fill value read as text, as a `string` data type reads it: present
    /// exactly when its bytes are valid UTF-8.
    pub fn as_text(&self) -> (res: Option<String>)
        ensures
            res is Some <==> valid_utf8(self.spec_bytes()),
            res matches Some(t) ==> t@ == decode_utf8(self.spec_bytes()),
    {
        match utf8_str(self.bytes.as_slice()) {
            Some(text) => Some(text.to_owned()),
            None => None,
        }
    }

    /// Whether `bytes` is a sequence of copies of the fill value.
    pub fn equals_all(&self, bytes: &[u8]) -> (res: bool)
        ensures
            res == spec_equals_all(self.spec_bytes(), bytes@),
    {
        zarrs_equals_all(self.bytes.as_slice(), bytes)
    }

    /// A copy of the fill value.
    pub fn duplicate(&self) -> (res: Self)
        ensures
            res.spec_bytes() == self.spec_bytes(),
    {
        FillValue { bytes: vstd::slice::slice_to_vec(self.bytes.as_slice()) }
    }
}

/// A fill value with the data type that reads its bytes.
pub struct TypedFillValue {
    pub fill_value: FillValue,
    pub data_type: DataType,
}

impl TypedFillValue {
    /// Two fill values are equal when their bytes and their data types are:
    /// equal bytes under different data types are different fill values.
    pub open spec fn spec_same(self, other: TypedFillValue) -> bool {
        self.fill_value.spec_bytes() == other.fill_value.spec_bytes() && same_data_type(
            self.data_type,
            other.data_type,
        )
    }

    /// Whether two fill values are equal.
    pub fn same_as(&self, other: &TypedFillValue) -> (res: bool)
        ensures
            res == self.spec_same(*other),
    {
        let a = self.fill_value.as_ne_bytes();
        let b = other.fill_value.as_ne_bytes();
        let mut same = a.len() == b.len();
        let mut i: usize = 0;
        while same && i < a.len()
            invariant
                i <= a@.len(),
                a@ == self.fill_value.spec_bytes(),
                b@ == other.fill_value.spec_bytes(),
                same ==> a@.len() == b@.len(),
                same ==> forall|j: int| 0 <= j < i ==> a@[j] == b@[j],
                !same ==> a@ != b@,
            decreases a.len() - i,
        {
            if a[i] != b[i] {
                same = false;
            }
            i = i + 1;
        }
        if same {
            assert(a@ =~= b@);
        }
        same && self.data_type.same_as(&other.data_type)
    }
}

/// Why a value cannot be the fill value of an array.
#[derive(Clone, Debug)]
pub enum FillValueError {
    /// A fill value of another data type; holds both display names.
    DataTypeMismatch { fill: String, array: String },
}

impl FillValueError {
    /// The user-facing message of this error.
    pub open spec fn spec_message(self) -> Seq<char> {
        match self {
            FillValueError::DataTypeMismatch { fill, array } => "fill value has data type '"@
                + fill@ + "', but the array has data type '"@ + array@ + "'"@,
        }
    }

    /// The user-facing message of this error.
    pub fn message(&self) -> (res: String)
        ensures
            res@ == self.spec_message(),
    {
        match self {
            FillValueError::DataTypeMismatch { fill, array } => {
                let mut s = String::from_str("fill value has data type '");
                s.append(fill.as_str());
                s.append("', but the array has data type '");
                s.append(array.as_str());
                s.append("'");
                s
            },
        }
    }
}

/// Resolve a fill value that is already typed for an array of `data_type`:
/// it is used as it is when its data type is the array's, and refused otherwise.
pub fn resolve_typed(fill_value: &TypedFillValue, data_type: &DataType) -> (res: Result<
    FillValue,
    FillValueError,
>)
    ensures
        match res {
            Ok(f) => same_data_type(fill_value.data_type, *data_type) && f.spec_bytes()
                == fill_value.fill_value.spec_bytes(),
            Err(FillValueError::DataTypeMismatch { fill, array }) => !same_data_type(
                fill_value.data_type,
                *data_type,
            ) && fill@ == fill_value.data_type.spec_display() && array@
                == data_type.spec_display(),
        },
{
    if !fill_value.data_type.same_as(data_type) {
        return Err(
            FillValueError::DataTypeMismatch {
                fill: data_type_display(&fill_value.data_type),
                array: data_type_display(data_type),
            },
        );
    }
    Ok(fill_value.fill_value.duplicate())
}

/// How a Python value becomes the fill value of a data type: read as the
/// element type itself, or, for every other data type, through the Zarr v3
/// fill value metadata that zarrs parses.
#[derive(Clone, Copy, Debug, PartialEq, Eq, Structural)]
pub enum FillValueConversion {
    Bool,
    UInt8,
    UInt16,
    UInt32,
    UInt64,
    Int8,
    Int16,
    Int32,
    Int64,
    BFloat16,
    Float16,
    Float32,
    Float64,
    Bytes,
    StringUtf8,
    Metadata,
}

/// The conversion that a data type's fill value goes through.
pub open spec fn spec_fill_value_conversion(data_type: DataType) -> FillValueConversion {
    match data_type {
        DataType::Bool => FillValueConversion::Bool,
        DataType::UInt8 => FillValueConversion::UInt8,
        DataType::UInt16 => FillValueConversion::UInt16,
        DataType::UInt32 => FillValueConversion::UInt32,
        DataType::UInt64 => FillValueConversion::UInt64,
        DataType::Int8 => FillValueConversion::Int8,
        DataType::Int16 => FillValueConversion::Int16,
        DataType::Int32 => FillValueConversion::Int32,
        DataType::Int64 => FillValueConversion::Int64,
        DataType::BFloat16 => FillValueConversion::BFloat16,
        DataType::Float16 => FillValueConversion::Float16,
        DataType::Float32 => FillValueConversion::Float32,
        DataType::Float64 => FillValueConversion::Float64,
        DataType::Bytes => FillValueConversion::Bytes,
        DataType::StringUtf8 => FillValueConversion::StringUtf8,
        _ => FillValueConversion::Metadata,
    }
}

/// The conversion that a data type's fill value goes through.
pub fn fill_value_conversion(data_type: &DataType) -> (res: FillValueConversion)
    ensures
        res == spec_fill_value_conversion(*data_type),
{
    match data_type {
        DataType::Bool => FillValueConversion::Bool,
        DataType::UInt8 => FillValueConversion::UInt8,
        DataType::UInt16 => FillValueConversion::UInt16,
        DataType::UInt32 => FillValueConversion::UInt32,
        DataType::UInt64 => FillValueConversion::UInt64,
        DataType::Int8 => FillValueConversion::Int8,
        DataType::Int16 => FillValueConversion::Int16,
        DataType::Int32 => FillValueConversion::Int32,
        DataType::Int64 => FillValueConversion::Int64,
        DataType::BFloat16 => FillValueConversion::BFloat16,
        DataType::Float16 => FillValueConversion::Float16,
        DataType::Float32 => FillValueConversion::Float32,
        DataType::Float64 => FillValueConversion::Float64,
        DataType::Bytes => FillValueConversion::Bytes,
        DataType::StringUtf8 => FillValueConversion::StringUtf8,
        _ => FillValueConversion::Metadata,
    }
}

/// The message of a conversion failure, naming the value (by its repr) and
/// the data type, followed by the cause.
pub open spec fn spec_context_message(value_repr: Seq<char>, data_type: DataType, cause: Seq<char>) -> Seq<char> {
    "cannot use "@ + value_repr + " as a fill value of data type '"@ + data_type.spec_display()
        + "': "@ + cause
}

/// Name the value and the data type in the message of a conversion failure,
/// which the failures from below do not.
pub fn context_message(value_repr: &str, data_type: &DataType, cause: &str) -> (res: String)
    ensures
        res@ == spec_context_message(value_repr@, *data_type, cause@),
{
    let mut s = String::from_str("cannot use ");
    s.append(value_repr);
    s.append(" as a fill value of data type '");
    let name = data_type_display(data_type);
    s.append(name.as_str());
    s.append("': ");
    s.append(cause);
    s
}

impl FillValueConversion {
    /// The element a conversion produces: the kind of number it reads the
    /// value as and the width of that number in bits (`Float32` reads an
    /// `f32`, 32 bits). `None` for the conversions that produce no number.
    pub open spec fn spec_element(self) -> Option<(NumberKind, nat)> {
        match self {
            FillValueConversion::Bool => Some((NumberKind::Boolean, 8)),
            FillValueConversion::UInt8 => Some((NumberKind::UnsignedInt, 8)),
            FillValueConversion::UInt16 => Some((NumberKind::UnsignedInt, 16)),
            FillValueConversion::UInt32 => Some((NumberKind::UnsignedInt, 32)),
            FillValueConversion::UInt64 => Some((NumberKind::UnsignedInt, 64)),
            FillValueConversion::Int8 => Some((NumberKind::SignedInt, 8)),
            FillValueConversion::Int16 => Some((NumberKind::SignedInt, 16)),
            FillValueConversion::Int32 => Some((NumberKind::SignedInt, 32)),
            FillValueConversion::Int64 => Some((NumberKind::SignedInt, 64)),
            FillValueConversion::BFloat16 => Some((NumberKind::BrainFloat, 16)),
            FillValueConversion::Float16 => Some((NumberKind::IeeeFloat, 16)),
            FillValueConversion::Float32 => Some((NumberKind::IeeeFloat, 32)),
            FillValueConversion::Float64 => Some((NumberKind::IeeeFloat, 64)),
            FillValueConversion::Bytes | FillValueConversion::StringUtf8
                | FillValueConversion::Metadata => None,
        }
    }
}

/// A scalar numeric data type's fill value is read as one element of that
/// very data type: the same kind of number at the same width, so its bytes
/// are exactly one element (`spec_fixed_size` of them). `string` and `bytes`
/// are read as text and bytes, and every other data type goes through fill
/// value metadata.
pub proof fn lemma_fill_value_conversion_reads_own_element(data_type: DataType)
    ensures
        spec_number_format(data_type) is Some ==> spec_fill_value_conversion(
            data_type,
        ).spec_element() == spec_number_format(data_type),
        spec_number_format(data_type) is Some ==> spec_fill_value_conversion(
            data_type,
        ).spec_element().unwrap().1 == 8 * data_type.spec_fixed_size().unwrap(),
        (spec_fill_value_conversion(data_type) == FillValueConversion::StringUtf8) <==> (data_type
            is StringUtf8),
        (spec_fill_value_conversion(data_type) == FillValueConversion::Bytes) <==> (data_type
            is Bytes),
        (spec_fill_value_conversion(data_type) == FillValueConversion::Metadata) <==> (
        spec_number_format(data_type) is None && !(data_type is StringUtf8) && !(data_type
            is Bytes)),
{
}

} // verus!
