//! Checks on data handed in for writing, and the messages of their failures.
use vstd::prelude::*;
use vstd::string::*;

use crate::dtype::{data_type_display, decimal, push_decimal, same_data_type, DataType};
use crate::text::push_char;

verus! {

/// The comma-separated decimal list of `s`, without brackets.
pub open spec fn decimal_list(s: Seq<u64>) -> Seq<char>
    decreases s.len(),
{
    if s.len() == 0 {
        Seq::empty()
    } else if s.len() == 1 {
        decimal(s[0] as nat)
    } else {
        decimal_list(s.drop_last()) + ", "@ + decimal(s.last() as nat)
    }
}

/// The debug rendering of a list of integers, such as `[2, 3]`.
pub open spec fn debug_list(s: Seq<u64>) -> Seq<char> {
    seq!['['] + decimal_list(s) + seq![']']
}

/// Appends the debug rendering of a list of integers to `out`.
pub fn push_debug_list(out: &mut String, values: &[u64])
    ensures
        final(out)@ == old(out)@ + debug_list(values@),
{
    push_char(out, '[');
    let ghost start = out@;
    let mut i: usize = 0;
    while i < values.len()
        invariant
            i <= values@.len(),
            out@ == start + decimal_list(values@.take(i as int)),
        decreases values.len() - i,
    {
        let ghost before = out@;
        if i > 0 {
            out.append(", ");
        }
        push_decimal(out, values[i]);
        proof {
            let t = values@.take(i + 1);
            assert(t.drop_last() =~= values@.take(i as int));
            assert(t.last() == values@[i as int]);
            if i == 0 {
                assert(values@.take(0) =~= Seq::<u64>::empty());
                assert(before + decimal(values@[0] as nat) =~= start + decimal_list(t));
            } else {
                assert(before + ", "@ + decimal(values@[i as int] as nat) =~= start + decimal_list(t));
            }
        }
        i = i + 1;
    }
    assert(values@.take(values@.len() as int) =~= values@);
    push_char(out, ']');
    assert(old(out)@.push('[') + decimal_list(values@) + seq![']'] =~= old(out)@ + debug_list(values@));
    assert(start == old(out)@.push('['));
    assert((start + decimal_list(values@)).push(']') =~= start + decimal_list(values@) + seq![']']);
}

/// Why typed data cannot be written where it was sent.
pub enum DataInputError {
    /// The data's type is not the array's; a cast can lose data, so the user
    /// has to ask for it. Holds the two display names.
    TypeMismatch { input: String, target: String },
    /// The data's shape is not the destination's.
    ShapeMismatch { data_shape: Vec<u64>, array_shape: Vec<u64> },
}

/// Check typed data (a DLPack tensor) against the data type of the array and
/// the shape of the destination: the data type is compared first.
pub fn check_typed_input(
    data_type: &DataType,
    data_shape: &[u64],
    array_data_type: &DataType,
    array_shape: &[u64],
) -> (res: Result<(), DataInputError>)
    ensures
        match res {
            Ok(()) => same_data_type(*data_type, *array_data_type) && data_shape@ == array_shape@,
            Err(DataInputError::TypeMismatch { input, target }) => !same_data_type(
                *data_type,
                *array_data_type,
            ) && input@ == data_type.spec_display() && target@
                == array_data_type.spec_display(),
            Err(DataInputError::ShapeMismatch { data_shape: d, array_shape: a }) =>
                same_data_type(*data_type, *array_data_type) && data_shape@ != array_shape@ && d@
                    == data_shape@ && a@ == array_shape@,
        },
{
    if !data_type.same_as(array_data_type) {
        return Err(
            DataInputError::TypeMismatch {
                input: data_type_display(data_type),
                target: data_type_display(array_data_type),
            },
        );
    }
    let mut same = data_shape.len() == array_shape.len();
    let mut i: usize = 0;
    while same && i < data_shape.len()
        invariant
            i <= data_shape@.len(),
            same ==> data_shape@.len() == array_shape@.len(),
            same ==> forall|j: int| 0 <= j < i ==> data_shape@[j] == array_shape@[j],
            !same ==> data_shape@ != array_shape@,
        decreases data_shape.len() - i,
    {
        if data_shape[i] != array_shape[i] {
            same = false;
        }
        i = i + 1;
    }
    if same {
        assert(data_shape@ =~= array_shape@);
        Ok(())
    } else {
        Err(
            DataInputError::ShapeMismatch {
                data_shape: vstd::slice::slice_to_vec(data_shape),
                array_shape: vstd::slice::slice_to_vec(array_shape),
            },
        )
    }
}

impl DataInputError {
    /// The user-facing message of this error.
    pub open spec fn spec_message(self) -> Seq<char> {
        match self {
            DataInputError::TypeMismatch { input, target } => "the data has type "@ + input@
                + ", but the array has type "@ + target@ + "."@,
            DataInputError::ShapeMismatch { data_shape, array_shape } => "the data has shape "@
                + debug_list(data_shape@) + ", but the destination has shape "@ + debug_list(
                array_shape@,
            ) + "."@,
        }
    }

    /// The user-facing message of this error.
    pub fn message(&self) -> (res: String)
        ensures
            res@ == self.spec_message(),
    {
        match self {
            DataInputError::TypeMismatch { input, target } => {
                let mut s = String::from_str("the data has type ");
                s.append(input.as_str());
                s.append(", but the array has type ");
                s.append(target.as_str());
                s.append(".");
                s
            },
            DataInputError::ShapeMismatch { data_shape, array_shape } => {
                let mut s = String::from_str("the data has shape ");
                push_debug_list(&mut s, data_shape.as_slice());
                s.append(", but the destination has shape ");
                push_debug_list(&mut s, array_shape.as_slice());
                s.append(".");
                s
            },
        }
    }
}

/// Why a DLPack shape cannot be read.
#[derive(Clone, Copy, Debug, PartialEq, Eq, Structural)]
pub enum DLPackShapeError {
    /// A dimension is negative.
    NegativeDimension,
}

/// The shape of an imported DLPack tensor, in elements along each dimension.
pub fn shape_from_dlpack(dims: &[i64]) -> (res: Result<Vec<u64>, DLPackShapeError>)
    ensures
        match res {
            Ok(shape) => shape@.len() == dims@.len() && forall|i: int|
                0 <= i < dims@.len() ==> #[trigger] shape@[i] as int == dims@[i],
            Err(_) => exists|i: int| 0 <= i < dims@.len() && #[trigger] dims@[i] < 0,
        },
{
    let mut shape: Vec<u64> = Vec::new();
    let mut i: usize = 0;
    while i < dims.len()
        invariant
            i <= dims@.len(),
            shape@.len() == i,
            forall|j: int| 0 <= j < i ==> #[trigger] shape@[j] as int == dims@[j],
        decreases dims.len() - i,
    {
        if dims[i] < 0 {
            return Err(DLPackShapeError::NegativeDimension);
        }
        shape.push(dims[i] as u64);
        i = i + 1;
    }
    Ok(shape)
}

} // verus!
