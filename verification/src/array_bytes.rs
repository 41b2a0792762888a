//! The bytes of a chunk as they cross the Python boundary: fixed-length,
//! variable-length (bytes plus element offsets) or optional (data plus a
//! validity mask of one byte per element).
use vstd::prelude::*;

use std::borrow::Cow;
use vstd::string::*;
use zarrs::array::{ArrayBytesOffsets, ArrayBytesRawOffsetsCreateError, ArrayBytesVariableLength};

use crate::dtype::{decimal, push_decimal};

verus! {

/// Whether element offsets are monotonically increasing (each at least the one before).
pub open spec fn offsets_increasing(offsets: Seq<usize>) -> bool {
    forall|j: int| 0 <= j < offsets.len() - 1 ==> #[trigger] offsets[j] <= offsets[j + 1]
}

/// In increasing offsets, every offset is at most the last.
pub proof fn lemma_offset_at_most_last(offsets: Seq<usize>, j: int)
    requires
        offsets_increasing(offsets),
        0 <= j < offsets.len(),
    ensures
        offsets[j] <= offsets.last(),
    decreases offsets.len() - j,
{
    if j < offsets.len() - 1 {
        lemma_offset_at_most_last(offsets, j + 1);
    }
}

/// Whether `offsets` are valid element offsets into `len` bytes: there is at
/// least one, they increase, and the last one is within the bytes.
pub open spec fn offsets_valid(offsets: Seq<usize>, len: nat) -> bool {
    &&& offsets.len() > 0
    &&& offsets_increasing(offsets)
    &&& offsets.last() <= len
}

/// Why element offsets are refused (zarrs' `ArrayBytesRawOffsetsCreateError`).
#[derive(Clone, Copy, Debug, PartialEq, Eq, Structural)]
pub enum OffsetsProblem {
    /// There are no offsets.
    ZeroLength,
    /// An offset is smaller than the one before it.
    NotMonotonicallyIncreasing,
}

/// zarrs' `ArrayBytesOffsets::new`: it accepts offsets that are not empty and
/// increase monotonically, and names which of the two fails otherwise.
#[verifier::external_body]
fn zarrs_check_offsets(offsets: &[usize]) -> (res: Result<(), OffsetsProblem>)
    ensures
        res is Ok <==> (offsets@.len() > 0 && offsets_increasing(offsets@)),
        (res matches Err(OffsetsProblem::ZeroLength)) <==> offsets@.len() == 0,
{
    match ArrayBytesOffsets::new(Cow::Borrowed(offsets)) {
        Ok(_) => Ok(()),
        Err(ArrayBytesRawOffsetsCreateError::ZeroLength) => Err(OffsetsProblem::ZeroLength),
        Err(ArrayBytesRawOffsetsCreateError::NotMonotonicallyIncreasing) => Err(OffsetsProblem::NotMonotonicallyIncreasing),
    }
}

/// zarrs' `ArrayBytesVariableLength::new` on offsets that `ArrayBytesOffsets`
/// accepts: it accepts the bytes when the last offset is within them.
#[verifier::external_body]
fn zarrs_offsets_within(bytes: &[u8], offsets: &[usize]) -> (res: bool)
    requires
        offsets@.len() > 0,
        offsets_increasing(offsets@),
    ensures
        res == (offsets@.last() <= bytes@.len()),
{
    let offsets = ArrayBytesOffsets::new(Cow::Borrowed(offsets)).unwrap();
    ArrayBytesVariableLength::new(Cow::Borrowed(bytes), offsets).is_ok()
}

/// Why owned array bytes cannot be lent to a codec.
#[derive(Clone, Copy, Debug, PartialEq, Eq, Structural)]
pub enum ArrayBytesError {
    /// There are no element offsets.
    OffsetsZeroLength,
    /// The element offsets decrease somewhere.
    OffsetsNotMonotonicallyIncreasing,
    /// The last offset is past the end of the bytes.
    OffsetOutOfBounds { offset: usize, len: usize },
}

/// The layout of owned array bytes.
#[derive(Clone, Copy, Debug, PartialEq, Eq, Structural)]
pub enum ArrayBytesKind {
    Fixed,
    Variable,
    Optional,
}

/// Owned array bytes, mirroring zarrs' `ArrayBytes` sum type.
pub enum ArrayBytesOwned {
    /// The bytes of fixed-size elements.
    Fixed(Vec<u8>),
    /// Variable-size elements: element `i` is `bytes[offsets[i]..offsets[i + 1]]`.
    Variable { bytes: Vec<u8>, offsets: Vec<usize> },
    /// Optional elements: the data, and a mask of one byte per element where
    /// 0 marks a missing element.
    Optional { data: Box<ArrayBytesOwned>, mask: Vec<u8> },
}

impl ArrayBytesOwned {
    /// The element bytes buffer, descending into optional data.
    pub open spec fn spec_element_bytes(self) -> Seq<u8>
        decreases self,
    {
        match self {
            ArrayBytesOwned::Fixed(bytes) => bytes@,
            ArrayBytesOwned::Variable { bytes, .. } => bytes@,
            ArrayBytesOwned::Optional { data, .. } => data.spec_element_bytes(),
        }
    }

    /// The element offsets, descending into optional data.
    pub open spec fn spec_element_offsets(self) -> Option<Seq<usize>>
        decreases self,
    {
        match self {
            ArrayBytesOwned::Fixed(_) => None,
            ArrayBytesOwned::Variable { offsets, .. } => Some(offsets@),
            ArrayBytesOwned::Optional { data, .. } => data.spec_element_offsets(),
        }
    }

    /// The validity mask, for optional bytes.
    pub open spec fn spec_validity_mask(self) -> Option<Seq<u8>> {
        match self {
            ArrayBytesOwned::Optional { mask, .. } => Some(mask@),
            _ => None,
        }
    }

    /// The first problem that lending these bytes to a codec runs into, if any.
    pub open spec fn spec_problem(self) -> Option<ArrayBytesError>
        decreases self,
    {
        match self {
            ArrayBytesOwned::Fixed(_) => None,
            ArrayBytesOwned::Variable { bytes, offsets } => if offsets@.len() == 0 {
                Some(ArrayBytesError::OffsetsZeroLength)
            } else if !offsets_increasing(offsets@) {
                Some(ArrayBytesError::OffsetsNotMonotonicallyIncreasing)
            } else if offsets@.last() > bytes@.len() {
                Some(
                    ArrayBytesError::OffsetOutOfBounds {
                        offset: offsets@.last(),
                        len: bytes@.len() as usize,
                    },
                )
            } else {
                None
            },
            ArrayBytesOwned::Optional { data, .. } => data.spec_problem(),
        }
    }

    /// Build array bytes from a buffer and, optionally, element offsets (which
    /// make them variable-length) and a validity mask (which makes them optional).
    pub fn from_parts(bytes: Vec<u8>, mask: Option<Vec<u8>>, offsets: Option<Vec<usize>>) -> (res:
        Self)
        ensures
            res.spec_element_bytes() == bytes@,
            res.spec_element_offsets() == match offsets {
                Some(o) => Some(o@),
                None => None::<Seq<usize>>,
            },
            res.spec_validity_mask() == match mask {
                Some(m) => Some(m@),
                None => None::<Seq<u8>>,
            },
            res.spec_kind() == match (mask, offsets) {
                (Some(_), _) => ArrayBytesKind::Optional,
                (None, Some(_)) => ArrayBytesKind::Variable,
                (None, None) => ArrayBytesKind::Fixed,
            },
            mask is Some ==> (res matches ArrayBytesOwned::Optional { data, .. }
                && data.spec_kind() != ArrayBytesKind::Optional),
    {
        let data = match offsets {
            Some(offsets) => ArrayBytesOwned::Variable { bytes, offsets },
            None => ArrayBytesOwned::Fixed(bytes),
        };
        proof {
            reveal_with_fuel(ArrayBytesOwned::spec_element_bytes, 2);
            reveal_with_fuel(ArrayBytesOwned::spec_element_offsets, 2);
        }
        match mask {
            Some(mask) => ArrayBytesOwned::Optional { data: Box::new(data), mask },
            None => data,
        }
    }

    /// The layout of these bytes.
    pub open spec fn spec_kind(self) -> ArrayBytesKind {
        match self {
            ArrayBytesOwned::Fixed(_) => ArrayBytesKind::Fixed,
            ArrayBytesOwned::Variable { .. } => ArrayBytesKind::Variable,
            ArrayBytesOwned::Optional { .. } => ArrayBytesKind::Optional,
        }
    }

    /// The layout of these bytes.
    pub fn kind(&self) -> (res: ArrayBytesKind)
        ensures
            res == self.spec_kind(),
    {
        match self {
            ArrayBytesOwned::Fixed(_) => ArrayBytesKind::Fixed,
            ArrayBytesOwned::Variable { .. } => ArrayBytesKind::Variable,
            ArrayBytesOwned::Optional { .. } => ArrayBytesKind::Optional,
        }
    }

    /// The element bytes buffer, descending into optional data.
    pub fn element_bytes(&self) -> (res: &Vec<u8>)
        ensures
            res@ == self.spec_element_bytes(),
        decreases self,
    {
        match self {
            ArrayBytesOwned::Fixed(bytes) => bytes,
            ArrayBytesOwned::Variable { bytes, .. } => bytes,
            ArrayBytesOwned::Optional { data, .. } => data.element_bytes(),
        }
    }

    /// The element offsets, descending into optional data; `None` for fixed-length bytes.
    pub fn element_offsets(&self) -> (res: Option<&Vec<usize>>)
        ensures
            match res {
                Some(o) => self.spec_element_offsets() == Some(o@),
                None => self.spec_element_offsets() is None,
            },
        decreases self,
    {
        match self {
            ArrayBytesOwned::Fixed(_) => None,
            ArrayBytesOwned::Variable { offsets, .. } => Some(offsets),
            ArrayBytesOwned::Optional { data, .. } => data.element_offsets(),
        }
    }

    /// The validity mask (one byte per element), or `None` if not optional.
    pub fn validity_mask(&self) -> (res: Option<&Vec<u8>>)
        ensures
            match res {
                Some(m) => self.spec_validity_mask() == Some(m@),
                None => self.spec_validity_mask() is None,
            },
    {
        match self {
            ArrayBytesOwned::Optional { mask, .. } => Some(mask),
            _ => None,
        }
    }

    /// Check that these bytes can be lent to a codec as zarrs `ArrayBytes`:
    /// the offsets of variable-length data must be valid for its bytes.
    pub fn check(&self) -> (res: Result<(), ArrayBytesError>)
        ensures
            match res {
                Ok(()) => self.spec_problem() is None,
                Err(e) => self.spec_problem() == Some(e),
            },
        decreases self,
    {
        match self {
            ArrayBytesOwned::Fixed(_) => Ok(()),
            ArrayBytesOwned::Variable { bytes, offsets } => {
                match zarrs_check_offsets(offsets.as_slice()) {
                    Err(OffsetsProblem::ZeroLength) => {
                        return Err(ArrayBytesError::OffsetsZeroLength);
                    },
                    Err(OffsetsProblem::NotMonotonicallyIncreasing) => {
                        return Err(ArrayBytesError::OffsetsNotMonotonicallyIncreasing);
                    },
                    Ok(()) => {},
                }
                if zarrs_offsets_within(bytes.as_slice(), offsets.as_slice()) {
                    Ok(())
                } else {
                    Err(
                        ArrayBytesError::OffsetOutOfBounds {
                            offset: offsets[offsets.len() - 1],
                            len: bytes.len(),
                        },
                    )
                }
            },
            ArrayBytesOwned::Optional { data, .. } => data.check(),
        }
    }
}


/// The name of a layout in a repr.
pub open spec fn spec_kind_name(kind: ArrayBytesKind) -> Seq<char> {
    match kind {
        ArrayBytesKind::Fixed => "fixed"@,
        ArrayBytesKind::Variable => "variable"@,
        ArrayBytesKind::Optional => "optional"@,
    }
}

impl ArrayBytesOwned {
    /// The repr: the layout and the size of the element bytes, such as
    /// `ArrayBytes(<fixed>, 16 bytes)`.
    pub open spec fn spec_repr(self) -> Seq<char> {
        "ArrayBytes(<"@ + spec_kind_name(self.spec_kind()) + ">, "@ + decimal(
            self.spec_element_bytes().len(),
        ) + " bytes)"@
    }

    /// The repr of these bytes.
    pub fn repr(&self) -> (res: String)
        ensures
            res@ == self.spec_repr(),
    {
        let mut s = String::from_str("ArrayBytes(<");
        match self.kind() {
            ArrayBytesKind::Fixed => s.append("fixed"),
            ArrayBytesKind::Variable => s.append("variable"),
            ArrayBytesKind::Optional => s.append("optional"),
        }
        s.append(">, ");
        let n = self.element_bytes().len();
        push_decimal(&mut s, n as u64);
        s.append(" bytes)");
        s
    }
}

} // verus!
