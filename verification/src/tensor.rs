//! Decoded array data: fixed-length tensors, variable-length tensors and their
//! optional (masked) forms, with the layouts that NumPy, DLPack and the buffer
//! protocol read them through.
use vstd::prelude::*;

use vstd::utf8::{decode_utf8, valid_utf8};

use vstd::string::*;

use crate::array_bytes::{offsets_valid, ArrayBytesOwned};
use crate::export::{arrow_offsets, text_elements};
use crate::dtype::{
    buffer_protocol_format, decimal, dlpack_from_zarr, push_decimal, spec_buffer_format,
    spec_dlpack_of, DLPackType, DataType, DataTypeError,
};
use crate::input::{debug_list, push_debug_list};

verus! {

/// The product of the dimensions of a shape (1 for a scalar).
pub open spec fn product(s: Seq<u64>) -> nat
    decreases s.len(),
{
    if s.len() == 0 {
        1
    } else {
        product(s.drop_last()) * (s.last() as nat)
    }
}

/// The product of a concatenation is the product of the products.
pub proof fn lemma_product_append(a: Seq<u64>, b: Seq<u64>)
    ensures
        product(a + b) == product(a) * product(b),
    decreases b.len(),
{
    if b.len() == 0 {
        assert(a + b =~= a);
        assert(product(b) == 1);
        assert(product(a) * 1 == product(a));
    } else {
        lemma_product_append(a, b.drop_last());
        assert((a + b).drop_last() =~= a + b.drop_last());
        assert((a + b).last() == b.last());
        let pa = product(a);
        let pb = product(b.drop_last());
        let l = b.last() as nat;
        assert(product(a + b) == product(a + b.drop_last()) * l);
        assert(product(b) == pb * l);
        assert(pa * pb * l == pa * (pb * l)) by (nonlinear_arith);
    }
}

/// The product of `s.skip(i)` peels off its first factor.
pub proof fn lemma_product_skip(s: Seq<u64>, i: int)
    requires
        0 <= i < s.len(),
    ensures
        product(s.skip(i)) == (s[i] as nat) * product(s.skip(i + 1)),
{
    lemma_product_append(seq![s[i]], s.skip(i + 1));
    assert(seq![s[i]] + s.skip(i + 1) =~= s.skip(i));
    assert(product(seq![s[i]]) == s[i] as nat) by {
        assert(seq![s[i]].drop_last() =~= Seq::<u64>::empty());
        assert(product(Seq::<u64>::empty()) == 1);
        assert(product(seq![s[i]]) == product(seq![s[i]].drop_last()) * (s[i] as nat));
    }
}

/// The product of the first `k + 1` dimensions extends that of the first `k`.
pub proof fn lemma_product_take(s: Seq<u64>, k: int)
    requires
        0 <= k < s.len(),
    ensures
        product(s.take(k + 1)) == product(s.take(k)) * (s[k] as nat),
{
    assert(s.take(k + 1).drop_last() =~= s.take(k));
}

/// Whether `item_size` times the dimensions, multiplied in order, stays within
/// `usize` at every step (each dimension itself being a `usize`).
pub open spec fn byte_len_fits(item_size: nat, shape: Seq<u64>) -> bool {
    forall|k: int|
        0 <= k < shape.len() ==> #[trigger] shape[k] <= usize::MAX && item_size * product(
            shape.take(k + 1),
        ) <= usize::MAX
}

/// Why decoded data cannot form a tensor.
#[derive(Clone, Debug)]
pub enum TensorError {
    /// A tensor needs a fixed-size data type; holds the data type as zarrs
    /// prints it.
    VariableSizeDataType(String),
    /// `item_size` times the product of `shape` overflows `usize`.
    SizeOverflow { shape: Vec<u64>, item_size: usize },
    /// The bytes do not hold exactly one element per index of the shape.
    UnexpectedSize { got: usize, expected: usize },
    /// A dimension does not fit an `isize`, the buffer protocol's index type.
    DimensionOverflow(u64),
    /// A dimension does not fit an `i64`, DLPack's index type.
    DLPackDimensionOverflow(u64),
    /// The number of dimensions does not fit a C `int`.
    NdimOverflow(usize),
    /// The byte length does not fit an `isize`.
    LengthOverflow(usize),
    /// A stride does not fit the index type of the export.
    StrideOverflow,
    /// The data type has no code in the export format.
    DataType(DataTypeError),
}

impl TensorError {
    /// The user-facing message of this error.
    pub open spec fn spec_message(self) -> Seq<char> {
        match self {
            TensorError::VariableSizeDataType(d) => "Tensor requires a fixed-size data type, but "@
                + d@ + " is variable-size"@,
            TensorError::SizeOverflow { shape, item_size } => "Tensor shape "@ + debug_list(shape@)
                + " * item size "@ + decimal(item_size as nat) + " overflows usize"@,
            TensorError::UnexpectedSize { got, expected } => "got chunk decoded size "@ + decimal(
                got as nat,
            ) + ", expected "@ + decimal(expected as nat),
            TensorError::DimensionOverflow(d) => "shape "@ + decimal(d as nat)
                + " overflows isize: out of range integral type conversion attempted"@,
            TensorError::DLPackDimensionOverflow(_) => "overflow converting shape to i64"@,
            TensorError::NdimOverflow(n) => "ndim "@ + decimal(n as nat)
                + " overflows c_int: out of range integral type conversion attempted"@,
            TensorError::LengthOverflow(n) => "len "@ + decimal(n as nat)
                + " overflows isize: out of range integral type conversion attempted"@,
            TensorError::StrideOverflow => "a stride of the tensor overflows its index type"@,
            TensorError::DataType(e) => e.spec_message(),
        }
    }

    /// The user-facing message of this error.
    pub fn message(&self) -> (res: String)
        ensures
            res@ == self.spec_message(),
    {
        match self {
            TensorError::VariableSizeDataType(d) => {
                let mut s = String::from_str("Tensor requires a fixed-size data type, but ");
                s.append(d.as_str());
                s.append(" is variable-size");
                s
            },
            TensorError::SizeOverflow { shape, item_size } => {
                let mut s = String::from_str("Tensor shape ");
                push_debug_list(&mut s, shape.as_slice());
                s.append(" * item size ");
                push_decimal(&mut s, *item_size as u64);
                s.append(" overflows usize");
                s
            },
            TensorError::UnexpectedSize { got, expected } => {
                let mut s = String::from_str("got chunk decoded size ");
                push_decimal(&mut s, *got as u64);
                s.append(", expected ");
                push_decimal(&mut s, *expected as u64);
                s
            },
            TensorError::DimensionOverflow(d) => {
                let mut s = String::from_str("shape ");
                push_decimal(&mut s, *d);
                s.append(" overflows isize: out of range integral type conversion attempted");
                s
            },
            TensorError::DLPackDimensionOverflow(_) => String::from_str(
                "overflow converting shape to i64",
            ),
            TensorError::NdimOverflow(n) => {
                let mut s = String::from_str("ndim ");
                push_decimal(&mut s, *n as u64);
                s.append(" overflows c_int: out of range integral type conversion attempted");
                s
            },
            TensorError::LengthOverflow(n) => {
                let mut s = String::from_str("len ");
                push_decimal(&mut s, *n as u64);
                s.append(" overflows isize: out of range integral type conversion attempted");
                s
            },
            TensorError::StrideOverflow => String::from_str(
                "a stride of the tensor overflows its index type",
            ),
            TensorError::DataType(e) => e.message(),
        }
    }
}

/// The number of bytes of a tensor: `item_size` times the product of `shape`,
/// or an error when that overflows `usize` along the way.
pub fn tensor_byte_len(item_size: usize, shape: &[u64]) -> (res: Result<usize, TensorError>)
    ensures
        match res {
            Ok(n) => byte_len_fits(item_size as nat, shape@) && n == item_size * product(shape@),
            Err(e) => !byte_len_fits(item_size as nat, shape@) && (e matches TensorError::SizeOverflow {
                shape: s,
                item_size: k,
            } && s@ == shape@ && k == item_size),
        },
{
    let mut acc: usize = item_size;
    let mut i: usize = 0;
    assert(shape@.take(0) =~= Seq::<u64>::empty());
    assert(item_size * 1 == item_size);
    while i < shape.len()
        invariant
            i <= shape@.len(),
            acc == item_size * product(shape@.take(i as int)),
            forall|k: int|
                0 <= k < i ==> #[trigger] shape@[k] <= usize::MAX && item_size * product(
                    shape@.take(k + 1),
                ) <= usize::MAX,
        decreases shape.len() - i,
    {
        let dim = shape[i];
        proof {
            lemma_product_take(shape@, i as int);
            let p = product(shape@.take(i as int));
            assert(item_size * (p * dim) == (item_size * p) * dim) by (nonlinear_arith);
        }
        if dim > usize::MAX as u64 {
            return Err(TensorError::SizeOverflow { shape: vstd::slice::slice_to_vec(shape), item_size });
        }
        let d = dim as usize;
        match acc.checked_mul(d) {
            None => {
                return Err(
                    TensorError::SizeOverflow { shape: vstd::slice::slice_to_vec(shape), item_size },
                );
            },
            Some(v) => {
                acc = v;
            },
        }
        i = i + 1;
    }
    assert(shape@.take(shape@.len() as int) =~= shape@);
    Ok(acc)
}

/// Fixed-width, dense decoded data: the bytes of `product(shape)` elements of
/// `data_type`, in C order.
pub struct FixedLengthTensor {
    bytes: Vec<u8>,
    data_type: DataType,
    shape: Vec<u64>,
}

impl FixedLengthTensor {
    /// A tensor holds exactly one fixed-size element per index of its shape.
    #[verifier::type_invariant]
    pub closed spec fn well_formed(self) -> bool {
        &&& self.data_type.spec_fixed_size() is Some
        &&& byte_len_fits(self.data_type.spec_fixed_size().unwrap() as nat, self.shape@)
        &&& self.bytes@.len() == self.data_type.spec_fixed_size().unwrap() * product(self.shape@)
    }

    /// The tensor's bytes.
    pub closed spec fn spec_bytes(self) -> Seq<u8> {
        self.bytes@
    }

    /// The tensor's data type.
    pub closed spec fn spec_data_type(self) -> DataType {
        self.data_type
    }

    /// The tensor's shape.
    pub closed spec fn spec_shape(self) -> Seq<u64> {
        self.shape@
    }

    /// The number of bytes a tensor of this data type and shape must hold, if
    /// the data type is fixed-size and the count fits `usize`.
    pub open spec fn expected_len(data_type: DataType, shape: Seq<u64>) -> Option<nat> {
        match data_type.spec_fixed_size() {
            None => None,
            Some(item) => if byte_len_fits(item as nat, shape) {
                Some((item * product(shape)) as nat)
            } else {
                None
            },
        }
    }

    /// Why `bytes_len` bytes of `data_type` cannot form a tensor of `shape`:
    /// the data type is not fixed-size (the error holds it as zarrs prints it),
    /// the byte count of the shape overflows `usize`, or the bytes are not
    /// that count.
    pub open spec fn refusal(e: TensorError, data_type: DataType, shape: Seq<u64>, bytes_len: nat) -> bool {
        match e {
            TensorError::VariableSizeDataType(d) => data_type.spec_fixed_size() is None && d@
                == data_type.spec_zarrs_display(),
            TensorError::SizeOverflow { shape: s, item_size } => data_type.spec_fixed_size()
                == Some(item_size) && s@ == shape && !byte_len_fits(item_size as nat, shape),
            TensorError::UnexpectedSize { got, expected } => Self::expected_len(data_type, shape)
                == Some(expected as nat) && got == bytes_len && got != expected,
            _ => false,
        }
    }

    /// Construct a tensor from its bytes, data type and shape.
    ///
    /// Fails if `data_type` is not fixed-size, if the byte count of the shape
    /// overflows `usize`, or if `bytes` does not hold exactly
    /// `product(shape) * item_size` bytes.
    pub fn new(bytes: Vec<u8>, data_type: DataType, shape: Vec<u64>) -> (res: Result<
        Self,
        TensorError,
    >)
        ensures
            match res {
                Ok(t) => Self::expected_len(data_type, shape@) == Some(bytes@.len())
                    && t.spec_bytes() == bytes@ && t.spec_data_type() == data_type
                    && t.spec_shape() == shape@,
                Err(e) => Self::refusal(e, data_type, shape@, bytes@.len()),
            },
    {
        let item_size = match data_type.fixed_size() {
            Some(n) => n,
            None => {
                return Err(TensorError::VariableSizeDataType(crate::dtype::zarrs_display(&data_type)));
            },
        };
        let expected = match tensor_byte_len(item_size, &shape) {
            Ok(n) => n,
            Err(e) => {
                return Err(e);
            },
        };
        if bytes.len() != expected {
            return Err(TensorError::UnexpectedSize { got: bytes.len(), expected });
        }
        Ok(FixedLengthTensor { bytes, data_type, shape })
    }

    /// The tensor's bytes.
    pub fn bytes(&self) -> (res: &[u8])
        ensures
            res@ == self.spec_bytes(),
    {
        self.bytes.as_slice()
    }

    /// The tensor's data type.
    pub fn data_type(&self) -> (res: &DataType)
        ensures
            *res == self.spec_data_type(),
    {
        &self.data_type
    }

    /// The tensor's shape.
    pub fn shape(&self) -> (res: &[u64])
        ensures
            res@ == self.spec_shape(),
    {
        self.shape.as_slice()
    }

    /// Give back the bytes, the data type and the shape.
    pub fn into_inner(self) -> (res: (Vec<u8>, DataType, Vec<u64>))
        ensures
            res.0@ == self.spec_bytes(),
            res.1 == self.spec_data_type(),
            res.2@ == self.spec_shape(),
    {
        (self.bytes, self.data_type, self.shape)
    }
}


/// Strides for a C-contiguous layout: stride `i` is `item` times the product of
/// the dimensions after `i`.
pub open spec fn spec_c_strides(item: nat, shape: Seq<u64>) -> Seq<int> {
    Seq::new(shape.len(), |i: int| (item * product(shape.skip(i + 1))) as int)
}

/// Whether every C-order stride of `item`-sized elements fits within `max`.
pub open spec fn c_strides_fit(item: nat, shape: Seq<u64>, max: nat) -> bool {
    forall|i: int| 0 < i <= shape.len() ==> #[trigger] (item * product(shape.skip(i))) <= max
}

/// The C-order strides of a shape for elements of `item` units, or `None` if
/// one of them exceeds `max`.
pub fn c_order_strides(item: u64, shape: &[u64], max: u64) -> (res: Option<Vec<u64>>)
    requires
        item <= max,
    ensures
        match res {
            Some(strides) => c_strides_fit(item as nat, shape@, max as nat) && strides@.len()
                == shape@.len() && forall|i: int|
                0 <= i < shape@.len() ==> #[trigger] strides@[i] as int == spec_c_strides(
                    item as nat,
                    shape@,
                )[i],
            None => !c_strides_fit(item as nat, shape@, max as nat),
        },
{
    let n = shape.len();
    let mut strides: Vec<u64> = Vec::new();
    let mut k: usize = 0;
    while k < n
        invariant
            k <= n == shape@.len(),
            strides@.len() == k,
        decreases n - k,
    {
        strides.push(0);
        k = k + 1;
    }
    let mut acc: u64 = item;
    let mut i: usize = n;
    assert(shape@.skip(n as int) =~= Seq::<u64>::empty());
    assert(product(Seq::<u64>::empty()) == 1);
    assert(item * 1 == item);
    while i > 0
        invariant
            i <= n == shape@.len(),
            strides@.len() == n,
            i > 0 ==> acc == item * product(shape@.skip(i as int)),
            acc <= max,
            forall|j: int| i <= j < n ==> #[trigger] strides@[j] as int == item * product(
                shape@.skip(j + 1),
            ),
            forall|j: int| i <= j <= n && 0 < j ==> #[trigger] (item * product(shape@.skip(j)))
                <= max,
        decreases i,
    {
        strides.set(i - 1, acc);
        if i - 1 > 0 {
            let dim = shape[i - 1];
            proof {
                lemma_product_skip(shape@, i - 1);
                let p = product(shape@.skip(i as int));
                assert(item * (dim * p) == (item * p) * dim) by (nonlinear_arith);
            }
            match acc.checked_mul(dim) {
                None => {
                    proof {
                        assert((item as nat) * product(shape@.skip(i - 1)) > max);
                    }
                    return None;
                },
                Some(v) => {
                    if v > max {
                        proof {
                            assert((item as nat) * product(shape@.skip(i - 1)) > max);
                        }
                        return None;
                    }
                    acc = v;
                },
            }
        }
        i = i - 1;
    }
    assert forall|j: int| 0 <= j < shape@.len() implies #[trigger] strides@[j] as int
        == spec_c_strides(item as nat, shape@)[j] by {
        assert(strides@[j] as int == item * product(shape@.skip(j + 1)));
    }
    Some(strides)
}

/// The PEP 3118 view of a tensor: format code, element size, byte length,
/// number of dimensions, shape and byte strides.
pub struct BufferLayout {
    pub format: char,
    pub itemsize: isize,
    pub len: isize,
    pub ndim: i32,
    pub shape: Vec<isize>,
    pub strides: Vec<isize>,
}

/// The DLPack view of a tensor: data type, shape and element strides.
pub struct DLPackLayout {
    pub data_type: DLPackType,
    pub shape: Vec<i64>,
    pub strides: Vec<i64>,
}

/// Convert a shape to signed indices bounded by `max`, naming the first
/// dimension that exceeds it.
fn shape_within(shape: &[u64], max: u64) -> (res: Result<Vec<u64>, u64>)
    ensures
        match res {
            Ok(v) => v@ == shape@ && forall|i: int| 0 <= i < shape@.len() ==> #[trigger] shape@[i]
                <= max,
            Err(d) => exists|i: int| 0 <= i < shape@.len() && #[trigger] shape@[i] == d && d > max,
        },
{
    let mut out: Vec<u64> = Vec::new();
    let mut i: usize = 0;
    while i < shape.len()
        invariant
            i <= shape@.len(),
            out@ == shape@.take(i as int),
            forall|j: int| 0 <= j < i ==> #[trigger] shape@[j] <= max,
        decreases shape.len() - i,
    {
        if shape[i] > max {
            return Err(shape[i]);
        }
        out.push(shape[i]);
        assert(shape@.take(i as int).push(shape@[i as int]) =~= shape@.take(i + 1));
        i = i + 1;
    }
    assert(shape@.take(shape@.len() as int) =~= shape@);
    Ok(out)
}

impl FixedLengthTensor {
    /// The PEP 3118 buffer view of this tensor (`memoryview(tensor)`).
    ///
    /// Fails if the data type has no standard format code, or if a dimension,
    /// a stride, the number of dimensions or the byte length does not fit the
    /// buffer protocol's C types.
    pub fn buffer_layout(&self) -> (res: Result<BufferLayout, TensorError>)
        ensures
            match res {
                Ok(b) => spec_buffer_format(self.spec_data_type()) == Some(
                    (b.format, b.itemsize as usize),
                ) && b.itemsize > 0 && b.shape@.len() == self.spec_shape().len() && (forall|i: int|
                    0 <= i < b.shape@.len() ==> #[trigger] b.shape@[i] as int
                        == self.spec_shape()[i]) && b.strides@.len() == self.spec_shape().len()
                    && (forall|i: int|
                    0 <= i < b.strides@.len() ==> #[trigger] b.strides@[i] as int
                        == spec_c_strides(b.itemsize as nat, self.spec_shape())[i]) && b.ndim
                    == self.spec_shape().len() && b.len == self.spec_bytes().len(),
                Err(TensorError::DataType(_)) => spec_buffer_format(self.spec_data_type()) is None,
                Err(TensorError::DimensionOverflow(d)) => d > isize::MAX && exists|i: int|
                    0 <= i < self.spec_shape().len() && #[trigger] self.spec_shape()[i] == d,
                Err(TensorError::StrideOverflow) => !c_strides_fit(
                    spec_buffer_format(self.spec_data_type()).unwrap().1 as nat,
                    self.spec_shape(),
                    isize::MAX as nat,
                ),
                Err(TensorError::NdimOverflow(n)) => n == self.spec_shape().len() && n > i32::MAX,
                Err(TensorError::LengthOverflow(n)) => n == self.spec_bytes().len() && n
                    > isize::MAX,
                Err(_) => false,
            },
    {
        let (format, itemsize) = match buffer_protocol_format(&self.data_type) {
            Ok(f) => f,
            Err(e) => {
                return Err(TensorError::DataType(e));
            },
        };
        assert(itemsize <= 8);
        let shape = match shape_within(&self.shape, isize::MAX as u64) {
            Ok(s) => s,
            Err(d) => {
                proof {
                    let i = choose|i: int|
                        0 <= i < self.shape@.len() && #[trigger] self.shape@[i] == d && d
                            > isize::MAX as u64;
                    assert(self.spec_shape()[i] == d);
                }
                return Err(TensorError::DimensionOverflow(d));
            },
        };
        let strides = match c_order_strides(itemsize as u64, &shape, isize::MAX as u64) {
            Some(s) => s,
            None => {
                return Err(TensorError::StrideOverflow);
            },
        };
        let n = shape.len();
        if n > i32::MAX as usize {
            return Err(TensorError::NdimOverflow(n));
        }
        let len = self.bytes.len();
        if len > isize::MAX as usize {
            return Err(TensorError::LengthOverflow(len));
        }
        let mut shape_out: Vec<isize> = Vec::new();
        let mut strides_out: Vec<isize> = Vec::new();
        let mut i: usize = 0;
        while i < n
            invariant
                i <= n == shape@.len() == strides@.len(),
                shape@ == self.spec_shape(),
                forall|j: int| 0 <= j < n ==> #[trigger] shape@[j] <= isize::MAX,
                forall|j: int| 0 <= j < n ==> #[trigger] strides@[j] as int == spec_c_strides(
                    itemsize as nat,
                    shape@,
                )[j],
                c_strides_fit(itemsize as nat, shape@, isize::MAX as nat),
                shape_out@.len() == i,
                strides_out@.len() == i,
                forall|j: int| 0 <= j < i ==> #[trigger] shape_out@[j] as int == shape@[j],
                forall|j: int| 0 <= j < i ==> #[trigger] strides_out@[j] as int == strides@[j],
            decreases n - i,
        {
            shape_out.push(shape[i] as isize);
            proof {
                assert(strides@[i as int] as int == itemsize * product(shape@.skip(i + 1)));
                assert(0 < i + 1 <= n);
                assert((itemsize * product(shape@.skip(i + 1))) <= isize::MAX);
            }
            strides_out.push(strides[i] as isize);
            i = i + 1;
        }
        Ok(
            BufferLayout {
                format,
                itemsize: itemsize as isize,
                len: len as isize,
                ndim: n as i32,
                shape: shape_out,
                strides: strides_out,
            },
        )
    }

    /// The DLPack view of this tensor (`__dlpack__`): its DLPack data type, its
    /// shape as `i64`, and its row-major strides counted in elements.
    ///
    /// Fails if the data type has no DLPack counterpart, or if a dimension or a
    /// stride does not fit an `i64`.
    pub fn dlpack_layout(&self) -> (res: Result<DLPackLayout, TensorError>)
        ensures
            match res {
                Ok(d) => spec_dlpack_of(self.spec_data_type()) == Some(
                    (d.data_type.code, d.data_type.bits),
                ) && d.data_type.lanes == 1 && d.shape@.len() == self.spec_shape().len()
                    && (forall|i: int|
                    0 <= i < d.shape@.len() ==> #[trigger] d.shape@[i] as int
                        == self.spec_shape()[i]) && d.strides@.len() == self.spec_shape().len()
                    && (forall|i: int|
                    0 <= i < d.strides@.len() ==> #[trigger] d.strides@[i] as int
                        == spec_c_strides(1, self.spec_shape())[i]),
                Err(TensorError::DataType(_)) => spec_dlpack_of(self.spec_data_type()) is None,
                Err(TensorError::DLPackDimensionOverflow(d)) => d > i64::MAX && exists|i: int|
                    0 <= i < self.spec_shape().len() && #[trigger] self.spec_shape()[i] == d,
                Err(TensorError::StrideOverflow) => !c_strides_fit(
                    1,
                    self.spec_shape(),
                    i64::MAX as nat,
                ),
                Err(_) => false,
            },
    {
        let data_type = match dlpack_from_zarr(&self.data_type) {
            Ok(t) => t,
            Err(e) => {
                return Err(TensorError::DataType(e));
            },
        };
        let shape = match shape_within(&self.shape, i64::MAX as u64) {
            Ok(s) => s,
            Err(d) => {
                proof {
                    let i = choose|i: int|
                        0 <= i < self.shape@.len() && #[trigger] self.shape@[i] == d && d
                            > i64::MAX as u64;
                    assert(self.spec_shape()[i] == d);
                }
                return Err(TensorError::DLPackDimensionOverflow(d));
            },
        };
        let strides = match c_order_strides(1, &shape, i64::MAX as u64) {
            Some(s) => s,
            None => {
                return Err(TensorError::StrideOverflow);
            },
        };
        let n = shape.len();
        let mut shape_out: Vec<i64> = Vec::new();
        let mut strides_out: Vec<i64> = Vec::new();
        let mut i: usize = 0;
        while i < n
            invariant
                i <= n == shape@.len() == strides@.len(),
                shape@ == self.spec_shape(),
                forall|j: int| 0 <= j < n ==> #[trigger] shape@[j] <= i64::MAX,
                forall|j: int| 0 <= j < n ==> #[trigger] strides@[j] as int == spec_c_strides(
                    1,
                    shape@,
                )[j],
                c_strides_fit(1, shape@, i64::MAX as nat),
                shape_out@.len() == i,
                strides_out@.len() == i,
                forall|j: int| 0 <= j < i ==> #[trigger] shape_out@[j] as int == shape@[j],
                forall|j: int| 0 <= j < i ==> #[trigger] strides_out@[j] as int == strides@[j],
            decreases n - i,
        {
            shape_out.push(shape[i] as i64);
            proof {
                assert(strides@[i as int] as int == 1 * product(shape@.skip(i + 1)));
                assert(0 < i + 1 <= n);
                assert((1 * product(shape@.skip(i + 1))) <= i64::MAX);
            }
            strides_out.push(strides[i] as i64);
            i = i + 1;
        }
        Ok(DLPackLayout { data_type, shape: shape_out, strides: strides_out })
    }
}


/// Variable-length decoded data (strings or byte strings): element `i` is
/// `bytes[offsets[i]..offsets[i + 1]]`.
pub struct VariableLengthTensor {
    bytes: Vec<u8>,
    offsets: Vec<usize>,
    data_type: DataType,
    shape: Vec<u64>,
}

/// The element bytes of variable-length data.
pub open spec fn spec_elements(bytes: Seq<u8>, offsets: Seq<usize>) -> Seq<Seq<u8>> {
    Seq::new(
        (if offsets.len() == 0 { 0 } else { offsets.len() - 1 }) as nat,
        |i: int| bytes.subrange(offsets[i] as int, offsets[i + 1] as int),
    )
}

/// Copy `bytes[from..to]`.
fn copy_range(bytes: &[u8], from: usize, to: usize) -> (res: Vec<u8>)
    requires
        from <= to <= bytes@.len(),
    ensures
        res@ == bytes@.subrange(from as int, to as int),
{
    let mut out: Vec<u8> = Vec::new();
    let mut i: usize = from;
    while i < to
        invariant
            from <= i <= to <= bytes@.len(),
            out@ == bytes@.subrange(from as int, i as int),
        decreases to - i,
    {
        out.push(bytes[i]);
        assert(bytes@.subrange(from as int, i as int).push(bytes@[i as int]) =~= bytes@.subrange(
            from as int,
            i + 1,
        ));
        i = i + 1;
    }
    out
}

/// Split variable-length data into its elements.
pub fn split_elements(bytes: &[u8], offsets: &[usize]) -> (res: Vec<Vec<u8>>)
    requires
        offsets_valid(offsets@, bytes@.len()),
    ensures
        res@.len() == spec_elements(bytes@, offsets@).len(),
        forall|i: int| 0 <= i < res@.len() ==> #[trigger] res@[i]@ == spec_elements(
            bytes@,
            offsets@,
        )[i],
{
    let mut out: Vec<Vec<u8>> = Vec::new();
    let n = offsets.len() - 1;
    let mut i: usize = 0;
    proof {
        // Every offset is within the bytes, since they increase up to the last one.
        assert forall|j: int| 0 <= j < offsets@.len() implies #[trigger] offsets@[j] <= bytes@.len() by {
            crate::array_bytes::lemma_offset_at_most_last(offsets@, j);
        }
    }
    while i < n
        invariant
            n == offsets@.len() - 1,
            i <= n,
            offsets_valid(offsets@, bytes@.len()),
            forall|j: int| 0 <= j < offsets@.len() ==> #[trigger] offsets@[j] <= bytes@.len(),
            out@.len() == i,
            forall|j: int| 0 <= j < i ==> #[trigger] out@[j]@ == spec_elements(bytes@, offsets@)[j],
        decreases n - i,
    {
        assert(offsets@[i as int] <= offsets@[i + 1]);
        let element = copy_range(bytes, offsets[i], offsets[i + 1]);
        out.push(element);
        i = i + 1;
    }
    out
}

impl VariableLengthTensor {
    /// Offsets are valid for the bytes.
    #[verifier::type_invariant]
    pub closed spec fn well_formed(self) -> bool {
        offsets_valid(self.offsets@, self.bytes@.len())
    }

    /// The bytes of all elements.
    pub closed spec fn spec_bytes(self) -> Seq<u8> {
        self.bytes@
    }

    /// The element offsets.
    pub closed spec fn spec_offsets(self) -> Seq<usize> {
        self.offsets@
    }

    /// The data type.
    pub closed spec fn spec_data_type(self) -> DataType {
        self.data_type
    }

    /// The shape.
    pub closed spec fn spec_shape(self) -> Seq<u64> {
        self.shape@
    }

    /// Construct variable-length data from bytes and element offsets, which
    /// must be valid for the bytes (zarrs hands out only such offsets).
    pub fn new(bytes: Vec<u8>, offsets: Vec<usize>, data_type: DataType, shape: Vec<u64>) -> (res:
        Self)
        requires
            offsets_valid(offsets@, bytes@.len()),
        ensures
            res.spec_bytes() == bytes@,
            res.spec_offsets() == offsets@,
            res.spec_data_type() == data_type,
            res.spec_shape() == shape@,
    {
        VariableLengthTensor { bytes, offsets, data_type, shape }
    }

    /// The data type.
    pub fn data_type(&self) -> (res: &DataType)
        ensures
            *res == self.spec_data_type(),
    {
        &self.data_type
    }

    /// The shape.
    pub fn shape(&self) -> (res: &[u64])
        ensures
            res@ == self.spec_shape(),
    {
        self.shape.as_slice()
    }

    /// The bytes of all elements.
    pub fn bytes(&self) -> (res: &[u8])
        ensures
            res@ == self.spec_bytes(),
    {
        self.bytes.as_slice()
    }

    /// The element offsets.
    pub fn offsets(&self) -> (res: &[usize])
        ensures
            res@ == self.spec_offsets(),
    {
        self.offsets.as_slice()
    }

    /// The bytes of each element, in order.
    pub fn elements(&self) -> (res: Vec<Vec<u8>>)
        ensures
            res@.len() == spec_elements(self.spec_bytes(), self.spec_offsets()).len(),
            forall|i: int| 0 <= i < res@.len() ==> #[trigger] res@[i]@ == spec_elements(
                self.spec_bytes(),
                self.spec_offsets(),
            )[i],
    {
        proof {
            use_type_invariant(self);
        }
        split_elements(&self.bytes, &self.offsets)
    }

    /// Each element read as text; fails with the index of the first element
    /// that is not valid UTF-8.
    pub fn text_elements(&self) -> (res: Result<Vec<String>, usize>)
        ensures
            match res {
                Ok(v) => v@.len() == spec_elements(self.spec_bytes(), self.spec_offsets()).len()
                    && forall|i: int|
                    0 <= i < v@.len() ==> valid_utf8(
                        #[trigger] spec_elements(self.spec_bytes(), self.spec_offsets())[i],
                    ) && v@[i]@ == decode_utf8(
                        spec_elements(self.spec_bytes(), self.spec_offsets())[i],
                    ),
                Err(k) => k < spec_elements(self.spec_bytes(), self.spec_offsets()).len()
                    && !valid_utf8(spec_elements(self.spec_bytes(), self.spec_offsets())[k as int])
                    && forall|j: int|
                    0 <= j < k ==> valid_utf8(
                        #[trigger] spec_elements(self.spec_bytes(), self.spec_offsets())[j],
                    ),
            },
    {
        proof {
            use_type_invariant(self);
        }
        text_elements(&self.bytes, &self.offsets)
    }

    /// The element offsets as Arrow's 64-bit offsets; every offset is within
    /// the bytes, so a byte length that fits an `i64` makes them all fit.
    pub fn arrow_offsets(&self) -> (res: Vec<i64>)
        requires
            self.spec_bytes().len() <= i64::MAX,
        ensures
            res@.len() == self.spec_offsets().len(),
            forall|i: int| 0 <= i < res@.len() ==> #[trigger] res@[i] == self.spec_offsets()[i],
    {
        proof {
            use_type_invariant(self);
            assert forall|i: int| 0 <= i < self.offsets@.len() implies #[trigger] self.offsets@[i]
                <= i64::MAX by {
                crate::array_bytes::lemma_offset_at_most_last(self.offsets@, i);
            }
        }
        arrow_offsets(&self.offsets)
    }
}

/// Fixed-width data with a validity mask: a boolean tensor of the same shape
/// in which 0 marks a missing element.
pub struct OptionalFixedLengthTensor {
    pub data: FixedLengthTensor,
    pub mask: FixedLengthTensor,
}

impl OptionalFixedLengthTensor {
    /// Pair data with its validity mask.
    pub fn new(data: FixedLengthTensor, mask: FixedLengthTensor) -> (res: Self)
        ensures
            res.data == data,
            res.mask == mask,
    {
        OptionalFixedLengthTensor { data, mask }
    }
}

/// Variable-length data with a validity mask of one byte per element.
pub struct OptionalVariableLengthTensor {
    pub data: VariableLengthTensor,
    pub mask: Vec<u8>,
}

/// Decoded data in one of the four layouts of zarrs' `ArrayBytes`.
pub enum Tensor {
    Fixed(FixedLengthTensor),
    Variable(VariableLengthTensor),
    OptionalFixed(OptionalFixedLengthTensor),
    OptionalVariable(OptionalVariableLengthTensor),
}

/// Array bytes that zarrs can hand out: valid offsets, and no optional data
/// nested inside optional data.
pub open spec fn decodable(bytes: ArrayBytesOwned) -> bool {
    match bytes {
        ArrayBytesOwned::Fixed(_) => true,
        ArrayBytesOwned::Variable { bytes, offsets } => offsets_valid(offsets@, bytes@.len()),
        ArrayBytesOwned::Optional { data, .. } => match *data {
            ArrayBytesOwned::Fixed(_) => true,
            ArrayBytesOwned::Variable { bytes, offsets } => offsets_valid(offsets@, bytes@.len()),
            ArrayBytesOwned::Optional { .. } => false,
        },
    }
}

impl Tensor {
    /// Wrap decoded array bytes of a region with the given shape and data type
    /// in the tensor class of their layout. An optional fixed-length region
    /// gets its mask as a `bool` tensor of the same shape.
    pub fn from_array_bytes(bytes: ArrayBytesOwned, shape: Vec<u64>, data_type: DataType) -> (res:
        Result<Tensor, TensorError>)
        requires
            decodable(bytes),
        ensures
            match bytes {
                ArrayBytesOwned::Fixed(b) => match res {
                    Ok(Tensor::Fixed(t)) => FixedLengthTensor::expected_len(data_type, shape@)
                        == Some(b@.len()) && t.spec_bytes() == b@ && t.spec_shape() == shape@
                        && t.spec_data_type() == data_type,
                    Ok(_) => false,
                    Err(e) => FixedLengthTensor::refusal(e, data_type, shape@, b@.len()),
                },
                ArrayBytesOwned::Variable { bytes: b, offsets: o } => match res {
                    Ok(Tensor::Variable(t)) => t.spec_bytes() == b@ && t.spec_offsets() == o@
                        && t.spec_shape() == shape@ && t.spec_data_type() == data_type,
                    _ => false,
                },
                ArrayBytesOwned::Optional { data, mask } => match *data {
                    ArrayBytesOwned::Fixed(b) => match res {
                        Ok(Tensor::OptionalFixed(t)) => FixedLengthTensor::expected_len(
                            data_type,
                            shape@,
                        ) == Some(b@.len()) && FixedLengthTensor::expected_len(
                            DataType::Bool,
                            shape@,
                        ) == Some(mask@.len()) && t.data.spec_bytes() == b@
                            && t.data.spec_shape() == shape@ && t.data.spec_data_type()
                            == data_type && t.mask.spec_bytes() == mask@ && t.mask.spec_shape()
                            == shape@ && t.mask.spec_data_type() == DataType::Bool,
                        Ok(_) => false,
                        Err(e) => FixedLengthTensor::refusal(e, data_type, shape@, b@.len()) || (
                        FixedLengthTensor::expected_len(data_type, shape@) == Some(b@.len())
                            && FixedLengthTensor::refusal(e, DataType::Bool, shape@, mask@.len())),
                    },
                    ArrayBytesOwned::Variable { bytes: b, offsets: o } => match res {
                        Ok(Tensor::OptionalVariable(t)) => t.data.spec_bytes() == b@
                            && t.data.spec_offsets() == o@ && t.data.spec_shape() == shape@
                            && t.data.spec_data_type() == data_type && t.mask@ == mask@,
                        _ => false,
                    },
                    ArrayBytesOwned::Optional { .. } => false,
                },
            },
    {
        match bytes {
            ArrayBytesOwned::Fixed(b) => match FixedLengthTensor::new(b, data_type, shape) {
                Ok(t) => Ok(Tensor::Fixed(t)),
                Err(e) => Err(e),
            },
            ArrayBytesOwned::Variable { bytes: b, offsets } => Ok(
                Tensor::Variable(VariableLengthTensor::new(b, offsets, data_type, shape)),
            ),
            ArrayBytesOwned::Optional { data, mask } => match *data {
                ArrayBytesOwned::Fixed(b) => {
                    let mask_shape = shape.clone();
                    assert(mask_shape@ =~= shape@);
                    let data_tensor = match FixedLengthTensor::new(b, data_type, shape) {
                        Ok(t) => t,
                        Err(e) => {
                            return Err(e);
                        },
                    };
                    let mask_tensor = match FixedLengthTensor::new(mask, DataType::Bool, mask_shape) {
                        Ok(t) => t,
                        Err(e) => {
                            return Err(e);
                        },
                    };
                    Ok(Tensor::OptionalFixed(OptionalFixedLengthTensor::new(data_tensor, mask_tensor)))
                },
                ArrayBytesOwned::Variable { bytes: b, offsets } => Ok(
                    Tensor::OptionalVariable(
                        OptionalVariableLengthTensor {
                            data: VariableLengthTensor::new(b, offsets, data_type, shape),
                            mask,
                        },
                    ),
                ),
                ArrayBytesOwned::Optional { .. } => {
                    proof {
                        assert(false);
                    }
                    Err(TensorError::StrideOverflow)
                },
            },
        }
    }
}

} // verus!
