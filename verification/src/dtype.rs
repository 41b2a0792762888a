//! The Zarr data types as the binding sees them, and their names and codes in
//! NumPy, DLPack and the PEP 3118 buffer protocol.
use vstd::prelude::*;
use vstd::string::*;

use crate::text::push_char;

verus! {

/// A NumPy temporal unit, as Zarr stores it in the configuration of the
/// `numpy.datetime64` and `numpy.timedelta64` data types.
#[derive(Clone, Copy, Debug, PartialEq, Eq, Structural)]
pub enum TimeUnit {
    Generic,
    Year,
    Month,
    Week,
    Day,
    Hour,
    Minute,
    Second,
    Millisecond,
    Microsecond,
    Nanosecond,
    Picosecond,
    Femtosecond,
    Attosecond,
}

/// The two NumPy temporal families.
#[derive(Clone, Copy, Debug, PartialEq, Eq, Structural)]
pub enum TemporalKind {
    DateTime64,
    TimeDelta64,
}

/// A Zarr data type, holding as plain values what the binding reads of it.
///
/// Every type the binding treats specially has a variant of its own. Any other
/// type is `Other`, with its Zarr v3 name (if it has one), its element size in
/// bytes (`None` for a variable-size type) and its display string.
#[derive(Clone, Debug)]
pub enum DataType {
    Bool,
    Int8,
    Int16,
    Int32,
    Int64,
    UInt8,
    UInt16,
    UInt32,
    UInt64,
    Float16,
    BFloat16,
    Float32,
    Float64,
    /// Variable-length UTF-8 strings (`string`).
    StringUtf8,
    /// Variable-length byte strings (`bytes`).
    Bytes,
    /// `numpy.datetime64` with a unit and a non-zero scale factor.
    DateTime64 { unit: TimeUnit, scale_factor: u32 },
    /// `numpy.timedelta64` with a unit and a non-zero scale factor.
    TimeDelta64 { unit: TimeUnit, scale_factor: u32 },
    /// Any other data type.
    Other { name: Option<String>, size: Option<usize>, display: String },
}

/// Why a data type has no representation in another system.
#[derive(Clone, Debug)]
pub enum DataTypeError {
    /// The data type has no Zarr v3 name, so NumPy cannot name it; holds the
    /// data type as zarrs prints it.
    NoNumpyName(String),
    /// The data type has no PEP 3118 format code; holds it as zarrs prints it.
    NoBufferFormat(String),
    /// The data type has no DLPack counterpart.
    NoDLPackType,
    /// A DLPack type with more than one lane per element; holds the lanes.
    DLPackLanes(u16),
    /// A DLPack type code and bit width with no Zarr data type.
    DLPackUnknown { code: u8, bits: u8 },
}

impl DataTypeError {
    /// The user-facing message of this error.
    pub open spec fn spec_message(self) -> Seq<char> {
        match self {
            DataTypeError::NoNumpyName(d) => "data type "@ + d@
                + " has no zarr v3 name / numpy mapping"@,
            DataTypeError::NoBufferFormat(d) => "data type "@ + d@
                + " has no buffer-protocol format code"@,
            DataTypeError::NoDLPackType => "Unsupported data type in dlpack"@,
            DataTypeError::DLPackLanes(lanes) => "the data has "@ + decimal(lanes as nat)
                + " lanes per element, but only scalar elements are supported"@,
            DataTypeError::DLPackUnknown { code, bits } => "the data has DLPack type code "@
                + decimal(code as nat) + " at "@ + decimal(bits as nat)
                + " bits, which has no Zarr data type"@,
        }
    }

    /// The user-facing message of this error.
    pub fn message(&self) -> (res: String)
        ensures
            res@ == self.spec_message(),
    {
        match self {
            DataTypeError::NoNumpyName(d) => {
                let mut s = String::from_str("data type ");
                s.append(d.as_str());
                s.append(" has no zarr v3 name / numpy mapping");
                s
            },
            DataTypeError::NoBufferFormat(d) => {
                let mut s = String::from_str("data type ");
                s.append(d.as_str());
                s.append(" has no buffer-protocol format code");
                s
            },
            DataTypeError::NoDLPackType => String::from_str("Unsupported data type in dlpack"),
            DataTypeError::DLPackLanes(lanes) => {
                let mut s = String::from_str("the data has ");
                push_decimal(&mut s, *lanes as u64);
                s.append(" lanes per element, but only scalar elements are supported");
                s
            },
            DataTypeError::DLPackUnknown { code, bits } => {
                let mut s = String::from_str("the data has DLPack type code ");
                push_decimal(&mut s, *code as u64);
                s.append(" at ");
                push_decimal(&mut s, *bits as u64);
                s.append(" bits, which has no Zarr data type");
                s
            },
        }
    }
}

/// Structural equality of two data types, comparing strings by their characters.
pub open spec fn same_data_type(a: DataType, b: DataType) -> bool {
    match (a, b) {
        (DataType::Bool, DataType::Bool) => true,
        (DataType::Int8, DataType::Int8) => true,
        (DataType::Int16, DataType::Int16) => true,
        (DataType::Int32, DataType::Int32) => true,
        (DataType::Int64, DataType::Int64) => true,
        (DataType::UInt8, DataType::UInt8) => true,
        (DataType::UInt16, DataType::UInt16) => true,
        (DataType::UInt32, DataType::UInt32) => true,
        (DataType::UInt64, DataType::UInt64) => true,
        (DataType::Float16, DataType::Float16) => true,
        (DataType::BFloat16, DataType::BFloat16) => true,
        (DataType::Float32, DataType::Float32) => true,
        (DataType::Float64, DataType::Float64) => true,
        (DataType::StringUtf8, DataType::StringUtf8) => true,
        (DataType::Bytes, DataType::Bytes) => true,
        (
            DataType::DateTime64 { unit: u1, scale_factor: s1 },
            DataType::DateTime64 { unit: u2, scale_factor: s2 },
        ) => u1 == u2 && s1 == s2,
        (
            DataType::TimeDelta64 { unit: u1, scale_factor: s1 },
            DataType::TimeDelta64 { unit: u2, scale_factor: s2 },
        ) => u1 == u2 && s1 == s2,
        (
            DataType::Other { name: n1, size: z1, display: d1 },
            DataType::Other { name: n2, size: z2, display: d2 },
        ) => opt_string_view(n1) == opt_string_view(n2) && z1 == z2 && d1@ == d2@,
        _ => false,
    }
}

/// The characters of an optional string.
pub open spec fn opt_string_view(s: Option<String>) -> Option<Seq<char>> {
    match s {
        Some(s) => Some(s@),
        None => None,
    }
}

impl DataType {
    /// The Zarr v3 name of the data type, if it has one.
    pub open spec fn spec_name_v3(self) -> Option<Seq<char>> {
        match self {
            DataType::Bool => Some("bool"@),
            DataType::Int8 => Some("int8"@),
            DataType::Int16 => Some("int16"@),
            DataType::Int32 => Some("int32"@),
            DataType::Int64 => Some("int64"@),
            DataType::UInt8 => Some("uint8"@),
            DataType::UInt16 => Some("uint16"@),
            DataType::UInt32 => Some("uint32"@),
            DataType::UInt64 => Some("uint64"@),
            DataType::Float16 => Some("float16"@),
            DataType::BFloat16 => Some("bfloat16"@),
            DataType::Float32 => Some("float32"@),
            DataType::Float64 => Some("float64"@),
            DataType::StringUtf8 => Some("string"@),
            DataType::Bytes => Some("bytes"@),
            DataType::DateTime64 { .. } => Some("numpy.datetime64"@),
            DataType::TimeDelta64 { .. } => Some("numpy.timedelta64"@),
            DataType::Other { name, .. } => opt_string_view(name),
        }
    }

    /// The element size in bytes, or `None` for a variable-size data type.
    pub open spec fn spec_fixed_size(self) -> Option<usize> {
        match self {
            DataType::Bool | DataType::Int8 | DataType::UInt8 => Some(1),
            DataType::Int16 | DataType::UInt16 | DataType::Float16 | DataType::BFloat16 => Some(2),
            DataType::Int32 | DataType::UInt32 | DataType::Float32 => Some(4),
            DataType::Int64 | DataType::UInt64 | DataType::Float64 => Some(8),
            DataType::DateTime64 { .. } | DataType::TimeDelta64 { .. } => Some(8),
            DataType::StringUtf8 | DataType::Bytes => None,
            DataType::Other { size, .. } => size,
        }
    }

    /// The name a user can paste into `astype`: the Zarr v3 name, or the
    /// display string for a data type that has none.
    pub open spec fn spec_display(self) -> Seq<char> {
        match self.spec_name_v3() {
            Some(name) => name,
            None => match self {
                DataType::Other { display, .. } => display@,
                _ => Seq::empty(),
            },
        }
    }

    /// The default Zarr v2 name of a data type that the model knows by
    /// variant, if it has one (not read for `Other`).
    pub open spec fn spec_name_v2(self) -> Option<Seq<char>> {
        match self {
            DataType::Bool => Some("|b1"@),
            DataType::Int8 => Some("|i1"@),
            DataType::Int16 => Some("<i2"@),
            DataType::Int32 => Some("<i4"@),
            DataType::Int64 => Some("<i8"@),
            DataType::UInt8 => Some("|u1"@),
            DataType::UInt16 => Some("<u2"@),
            DataType::UInt32 => Some("<u4"@),
            DataType::UInt64 => Some("<u8"@),
            DataType::Float16 => Some("<f2"@),
            DataType::Float32 => Some("<f4"@),
            DataType::Float64 => Some("<f8"@),
            DataType::StringUtf8 => Some("|O"@),
            DataType::Bytes => Some("|VX"@),
            _ => None,
        }
    }

    /// How zarrs prints the data type: `v3 / v2` when it has both names and
    /// they differ, else its one name. For `Other` it is the display string
    /// the data type was read with.
    pub open spec fn spec_zarrs_display(self) -> Seq<char> {
        match self {
            DataType::Other { display, .. } => display@,
            _ => match (self.spec_name_v3(), self.spec_name_v2()) {
                (Some(v3), Some(v2)) => v3 + " / "@ + v2,
                (Some(v3), None) => v3,
                _ => Seq::empty(),
            },
        }
    }

    /// The Zarr v3 name of the data type, if it has one.
    pub fn name_v3(&self) -> (res: Option<String>)
        ensures
            opt_string_view(res) == self.spec_name_v3(),
    {
        match self {
            DataType::Bool => Some(String::from_str("bool")),
            DataType::Int8 => Some(String::from_str("int8")),
            DataType::Int16 => Some(String::from_str("int16")),
            DataType::Int32 => Some(String::from_str("int32")),
            DataType::Int64 => Some(String::from_str("int64")),
            DataType::UInt8 => Some(String::from_str("uint8")),
            DataType::UInt16 => Some(String::from_str("uint16")),
            DataType::UInt32 => Some(String::from_str("uint32")),
            DataType::UInt64 => Some(String::from_str("uint64")),
            DataType::Float16 => Some(String::from_str("float16")),
            DataType::BFloat16 => Some(String::from_str("bfloat16")),
            DataType::Float32 => Some(String::from_str("float32")),
            DataType::Float64 => Some(String::from_str("float64")),
            DataType::StringUtf8 => Some(String::from_str("string")),
            DataType::Bytes => Some(String::from_str("bytes")),
            DataType::DateTime64 { .. } => Some(String::from_str("numpy.datetime64")),
            DataType::TimeDelta64 { .. } => Some(String::from_str("numpy.timedelta64")),
            DataType::Other { name, .. } => match name {
                Some(n) => Some(n.clone()),
                None => None,
            },
        }
    }

    /// The element size in bytes, or `None` for a variable-size data type.
    pub fn fixed_size(&self) -> (res: Option<usize>)
        ensures
            res == self.spec_fixed_size(),
    {
        match self {
            DataType::Bool | DataType::Int8 | DataType::UInt8 => Some(1),
            DataType::Int16 | DataType::UInt16 | DataType::Float16 | DataType::BFloat16 => Some(2),
            DataType::Int32 | DataType::UInt32 | DataType::Float32 => Some(4),
            DataType::Int64 | DataType::UInt64 | DataType::Float64 => Some(8),
            DataType::DateTime64 { .. } | DataType::TimeDelta64 { .. } => Some(8),
            DataType::StringUtf8 | DataType::Bytes => None,
            DataType::Other { size, .. } => *size,
        }
    }

    /// Whether the two data types are the same.
    pub fn same_as(&self, other: &DataType) -> (res: bool)
        ensures
            res == same_data_type(*self, *other),
    {
        match (self, other) {
            (DataType::Bool, DataType::Bool) => true,
            (DataType::Int8, DataType::Int8) => true,
            (DataType::Int16, DataType::Int16) => true,
            (DataType::Int32, DataType::Int32) => true,
            (DataType::Int64, DataType::Int64) => true,
            (DataType::UInt8, DataType::UInt8) => true,
            (DataType::UInt16, DataType::UInt16) => true,
            (DataType::UInt32, DataType::UInt32) => true,
            (DataType::UInt64, DataType::UInt64) => true,
            (DataType::Float16, DataType::Float16) => true,
            (DataType::BFloat16, DataType::BFloat16) => true,
            (DataType::Float32, DataType::Float32) => true,
            (DataType::Float64, DataType::Float64) => true,
            (DataType::StringUtf8, DataType::StringUtf8) => true,
            (DataType::Bytes, DataType::Bytes) => true,
            (
                DataType::DateTime64 { unit: u1, scale_factor: s1 },
                DataType::DateTime64 { unit: u2, scale_factor: s2 },
            ) => *u1 == *u2 && *s1 == *s2,
            (
                DataType::TimeDelta64 { unit: u1, scale_factor: s1 },
                DataType::TimeDelta64 { unit: u2, scale_factor: s2 },
            ) => *u1 == *u2 && *s1 == *s2,
            (
                DataType::Other { name: n1, size: z1, display: d1 },
                DataType::Other { name: n2, size: z2, display: d2 },
            ) => {
                let names = match (n1, n2) {
                    (Some(a), Some(b)) => *a == *b,
                    (None, None) => true,
                    _ => false,
                };
                names && *z1 == *z2 && *d1 == *d2
            },
            _ => false,
        }
    }
}

/// The name of `data_type` for a user-facing message: its Zarr v3 name, or its
/// display string for a data type with no Zarr v3 name.
pub fn data_type_display(data_type: &DataType) -> (res: String)
    ensures
        res@ == data_type.spec_display(),
{
    match data_type.name_v3() {
        Some(name) => name,
        None => match data_type {
            DataType::Other { display, .. } => display.clone(),
            _ => String::new(),
        },
    }
}

/// The data type as zarrs prints it, for messages that name it that way.
pub fn zarrs_display(data_type: &DataType) -> (res: String)
    ensures
        res@ == data_type.spec_zarrs_display(),
{
    let v2 = match data_type {
        DataType::Bool => "|b1",
        DataType::Int8 => "|i1",
        DataType::Int16 => "<i2",
        DataType::Int32 => "<i4",
        DataType::Int64 => "<i8",
        DataType::UInt8 => "|u1",
        DataType::UInt16 => "<u2",
        DataType::UInt32 => "<u4",
        DataType::UInt64 => "<u8",
        DataType::Float16 => "<f2",
        DataType::Float32 => "<f4",
        DataType::Float64 => "<f8",
        DataType::StringUtf8 => "|O",
        DataType::Bytes => "|VX",
        DataType::Other { display, .. } => {
            return display.clone();
        },
        _ => {
            let name = data_type.name_v3();
            return match name {
                Some(n) => n,
                None => String::new(),
            };
        },
    };
    let mut s = match data_type.name_v3() {
        Some(n) => n,
        None => String::new(),
    };
    s.append(" / ");
    s.append(v2);
    s
}

// ---------------------------------------------------------------------------
// NumPy names
// ---------------------------------------------------------------------------

/// The NumPy code of a temporal unit, or `None` for the generic unit.
pub open spec fn spec_time_unit_code(unit: TimeUnit) -> Option<Seq<char>> {
    match unit {
        TimeUnit::Generic => None,
        TimeUnit::Year => Some("Y"@),
        TimeUnit::Month => Some("M"@),
        TimeUnit::Week => Some("W"@),
        TimeUnit::Day => Some("D"@),
        TimeUnit::Hour => Some("h"@),
        TimeUnit::Minute => Some("m"@),
        TimeUnit::Second => Some("s"@),
        TimeUnit::Millisecond => Some("ms"@),
        TimeUnit::Microsecond => Some("us"@),
        TimeUnit::Nanosecond => Some("ns"@),
        TimeUnit::Picosecond => Some("ps"@),
        TimeUnit::Femtosecond => Some("fs"@),
        TimeUnit::Attosecond => Some("as"@),
    }
}

/// The NumPy code for a temporal unit, or `None` for the generic unit.
pub fn numpy_time_unit_code(unit: TimeUnit) -> (res: Option<&'static str>)
    ensures
        match res {
            Some(s) => spec_time_unit_code(unit) == Some(s@),
            None => spec_time_unit_code(unit) is None,
        },
{
    match unit {
        TimeUnit::Generic => None,
        TimeUnit::Year => Some("Y"),
        TimeUnit::Month => Some("M"),
        TimeUnit::Week => Some("W"),
        TimeUnit::Day => Some("D"),
        TimeUnit::Hour => Some("h"),
        TimeUnit::Minute => Some("m"),
        TimeUnit::Second => Some("s"),
        TimeUnit::Millisecond => Some("ms"),
        TimeUnit::Microsecond => Some("us"),
        TimeUnit::Nanosecond => Some("ns"),
        TimeUnit::Picosecond => Some("ps"),
        TimeUnit::Femtosecond => Some("fs"),
        TimeUnit::Attosecond => Some("as"),
    }
}

/// The decimal digit character for `d < 10`.
pub open spec fn digit_char(d: nat) -> char {
    if d == 0 { '0' } else if d == 1 { '1' } else if d == 2 { '2' } else if d == 3 { '3' }
    else if d == 4 { '4' } else if d == 5 { '5' } else if d == 6 { '6' } else if d == 7 { '7' }
    else if d == 8 { '8' } else { '9' }
}

/// The decimal representation of `n`, without sign or leading zeros.
pub open spec fn decimal(n: nat) -> Seq<char>
    decreases n,
{
    if n < 10 {
        seq![digit_char(n)]
    } else {
        decimal(n / 10).push(digit_char(n % 10))
    }
}

fn digit(d: u64) -> (c: char)
    requires
        d < 10,
    ensures
        c == digit_char(d as nat),
{
    if d == 0 { '0' } else if d == 1 { '1' } else if d == 2 { '2' } else if d == 3 { '3' }
    else if d == 4 { '4' } else if d == 5 { '5' } else if d == 6 { '6' } else if d == 7 { '7' }
    else if d == 8 { '8' } else { '9' }
}

/// Appends the decimal representation of `n` to `s`.
pub fn push_decimal(s: &mut String, n: u64)
    ensures
        final(s)@ == old(s)@ + decimal(n as nat),
    decreases n,
{
    if n < 10 {
        push_char(s, digit(n));
        assert(old(s)@.push(digit_char(n as nat)) =~= old(s)@ + seq![digit_char(n as nat)]);
    } else {
        push_decimal(s, n / 10);
        push_char(s, digit(n % 10));
        assert(old(s)@ + decimal((n / 10) as nat) + seq![digit_char((n % 10) as nat)]
            =~= old(s)@ + decimal((n / 10) as nat).push(digit_char((n % 10) as nat)));
    }
}

/// The NumPy name of a temporal family.
pub open spec fn spec_temporal_kind_name(kind: TemporalKind) -> Seq<char> {
    match kind {
        TemporalKind::DateTime64 => "datetime64"@,
        TemporalKind::TimeDelta64 => "timedelta64"@,
    }
}

/// A NumPy temporal data type name, such as `datetime64[10s]`: the scale factor
/// is always written, and the generic unit gives the bare name.
pub open spec fn spec_numpy_temporal_name(kind: TemporalKind, unit: TimeUnit, scale_factor: nat) -> Seq<char> {
    match spec_time_unit_code(unit) {
        None => spec_temporal_kind_name(kind),
        Some(code) => spec_temporal_kind_name(kind) + seq!['['] + decimal(scale_factor) + code + seq![']'],
    }
}

/// A NumPy temporal data type name, such as `datetime64[10s]`.
///
/// NumPy reads a scale factor of 1 as no scale factor, so `datetime64[1s]` and
/// `datetime64[s]` give the same data type. Therefore this always writes the
/// scale factor.
pub fn numpy_temporal_name(kind: TemporalKind, unit: TimeUnit, scale_factor: u32) -> (res: String)
    ensures
        res@ == spec_numpy_temporal_name(kind, unit, scale_factor as nat),
{
    let mut name = match kind {
        TemporalKind::DateTime64 => String::from_str("datetime64"),
        TemporalKind::TimeDelta64 => String::from_str("timedelta64"),
    };
    match numpy_time_unit_code(unit) {
        None => name,
        Some(code) => {
            push_char(&mut name, '[');
            push_decimal(&mut name, scale_factor as u64);
            name.append(code);
            push_char(&mut name, ']');
            name
        },
    }
}

/// The NumPy data type name for a Zarr data type.
pub open spec fn spec_numpy_dtype_name(data_type: DataType) -> Option<Seq<char>> {
    match data_type {
        DataType::DateTime64 { unit, scale_factor } => Some(
            spec_numpy_temporal_name(TemporalKind::DateTime64, unit, scale_factor as nat),
        ),
        DataType::TimeDelta64 { unit, scale_factor } => Some(
            spec_numpy_temporal_name(TemporalKind::TimeDelta64, unit, scale_factor as nat),
        ),
        _ => match data_type.spec_name_v3() {
            None => None,
            Some(name) => if name == "complex_float32"@ {
                Some("complex64"@)
            } else if name == "complex_float64"@ {
                Some("complex128"@)
            } else {
                Some(name)
            },
        },
    }
}

/// The NumPy data type name for a Zarr data type.
///
/// Temporal types carry their unit and scale factor in the name
/// (`datetime64[10s]`), and the component-named complex types take NumPy's
/// names, which count the bits of the whole value (`complex_float32` is
/// `complex64`). A data type without a Zarr v3 name has no NumPy name.
pub fn numpy_dtype_name(data_type: &DataType) -> (res: Result<String, DataTypeError>)
    ensures
        match res {
            Ok(name) => spec_numpy_dtype_name(*data_type) == Some(name@),
            Err(e) => spec_numpy_dtype_name(*data_type) is None
                && (e matches DataTypeError::NoNumpyName(d) && d@ == data_type.spec_zarrs_display()),
        },
{
    match data_type {
        DataType::DateTime64 { unit, scale_factor } => {
            return Ok(numpy_temporal_name(TemporalKind::DateTime64, *unit, *scale_factor));
        },
        DataType::TimeDelta64 { unit, scale_factor } => {
            return Ok(numpy_temporal_name(TemporalKind::TimeDelta64, *unit, *scale_factor));
        },
        _ => {},
    }
    match data_type.name_v3() {
        None => Err(DataTypeError::NoNumpyName(zarrs_display(data_type))),
        Some(name) => {
            let f32name = String::from_str("complex_float32");
            let f64name = String::from_str("complex_float64");
            if name == f32name {
                Ok(String::from_str("complex64"))
            } else if name == f64name {
                Ok(String::from_str("complex128"))
            } else {
                Ok(name)
            }
        },
    }
}

// ---------------------------------------------------------------------------
// The PEP 3118 buffer protocol
// ---------------------------------------------------------------------------

/// The native-endian PEP 3118 struct format code of a data type and its
/// element size in bytes, for the types that have a standard code.
pub open spec fn spec_buffer_format(data_type: DataType) -> Option<(char, usize)> {
    match data_type {
        DataType::Bool => Some(('?', 1)),
        DataType::Int8 => Some(('b', 1)),
        DataType::Int16 => Some(('h', 2)),
        DataType::Int32 => Some(('i', 4)),
        DataType::Int64 => Some(('q', 8)),
        DataType::UInt8 => Some(('B', 1)),
        DataType::UInt16 => Some(('H', 2)),
        DataType::UInt32 => Some(('I', 4)),
        DataType::UInt64 => Some(('Q', 8)),
        DataType::Float16 => Some(('e', 2)),
        DataType::Float32 => Some(('f', 4)),
        DataType::Float64 => Some(('d', 8)),
        _ => None,
    }
}

/// Map a data type to its PEP 3118 format code and element size in bytes.
pub fn buffer_protocol_format(data_type: &DataType) -> (res: Result<(char, usize), DataTypeError>)
    ensures
        match res {
            Ok(f) => spec_buffer_format(*data_type) == Some(f),
            Err(e) => spec_buffer_format(*data_type) is None
                && (e matches DataTypeError::NoBufferFormat(d) && d@ == data_type.spec_zarrs_display()),
        },
{
    match data_type {
        DataType::Bool => Ok(('?', 1)),
        DataType::Int8 => Ok(('b', 1)),
        DataType::Int16 => Ok(('h', 2)),
        DataType::Int32 => Ok(('i', 4)),
        DataType::Int64 => Ok(('q', 8)),
        DataType::UInt8 => Ok(('B', 1)),
        DataType::UInt16 => Ok(('H', 2)),
        DataType::UInt32 => Ok(('I', 4)),
        DataType::UInt64 => Ok(('Q', 8)),
        DataType::Float16 => Ok(('e', 2)),
        DataType::Float32 => Ok(('f', 4)),
        DataType::Float64 => Ok(('d', 8)),
        _ => Err(DataTypeError::NoBufferFormat(zarrs_display(data_type))),
    }
}

/// The element size of a buffer-protocol format agrees with the data type's size.
pub proof fn lemma_buffer_format_size(data_type: DataType)
    requires
        spec_buffer_format(data_type) is Some,
    ensures
        data_type.spec_fixed_size() == Some(spec_buffer_format(data_type).unwrap().1),
{
}

// ---------------------------------------------------------------------------
// DLPack
// ---------------------------------------------------------------------------

/// The DLPack type code of signed integers.
pub const DLPACK_INT: u8 = 0;
/// The DLPack type code of unsigned integers.
pub const DLPACK_UINT: u8 = 1;
/// The DLPack type code of IEEE floats.
pub const DLPACK_FLOAT: u8 = 2;
/// The DLPack type code of bfloat16.
pub const DLPACK_BFLOAT: u8 = 4;
/// The DLPack type code of booleans.
pub const DLPACK_BOOL: u8 = 6;

/// A DLPack data type: a type code, a bit width and a lane count.
#[derive(Clone, Copy, Debug, PartialEq, Eq, Structural)]
pub struct DLPackType {
    pub code: u8,
    pub bits: u8,
    pub lanes: u16,
}

/// The DLPack code and bit width of a Zarr data type, for the scalar types
/// that DLPack can describe.
pub open spec fn spec_dlpack_of(data_type: DataType) -> Option<(u8, u8)> {
    match data_type {
        DataType::Bool => Some((DLPACK_BOOL, 8u8)),
        DataType::Int8 => Some((DLPACK_INT, 8u8)),
        DataType::Int16 => Some((DLPACK_INT, 16u8)),
        DataType::Int32 => Some((DLPACK_INT, 32u8)),
        DataType::Int64 => Some((DLPACK_INT, 64u8)),
        DataType::UInt8 => Some((DLPACK_UINT, 8u8)),
        DataType::UInt16 => Some((DLPACK_UINT, 16u8)),
        DataType::UInt32 => Some((DLPACK_UINT, 32u8)),
        DataType::UInt64 => Some((DLPACK_UINT, 64u8)),
        DataType::Float16 => Some((DLPACK_FLOAT, 16u8)),
        DataType::Float32 => Some((DLPACK_FLOAT, 32u8)),
        DataType::Float64 => Some((DLPACK_FLOAT, 64u8)),
        DataType::BFloat16 => Some((DLPACK_BFLOAT, 16u8)),
        _ => None,
    }
}

/// The Zarr data type of a scalar DLPack code and bit width.
pub open spec fn spec_zarr_of_dlpack(code: u8, bits: u8) -> Option<DataType> {
    if code == DLPACK_BOOL && bits == 8 { Some(DataType::Bool) }
    else if code == DLPACK_INT && bits == 8 { Some(DataType::Int8) }
    else if code == DLPACK_INT && bits == 16 { Some(DataType::Int16) }
    else if code == DLPACK_INT && bits == 32 { Some(DataType::Int32) }
    else if code == DLPACK_INT && bits == 64 { Some(DataType::Int64) }
    else if code == DLPACK_UINT && bits == 8 { Some(DataType::UInt8) }
    else if code == DLPACK_UINT && bits == 16 { Some(DataType::UInt16) }
    else if code == DLPACK_UINT && bits == 32 { Some(DataType::UInt32) }
    else if code == DLPACK_UINT && bits == 64 { Some(DataType::UInt64) }
    else if code == DLPACK_FLOAT && bits == 16 { Some(DataType::Float16) }
    else if code == DLPACK_FLOAT && bits == 32 { Some(DataType::Float32) }
    else if code == DLPACK_FLOAT && bits == 64 { Some(DataType::Float64) }
    else if code == DLPACK_BFLOAT && bits == 16 { Some(DataType::BFloat16) }
    else { None }
}

/// Convert a Zarr data type to a scalar DLPack data type.
pub fn dlpack_from_zarr(data_type: &DataType) -> (res: Result<DLPackType, DataTypeError>)
    ensures
        match res {
            Ok(t) => spec_dlpack_of(*data_type) == Some((t.code, t.bits)) && t.lanes == 1,
            Err(e) => spec_dlpack_of(*data_type) is None && e is NoDLPackType,
        },
{
    let (code, bits): (u8, u8) = match data_type {
        DataType::Bool => (DLPACK_BOOL, 8),
        DataType::Int8 => (DLPACK_INT, 8),
        DataType::Int16 => (DLPACK_INT, 16),
        DataType::Int32 => (DLPACK_INT, 32),
        DataType::Int64 => (DLPACK_INT, 64),
        DataType::UInt8 => (DLPACK_UINT, 8),
        DataType::UInt16 => (DLPACK_UINT, 16),
        DataType::UInt32 => (DLPACK_UINT, 32),
        DataType::UInt64 => (DLPACK_UINT, 64),
        DataType::Float16 => (DLPACK_FLOAT, 16),
        DataType::Float32 => (DLPACK_FLOAT, 32),
        DataType::Float64 => (DLPACK_FLOAT, 64),
        DataType::BFloat16 => (DLPACK_BFLOAT, 16),
        _ => {
            return Err(DataTypeError::NoDLPackType);
        },
    };
    Ok(DLPackType { code, bits, lanes: 1 })
}

/// Convert a DLPack data type to a Zarr data type. Only scalar elements (one
/// lane) of the listed codes and widths have one.
pub fn zarr_from_dlpack(t: DLPackType) -> (res: Result<DataType, DataTypeError>)
    ensures
        t.lanes != 1 ==> (res matches Err(DataTypeError::DLPackLanes(l)) && l == t.lanes),
        t.lanes == 1 ==> match res {
            Ok(dt) => spec_zarr_of_dlpack(t.code, t.bits) == Some(dt),
            Err(e) => spec_zarr_of_dlpack(t.code, t.bits) is None
                && e == (DataTypeError::DLPackUnknown { code: t.code, bits: t.bits }),
        },
{
    if t.lanes != 1 {
        return Err(DataTypeError::DLPackLanes(t.lanes));
    }
    let code = t.code;
    let bits = t.bits;
    if code == DLPACK_BOOL && bits == 8 { Ok(DataType::Bool) }
    else if code == DLPACK_INT && bits == 8 { Ok(DataType::Int8) }
    else if code == DLPACK_INT && bits == 16 { Ok(DataType::Int16) }
    else if code == DLPACK_INT && bits == 32 { Ok(DataType::Int32) }
    else if code == DLPACK_INT && bits == 64 { Ok(DataType::Int64) }
    else if code == DLPACK_UINT && bits == 8 { Ok(DataType::UInt8) }
    else if code == DLPACK_UINT && bits == 16 { Ok(DataType::UInt16) }
    else if code == DLPACK_UINT && bits == 32 { Ok(DataType::UInt32) }
    else if code == DLPACK_UINT && bits == 64 { Ok(DataType::UInt64) }
    else if code == DLPACK_FLOAT && bits == 16 { Ok(DataType::Float16) }
    else if code == DLPACK_FLOAT && bits == 32 { Ok(DataType::Float32) }
    else if code == DLPACK_FLOAT && bits == 64 { Ok(DataType::Float64) }
    else if code == DLPACK_BFLOAT && bits == 16 { Ok(DataType::BFloat16) }
    else { Err(DataTypeError::DLPackUnknown { code, bits }) }
}

/// A data type that DLPack can describe comes back unchanged from DLPack.
pub proof fn lemma_dlpack_round_trip_from_zarr(data_type: DataType)
    requires
        spec_dlpack_of(data_type) is Some,
    ensures
        spec_zarr_of_dlpack(spec_dlpack_of(data_type).unwrap().0, spec_dlpack_of(data_type).unwrap().1)
            == Some(data_type),
{
}

/// A DLPack type that has a Zarr data type comes back unchanged from Zarr.
pub proof fn lemma_dlpack_round_trip_from_dlpack(code: u8, bits: u8)
    requires
        spec_zarr_of_dlpack(code, bits) is Some,
    ensures
        spec_dlpack_of(spec_zarr_of_dlpack(code, bits).unwrap()) == Some((code, bits)),
{
}

/// The DLPack bit width of a data type is eight times its element size.
pub proof fn lemma_dlpack_bits_match_size(data_type: DataType)
    requires
        spec_dlpack_of(data_type) is Some,
    ensures
        data_type.spec_fixed_size() is Some,
        spec_dlpack_of(data_type).unwrap().1 == 8 * data_type.spec_fixed_size().unwrap(),
{
}

// ---------------------------------------------------------------------------
// What a numeric data type holds, and the laws that tie its names and codes
// in NumPy, PEP 3118 and DLPack to it
// ---------------------------------------------------------------------------

/// The kind of number an element holds.
#[derive(Clone, Copy, Debug, PartialEq, Eq, Structural)]
pub enum NumberKind {
    /// A boolean, stored in one byte.
    Boolean,
    /// A two's complement signed integer.
    SignedInt,
    /// An unsigned integer.
    UnsignedInt,
    /// An IEEE 754 binary floating-point number.
    IeeeFloat,
    /// A brain floating-point number (bfloat16).
    BrainFloat,
}

/// What the elements of a scalar numeric data type are: their kind of number
/// and their width in bits. `None` for every other data type.
pub open spec fn spec_number_format(data_type: DataType) -> Option<(NumberKind, nat)> {
    match data_type {
        DataType::Bool => Some((NumberKind::Boolean, 8)),
        DataType::Int8 => Some((NumberKind::SignedInt, 8)),
        DataType::Int16 => Some((NumberKind::SignedInt, 16)),
        DataType::Int32 => Some((NumberKind::SignedInt, 32)),
        DataType::Int64 => Some((NumberKind::SignedInt, 64)),
        DataType::UInt8 => Some((NumberKind::UnsignedInt, 8)),
        DataType::UInt16 => Some((NumberKind::UnsignedInt, 16)),
        DataType::UInt32 => Some((NumberKind::UnsignedInt, 32)),
        DataType::UInt64 => Some((NumberKind::UnsignedInt, 64)),
        DataType::Float16 => Some((NumberKind::IeeeFloat, 16)),
        DataType::BFloat16 => Some((NumberKind::BrainFloat, 16)),
        DataType::Float32 => Some((NumberKind::IeeeFloat, 32)),
        DataType::Float64 => Some((NumberKind::IeeeFloat, 64)),
        _ => None,
    }
}

/// The format character of Python's `struct` module (PEP 3118) for a kind of
/// number of the given width in bytes: `?` for a bool; `b h i q` for signed
/// and `B H I Q` for unsigned integers of 1, 2, 4 and 8 bytes; `e f d` for
/// IEEE floats of 2, 4 and 8 bytes. bfloat16 has none.
pub open spec fn struct_format_char(kind: NumberKind, bytes: nat) -> Option<char> {
    match kind {
        NumberKind::Boolean => if bytes == 1 { Some('?') } else { None },
        NumberKind::SignedInt => if bytes == 1 { Some('b') } else if bytes == 2 { Some('h') }
        else if bytes == 4 { Some('i') } else if bytes == 8 { Some('q') } else { None },
        NumberKind::UnsignedInt => if bytes == 1 { Some('B') } else if bytes == 2 { Some('H') }
        else if bytes == 4 { Some('I') } else if bytes == 8 { Some('Q') } else { None },
        NumberKind::IeeeFloat => if bytes == 2 { Some('e') } else if bytes == 4 { Some('f') }
        else if bytes == 8 { Some('d') } else { None },
        NumberKind::BrainFloat => None,
    }
}

/// The buffer format of a data type is the `struct` code of what its elements
/// are, with the element size in bytes; a data type without such a code has
/// no buffer format.
pub proof fn lemma_buffer_format_follows_number_format(data_type: DataType)
    ensures
        spec_buffer_format(data_type) == match spec_number_format(data_type) {
            Some((kind, bits)) => match struct_format_char(kind, bits / 8) {
                Some(c) => Some((c, (bits / 8) as usize)),
                None => None,
            },
            None => None,
        },
{
}

/// Signedness shows in the case of an integer's buffer format code: an
/// unsigned integer gets an uppercase letter, a signed one a lowercase
/// letter, and a signed and an unsigned integer of the same width get the
/// same letter in the two cases.
pub proof fn lemma_buffer_format_signedness(signed: DataType, unsigned: DataType)
    requires
        spec_number_format(signed) matches Some((NumberKind::SignedInt, _)),
        spec_number_format(unsigned) matches Some((NumberKind::UnsignedInt, _)),
    ensures
        spec_buffer_format(signed) matches Some((c, _)) && 'a' <= c <= 'z',
        spec_buffer_format(unsigned) matches Some((c, _)) && 'A' <= c <= 'Z',
        spec_number_format(signed).unwrap().1 == spec_number_format(unsigned).unwrap().1 ==> (
        spec_buffer_format(unsigned).unwrap().0 as u32 + 32 == spec_buffer_format(
            signed,
        ).unwrap().0 as u32),
{
}

/// The type code of DLPack's `DLDataTypeCode` for a kind of number:
/// `kDLInt` = 0, `kDLUInt` = 1, `kDLFloat` = 2, `kDLBfloat` = 4, `kDLBool` = 6.
pub open spec fn dlpack_kind_code(kind: NumberKind) -> u8 {
    match kind {
        NumberKind::SignedInt => 0,
        NumberKind::UnsignedInt => 1,
        NumberKind::IeeeFloat => 2,
        NumberKind::BrainFloat => 4,
        NumberKind::Boolean => 6,
    }
}

/// The DLPack code constants are DLPack's own numbers.
pub proof fn lemma_dlpack_codes_are_dlpacks()
    ensures
        DLPACK_INT == dlpack_kind_code(NumberKind::SignedInt),
        DLPACK_UINT == dlpack_kind_code(NumberKind::UnsignedInt),
        DLPACK_FLOAT == dlpack_kind_code(NumberKind::IeeeFloat),
        DLPACK_BFLOAT == dlpack_kind_code(NumberKind::BrainFloat),
        DLPACK_BOOL == dlpack_kind_code(NumberKind::Boolean),
{
}

/// A data type's DLPack type is the DLPack code of the kind of number its
/// elements are, at their width in bits; a data type that is not a scalar
/// number has none.
pub proof fn lemma_dlpack_follows_number_format(data_type: DataType)
    ensures
        spec_dlpack_of(data_type) == match spec_number_format(data_type) {
            Some((kind, bits)) => Some((dlpack_kind_code(kind), bits as u8)),
            None => None,
        },
{
}

/// A DLPack code and width import as exactly the data type whose elements are
/// that kind of number at that width.
pub proof fn lemma_dlpack_import_follows_number_format(code: u8, bits: u8, data_type: DataType)
    ensures
        spec_zarr_of_dlpack(code, bits) == Some(data_type) <==> (spec_number_format(data_type)
            matches Some((kind, b)) && dlpack_kind_code(kind) == code && b == bits),
{
}

/// The stem of NumPy's name for a kind of number, before its width in bits.
pub open spec fn numpy_kind_stem(kind: NumberKind) -> Seq<char> {
    match kind {
        NumberKind::Boolean => "bool"@,
        NumberKind::SignedInt => "int"@,
        NumberKind::UnsignedInt => "uint"@,
        NumberKind::IeeeFloat => "float"@,
        NumberKind::BrainFloat => "bfloat"@,
    }
}

/// The NumPy name of a scalar numeric data type says what its elements are:
/// `bool`, or the kind's stem followed by the width in bits (`int32`,
/// `uint8`, `float64`).
pub proof fn lemma_numpy_name_of_numbers(data_type: DataType)
    requires
        spec_number_format(data_type) is Some,
    ensures
        spec_numpy_dtype_name(data_type) == Some(
            match spec_number_format(data_type) {
                Some((NumberKind::Boolean, _)) => "bool"@,
                Some((kind, bits)) => numpy_kind_stem(kind) + decimal(bits),
                None => Seq::empty(),
            },
        ),
{
    reveal_strlit("complex_float32");
    reveal_strlit("complex_float64");
    reveal_with_fuel(decimal, 3);
    match data_type {
        DataType::Bool => {
            reveal_strlit("bool");
        },
        DataType::Int8 => {
            reveal_strlit("int8");
            reveal_strlit("int");
            assert("int8"@ =~= "int"@ + decimal(8));
        },
        DataType::Int16 => {
            reveal_strlit("int16");
            reveal_strlit("int");
            assert("int16"@ =~= "int"@ + decimal(16));
        },
        DataType::Int32 => {
            reveal_strlit("int32");
            reveal_strlit("int");
            assert("int32"@ =~= "int"@ + decimal(32));
        },
        DataType::Int64 => {
            reveal_strlit("int64");
            reveal_strlit("int");
            assert("int64"@ =~= "int"@ + decimal(64));
        },
        DataType::UInt8 => {
            reveal_strlit("uint8");
            reveal_strlit("uint");
            assert("uint8"@ =~= "uint"@ + decimal(8));
        },
        DataType::UInt16 => {
            reveal_strlit("uint16");
            reveal_strlit("uint");
            assert("uint16"@ =~= "uint"@ + decimal(16));
        },
        DataType::UInt32 => {
            reveal_strlit("uint32");
            reveal_strlit("uint");
            assert("uint32"@ =~= "uint"@ + decimal(32));
        },
        DataType::UInt64 => {
            reveal_strlit("uint64");
            reveal_strlit("uint");
            assert("uint64"@ =~= "uint"@ + decimal(64));
        },
        DataType::Float16 => {
            reveal_strlit("float16");
            reveal_strlit("float");
            assert("float16"@ =~= "float"@ + decimal(16));
        },
        DataType::BFloat16 => {
            reveal_strlit("bfloat16");
            reveal_strlit("bfloat");
            assert("bfloat16"@ =~= "bfloat"@ + decimal(16));
        },
        DataType::Float32 => {
            reveal_strlit("float32");
            reveal_strlit("float");
            assert("float32"@ =~= "float"@ + decimal(32));
        },
        DataType::Float64 => {
            reveal_strlit("float64");
            reveal_strlit("float");
            assert("float64"@ =~= "float"@ + decimal(64));
        },
        _ => {},
    }
}

/// The NumPy name of a temporal data type names its own family: a
/// `timedelta64` data type is `timedelta64` and a `datetime64` one is
/// `datetime64`, each followed by `[` scale factor, unit code `]` unless the
/// unit is generic.
pub proof fn lemma_numpy_name_of_temporal_types(unit: TimeUnit, scale_factor: u32)
    ensures
        spec_numpy_dtype_name(DataType::TimeDelta64 { unit, scale_factor }) == Some(
            "timedelta64"@ + match spec_time_unit_code(unit) {
                None => Seq::<char>::empty(),
                Some(code) => seq!['['] + decimal(scale_factor as nat) + code + seq![']'],
            },
        ),
        spec_numpy_dtype_name(DataType::DateTime64 { unit, scale_factor }) == Some(
            "datetime64"@ + match spec_time_unit_code(unit) {
                None => Seq::<char>::empty(),
                Some(code) => seq!['['] + decimal(scale_factor as nat) + code + seq![']'],
            },
        ),
{
    let d = decimal(scale_factor as nat);
    match spec_time_unit_code(unit) {
        None => {
            assert("timedelta64"@ + Seq::<char>::empty() =~= "timedelta64"@);
            assert("datetime64"@ + Seq::<char>::empty() =~= "datetime64"@);
        },
        Some(code) => {
            assert("timedelta64"@ + seq!['['] + d + code + seq![']'] =~= "timedelta64"@ + (seq!['['] + d
                + code + seq![']']));
            assert("datetime64"@ + seq!['['] + d + code + seq![']'] =~= "datetime64"@ + (seq!['['] + d
                + code + seq![']']));
        },
    }
}

/// NumPy names a complex type by the bits of the whole value, twice the bits
/// of each component: a data type named `complex_float` + N (for N = 32 or
/// 64) is `complex` + 2N in NumPy. Any other data type that is neither
/// temporal nor without a Zarr v3 name keeps its Zarr v3 name.
pub proof fn lemma_numpy_name_of_complex_and_other_types(data_type: DataType, bits: nat)
    requires
        !(data_type is DateTime64),
        !(data_type is TimeDelta64),
    ensures
        (bits == 32 || bits == 64) && data_type.spec_name_v3() == Some("complex_float"@ + decimal(
            bits,
        )) ==> spec_numpy_dtype_name(data_type) == Some("complex"@ + decimal(2 * bits)),
        (data_type.spec_name_v3() matches Some(n) && n != "complex_float"@ + decimal(32) && n
            != "complex_float"@ + decimal(64)) ==> spec_numpy_dtype_name(data_type)
            == data_type.spec_name_v3(),
        data_type.spec_name_v3() is None ==> spec_numpy_dtype_name(data_type) is None,
{
    reveal_strlit("complex_float32");
    reveal_strlit("complex_float64");
    reveal_strlit("complex_float");
    reveal_strlit("complex64");
    reveal_strlit("complex128");
    reveal_strlit("complex");
    reveal_with_fuel(decimal, 4);
    assert("complex_float32"@ =~= "complex_float"@ + decimal(32));
    assert("complex_float64"@ =~= "complex_float"@ + decimal(64));
    assert("complex64"@ =~= "complex"@ + decimal(64));
    assert("complex128"@ =~= "complex"@ + decimal(128));
    if bits == 32 && data_type.spec_name_v3() == Some("complex_float"@ + decimal(bits)) {
        assert(data_type.spec_name_v3() == Some("complex_float32"@));
        assert(spec_numpy_dtype_name(data_type) == Some("complex64"@));
        assert(2 * bits == 64);
    } else if bits == 64 && data_type.spec_name_v3() == Some("complex_float"@ + decimal(bits)) {
        assert(data_type.spec_name_v3() == Some("complex_float64"@));
        assert("complex_float64"@[14] != "complex_float32"@[14]);
        assert(spec_numpy_dtype_name(data_type) == Some("complex128"@));
        assert(2 * bits == 128);
    }
}

} // verus!
