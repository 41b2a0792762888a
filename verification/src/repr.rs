//! Building `__repr__` strings. Every value comes from Python's own `repr`;
//! this only assembles the pieces, so Python owns the syntax of each value.
use vstd::prelude::*;
use vstd::string::*;

verus! {

/// The repr of a type that Zarr v3 describes with a name and a configuration:
/// `Class('name', config={...})`. The name is absent for a type that Zarr v3
/// does not name; the configuration is absent when it holds no entries.
pub open spec fn spec_named_config_repr(
    class: Seq<char>,
    name_repr: Option<Seq<char>>,
    config_repr: Option<Seq<char>>,
) -> Seq<char> {
    let name_part = match name_repr {
        Some(n) => n,
        None => Seq::empty(),
    };
    let sep = if name_repr is Some && config_repr is Some { ", "@ } else { Seq::empty() };
    let config_part = match config_repr {
        Some(c) => "config="@ + c,
        None => Seq::empty(),
    };
    class + "("@ + name_part + sep + config_part + ")"@
}

/// Build the repr of a type with a Zarr v3 name and configuration.
///
/// `name_repr` is the Python repr of the name, if the type has one.
/// `config` is the Python repr of the configuration and whether it has any
/// entries; an empty configuration adds nothing that the name does not say.
pub fn named_config_repr(class: &str, name_repr: Option<&str>, config: Option<(bool, &str)>) -> (res:
    String)
    ensures
        res@ == spec_named_config_repr(
            class@,
            match name_repr {
                Some(n) => Some(n@),
                None => None,
            },
            match config {
                Some((true, c)) => Some(c@),
                _ => None,
            },
        ),
{
    let mut s = class.to_owned();
    s.append("(");
    let mut has_part = false;
    match name_repr {
        Some(n) => {
            s.append(n);
            has_part = true;
        },
        None => {},
    }
    match config {
        Some((true, c)) => {
            if has_part {
                s.append(", ");
            }
            s.append("config=");
            s.append(c);
        },
        _ => {},
    }
    s.append(")");
    proof {
        let name_part = match name_repr {
            Some(n) => n@,
            None => Seq::<char>::empty(),
        };
        let config_part = match config {
            Some((true, c)) => "config="@ + c@,
            _ => Seq::<char>::empty(),
        };
        let sep = if name_repr is Some && (config matches Some((true, _))) {
            ", "@
        } else {
            Seq::<char>::empty()
        };
        assert(s@ =~= class@ + "("@ + name_part + sep + config_part + ")"@);
    }
    s
}


/// The repr of a fill value, `FillValue(<value>, dtype=<dtype>)`, from the
/// Python reprs of its value and of its data type's Zarr v3 name.
pub open spec fn spec_fill_value_repr(value_repr: Seq<char>, dtype_repr: Seq<char>) -> Seq<char> {
    "FillValue("@ + value_repr + ", dtype="@ + dtype_repr + ")"@
}

/// Build the repr of a fill value from the Python reprs of its value and of
/// its data type's name.
pub fn fill_value_repr(value_repr: &str, dtype_repr: &str) -> (res: String)
    ensures
        res@ == spec_fill_value_repr(value_repr@, dtype_repr@),
{
    let mut s = String::from_str("FillValue(");
    s.append(value_repr);
    s.append(", dtype=");
    s.append(dtype_repr);
    s.append(")");
    s
}

/// The repr of an array builder: `ArrayBuilder(metadata=<repr>)` from the
/// repr of the metadata it would build, or `ArrayBuilder()` when that build
/// fails, since a repr must not raise.
pub open spec fn spec_builder_repr(metadata_repr: Option<Seq<char>>) -> Seq<char> {
    match metadata_repr {
        Some(m) => "ArrayBuilder(metadata="@ + m + ")"@,
        None => "ArrayBuilder()"@,
    }
}

/// Build the repr of an array builder.
pub fn builder_repr(metadata_repr: Option<&str>) -> (res: String)
    ensures
        res@ == spec_builder_repr(
            match metadata_repr {
                Some(m) => Some(m@),
                None => None,
            },
        ),
{
    match metadata_repr {
        Some(m) => {
            let mut s = String::from_str("ArrayBuilder(metadata=");
            s.append(m);
            s.append(")");
            s
        },
        None => String::from_str("ArrayBuilder()"),
    }
}

} // verus!
