//! zarrista: the verified core of a small, zarrita-flavoured binding to zarrs.
//!
//! The modules below hold the decisions that the Python binding makes: how a
//! selection written inside `[]` is read, how configuration strings are parsed,
//! how codec parameters are checked, how decoded bytes are laid out as tensors,
//! and how data types map onto NumPy, DLPack and the buffer protocol.
use vstd::prelude::*;

pub mod text;
pub mod group;
pub mod dtype;
pub mod tensor;
pub mod array_bytes;
pub mod input;
pub mod selection;
pub mod config;
pub mod codec;
pub mod fill_value;
pub mod error;
pub mod repr;
pub mod export;
pub mod chain;

verus! {

} // verus!
