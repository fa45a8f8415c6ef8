//! A shape-preserving intermediate representation of structured data: a
//! closed union of primitives, sequences, maps and named shapes, with a total
//! order over all of it, and the builders that assemble such values step by
//! step.
pub mod access;
pub mod cloning;
pub mod compare;
pub mod laws;
pub mod lexical;
pub mod lift;
pub mod maps;
pub mod number;
pub mod operators;
pub mod order;
pub mod render;
pub mod ser;
pub mod sorted;
pub mod text;
pub mod value;

pub use crate::number::{Number, F32, F64};
pub use crate::order::Order;
pub use crate::ser::{Error, ErrorKind, Serializer};
pub use crate::value::{
    FieldMap, NamedStruct, NamedVariant, TupleStruct, TupleVariant, UnitStruct, UnitVariant,
    Value, ValueMap,
};
