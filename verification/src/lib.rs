//! Logical types over physical storage encodings: the type taxonomy, the
//! conversion of physical scalars into logical values, a registry of
//! extension types, custom orderings and pretty printing.

pub mod canonical;
pub mod datatype;
pub mod decimal;
pub mod dftype;
pub mod error;
pub mod extensions;
pub mod from_scalar_value;
pub mod int_or_float;
pub mod logical;
pub mod native;
pub mod ordering;
pub mod registry;
pub mod scalar;
pub mod scalar_order;
pub mod text;
