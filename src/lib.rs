//! Uniform conversions between the primitive integer kinds.
pub mod cast;
pub mod wrap;

pub use cast::{cast, CastTo, NumCast, Primitive};
