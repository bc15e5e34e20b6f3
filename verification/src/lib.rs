//! Typed tokens: a value is either a plain, structured one or its opaque
//! transport text, and the type says which.
//!
//! `jwt` holds the signed token in its two states, with `adapter` for what it
//! has from outside and `subject` for a subject that is ready for use. `v1` and
//! `v2` are two smaller sketches of the same idea, on texts that are not
//! signed; `decimal` is the text form of numbers that they use.

pub mod adapter;
pub mod decimal;
pub mod jwt;
pub mod subject;
pub mod v1;
pub mod v2;
