//! Canonical message hashes for asset transfers and limit orders over the
//! STARK-friendly prime field.

pub mod errno;
pub mod field;
pub mod numeral;
pub mod parse;
pub mod hash;
pub mod message;
pub mod laws;
