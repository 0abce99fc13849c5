//! Verified core of the formality driver: turning a-mir-formality programs and
//! compiler-provided function signatures into text.

pub mod conversion;
pub mod dump;
pub mod grammar;
pub mod mir;
pub mod rust_builder;
pub mod text;
