//! Renders an in-memory description of a plain record (typed fields with
//! optional default values and one-line documentation) as struct source text
//! in a C-family language.
pub mod generate;
pub mod lemmas;

pub use generate::{Docstring, MemberVariable, PlainOldStruct};
