//! Compile-time text-formatting code generator.
//!
//! Given a format string whose placeholders are the two-character marker `{}`
//! and a list of substitution expressions, this library splits the format
//! string into literal segments, checks that the number of placeholders
//! equals the number of arguments, and synthesizes the source text of a
//! displayable record type together with its rendering logic. The render
//! semantics of the produced value are modelled and verified here as well.

pub mod data;
pub mod generator;
pub mod parser;
pub mod render;
pub mod text;

pub use data::ErrorKind;
pub use data::ExpandError;
pub use data::FormatArgs;
pub use data::FormatStr;
pub use data::PFormatArgs;
pub use data::PFormatArgsAST;
pub use generator::expand;
pub use generator::Argument;
pub use parser::format_from_expr;
pub use parser::format_from_literal;
