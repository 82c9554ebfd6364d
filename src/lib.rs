//! Turns a parsed regular expression into a railroad diagram: a tree of
//! terminals, non-terminals, sequences, choices and repeated blocks that a
//! drawing layer lays out.
pub mod ast;
pub mod converter;
pub mod diagram;
pub mod error;
pub mod hir;
pub mod laws;
pub mod text;
pub mod translator;

pub use converter::convert;
pub use translator::translate;
