//! The high-level syntax tree of a regular expression: what a pattern
//! matches, with escapes already resolved.
use vstd::prelude::*;

verus! {

#[derive(Debug, PartialEq, Eq)]
pub enum Hir {
    Empty,
    Literal(Literal),
    /// A set of characters or bytes.
    Class,
    /// A start or end of line or text.
    Anchor,
    WordBoundary,
    Repetition(Box<Hir>),
    Group(Box<Hir>),
    Concat(Vec<Hir>),
    Alternation(Vec<Hir>),
}

#[derive(Debug, Clone, Copy, PartialEq, Eq)]
pub enum Literal {
    /// A character.
    Unicode(char),
    /// A byte that need not be text on its own.
    Byte(u8),
}

} // verus!
