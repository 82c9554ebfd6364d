//! Why a syntax tree could not be drawn.
use vstd::prelude::*;
use crate::text::Span;

verus! {

/// The kinds of high-level syntax tree node that have no drawing yet.
#[derive(Debug, Clone, Copy, PartialEq, Eq)]
pub enum HirConstruct {
    Class,
    Anchor,
    WordBoundary,
    Repetition,
    Group,
    Concat,
    Alternation,
}

#[derive(Debug, Clone, Copy, PartialEq, Eq)]
pub enum TranslateError {
    /// A flag setting that stands alone, as `(?i)`, at this span: it has no drawing.
    UnsupportedFlags(Span),
    /// A high-level node of this kind: it has no drawing.
    UnsupportedHir(HirConstruct),
    /// A span whose text was needed does not lie within the pattern, or cuts a
    /// character in two.
    SpanOutsidePattern(Span),
}

} // verus!
