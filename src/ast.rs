//! The syntax tree of a regular expression, as a parser hands it over: each
//! node with the span of the pattern text that it was read from.
use vstd::prelude::*;
use crate::text::Span;

verus! {

#[derive(Debug, PartialEq, Eq)]
pub enum Ast {
    /// Nothing, as between the bars of `a||b`.
    Empty(Span),
    /// Flags set for the rest of the group, as `(?i)`.
    Flags(SetFlags),
    Literal(Literal),
    /// The wildcard `.`.
    Dot(Span),
    Assertion(Assertion),
    Class(Class),
    Repetition(Repetition),
    Group(Group),
    Alternation(Alternation),
    Concat(Concat),
}

#[derive(Debug, PartialEq, Eq)]
pub struct SetFlags {
    pub span: Span,
    pub flags: Flags,
}

/// Flags as written, such as `i` or `s-u`: only their span is kept.
#[derive(Debug, Clone, Copy, PartialEq, Eq)]
pub struct Flags {
    pub span: Span,
}

#[derive(Debug, Clone, Copy, PartialEq, Eq)]
pub struct Literal {
    pub span: Span,
    pub kind: LiteralKind,
    pub c: char,
}

#[derive(Debug, Clone, Copy, PartialEq, Eq)]
pub enum LiteralKind {
    /// The character itself.
    Verbatim,
    /// An escaped meta character, as `\*`.
    Punctuation,
    /// An octal escape, as `\141`.
    Octal,
    /// A hexadecimal escape of fixed width, as `\x61`.
    HexFixed(HexLiteralKind),
    /// A hexadecimal escape in braces, as `\x{61}`.
    HexBrace(HexLiteralKind),
    /// An escape with a name of its own, as `\n`.
    Special(SpecialLiteralKind),
}

#[derive(Debug, Clone, Copy, PartialEq, Eq)]
pub enum HexLiteralKind {
    X,
    UnicodeShort,
    UnicodeLong,
}

#[derive(Debug, Clone, Copy, PartialEq, Eq)]
pub enum SpecialLiteralKind {
    Bell,
    FormFeed,
    Tab,
    LineFeed,
    CarriageReturn,
    VerticalTab,
    Space,
}

#[derive(Debug, Clone, Copy, PartialEq, Eq)]
pub struct Assertion {
    pub span: Span,
    pub kind: AssertionKind,
}

#[derive(Debug, Clone, Copy, PartialEq, Eq)]
pub enum AssertionKind {
    StartLine,
    EndLine,
    StartText,
    EndText,
    WordBoundary,
    NotWordBoundary,
}

/// A character class. Only the named Perl classes are told apart; any other
/// class is kept as its span.
#[derive(Debug, Clone, Copy, PartialEq, Eq)]
pub enum Class {
    /// A Unicode class, as `\pL`.
    Unicode(Span),
    Perl(ClassPerl),
    /// A class in brackets, as `[a-z]`.
    Bracketed(Span),
}

#[derive(Debug, Clone, Copy, PartialEq, Eq)]
pub struct ClassPerl {
    pub span: Span,
    pub kind: ClassPerlKind,
    pub negated: bool,
}

#[derive(Debug, Clone, Copy, PartialEq, Eq)]
pub enum ClassPerlKind {
    Digit,
    Space,
    Word,
}

#[derive(Debug, PartialEq, Eq)]
pub struct Repetition {
    pub span: Span,
    pub op: RepetitionOp,
    pub greedy: bool,
    pub ast: Box<Ast>,
}

#[derive(Debug, Clone, Copy, PartialEq, Eq)]
pub struct RepetitionOp {
    pub span: Span,
    pub kind: RepetitionKind,
}

#[derive(Debug, Clone, Copy, PartialEq, Eq)]
pub enum RepetitionKind {
    ZeroOrOne,
    ZeroOrMore,
    OneOrMore,
    Range(RepetitionRange),
}

#[derive(Debug, Clone, Copy, PartialEq, Eq)]
pub enum RepetitionRange {
    Exactly(u32),
    AtLeast(u32),
    Bounded(u32, u32),
}

#[derive(Debug, PartialEq, Eq)]
pub struct Group {
    pub span: Span,
    pub kind: GroupKind,
    pub ast: Box<Ast>,
}

#[derive(Debug, PartialEq, Eq)]
pub enum GroupKind {
    /// A capture group known by its index, counted from one.
    CaptureIndex(u32),
    CaptureName(CaptureName),
    /// A group that captures nothing, with the flags written in it.
    NonCapturing(Flags),
}

#[derive(Debug, PartialEq, Eq)]
pub struct CaptureName {
    pub span: Span,
    pub name: String,
    pub index: u32,
}

#[derive(Debug, PartialEq, Eq)]
pub struct Alternation {
    pub span: Span,
    pub asts: Vec<Ast>,
}

#[derive(Debug, PartialEq, Eq)]
pub struct Concat {
    pub span: Span,
    pub asts: Vec<Ast>,
}

} // verus!
