//! What holds of every translation.
use vstd::prelude::*;
use vstd::utf8::*;
use crate::ast::{Alternation, Ast, Class, Concat, GroupKind, RepetitionKind, RepetitionRange};
use crate::diagram::Shape;
use crate::text::{bytes_of, int_text, span_ok, span_text, Span};
use crate::translator::{
    counted, fault, faults, first_fault, lemma_first_fault, optional, reads_span,
    repetition_shape, shape, shapes,
};

verus! {

broadcast use vstd::std_specs::vec::group_vec_axioms;

/// No node of the tree is a flag setting that stands alone: every node is
/// of a kind that has a drawing.
pub open spec fn enumerated(ast: Ast) -> bool
    decreases ast,
{
    match ast {
        Ast::Flags(_) => false,
        Ast::Repetition(r) => enumerated(*r.ast),
        Ast::Group(g) => enumerated(*g.ast),
        Ast::Alternation(a) => forall|i: int| 0 <= i < a.asts.len() ==> enumerated(#[trigger] a.asts[i]),
        Ast::Concat(c) => forall|i: int| 0 <= i < c.asts.len() ==> enumerated(#[trigger] c.asts[i]),
        _ => true,
    }
}

/// Every span whose text the drawing shows lies within the pattern `p`.
pub open spec fn spans_within(p: Seq<char>, ast: Ast) -> bool
    decreases ast,
{
    match ast {
        Ast::Literal(l) => reads_span(l.kind) ==> span_ok(p, l.span),
        Ast::Class(Class::Unicode(s)) => span_ok(p, s),
        Ast::Class(Class::Bracketed(s)) => span_ok(p, s),
        Ast::Repetition(r) => spans_within(p, *r.ast),
        Ast::Group(g) => spans_within(p, *g.ast) && match g.kind {
            GroupKind::NonCapturing(f) => span_ok(p, f.span),
            _ => true,
        },
        Ast::Alternation(a) => forall|i: int| 0 <= i < a.asts.len() ==> spans_within(p, #[trigger] a.asts[i]),
        Ast::Concat(c) => forall|i: int| 0 <= i < c.asts.len() ==> spans_within(p, #[trigger] c.asts[i]),
        _ => true,
    }
}

/// Every tree made of the kinds of node that have a drawing, whose shown
/// spans lie within the pattern, is drawn without error.
pub proof fn translation_is_total(p: Seq<char>, ast: Ast)
    requires
        enumerated(ast),
        spans_within(p, ast),
    ensures
        fault(p, ast) is None,
    decreases ast,
{
    match ast {
        Ast::Repetition(r) => translation_is_total(p, *r.ast),
        Ast::Group(g) => translation_is_total(p, *g.ast),
        Ast::Alternation(a) => {
            let fs = faults(p, a.asts);
            assert forall|j: int| 0 <= j < a.asts.len() implies #[trigger] fs[j] is None by {
                translation_is_total(p, a.asts[j]);
            }
            lemma_first_fault(fs, fs.len() as int);
        },
        Ast::Concat(c) => {
            let fs = faults(p, c.asts);
            assert forall|j: int| 0 <= j < c.asts.len() implies #[trigger] fs[j] is None by {
                translation_is_total(p, c.asts[j]);
            }
            lemma_first_fault(fs, fs.len() as int);
        },
        _ => {},
    }
}

/// A concatenation is drawn as a sequence, and an alternation as a choice,
/// of the drawings of its parts, one for one and in the same order.
pub proof fn order_is_kept(p: Seq<char>, span: Span, asts: Vec<Ast>)
    ensures
        shape(p, Ast::Concat(Concat { span, asts })) is Sequence,
        shape(p, Ast::Alternation(Alternation { span, asts })) is Choice,
        shape(p, Ast::Concat(Concat { span, asts }))->Sequence_0.len() == asts.len(),
        shape(p, Ast::Alternation(Alternation { span, asts }))->Choice_0.len() == asts.len(),
        forall|i: int|
            0 <= i < asts.len() ==> shape(p, Ast::Concat(Concat { span, asts }))->Sequence_0[i]
                == shape(p, #[trigger] asts[i]),
        forall|i: int|
            0 <= i < asts.len() ==> shape(p, Ast::Alternation(Alternation { span, asts }))->Choice_0[i]
                == shape(p, #[trigger] asts[i]),
{
    assert(shapes(p, asts).len() == asts.len());
}

/// A counted repetition is labelled with one pass fewer than its count,
/// since the repeat shape draws the first pass itself: exactly `n` reads
/// `= n-1 times`, at least `l` reads `≥ l-1 times`, and between `l` and `u`
/// with `l` of two or more reads `l-1 to u-1 times` on an optional block.
pub proof fn counts_are_one_less(inner: Shape, n: u32, l: u32, u: u32)
    ensures
        repetition_shape(RepetitionKind::Range(RepetitionRange::Exactly(n)), inner)
            == counted(inner, "= "@ + int_text(n - 1) + " times"@),
        repetition_shape(RepetitionKind::Range(RepetitionRange::AtLeast(l)), inner)
            == counted(inner, "≥ "@ + int_text(l - 1) + " times"@),
        l >= 2 ==> repetition_shape(RepetitionKind::Range(RepetitionRange::Bounded(l, u)), inner)
            == optional(counted(inner, int_text(l - 1) + " to "@ + int_text(u - 1) + " times"@)),
{
}

/// A span over the whole pattern recovers the pattern itself, character
/// for character.
pub proof fn whole_span_is_pattern(p: Seq<char>, span: Span)
    requires
        span.start == 0,
        span.end == bytes_of(p).len(),
    ensures
        span_ok(p, span),
        span_text(p, span) == p,
{
    broadcast use group_utf8_lib;

    assert(bytes_of(p).subrange(0, span.end as int) =~= bytes_of(p));
}

} // verus!
