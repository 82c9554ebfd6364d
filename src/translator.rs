//! From a syntax tree to a railroad diagram, one rule for each kind of node.
use vstd::prelude::*;
use crate::ast::{
    AssertionKind, Ast, Class, ClassPerl, ClassPerlKind, GroupKind, Literal, LiteralKind,
    RepetitionKind, RepetitionRange, SpecialLiteralKind,
};
use crate::diagram::{shapes_of, Diagram, Node, Shape};
use crate::error::TranslateError;
use crate::text::{
    char_text, decimal, int_text, push_decimal, push_predecessor, recover, span_ok, span_text, Span,
};

verus! {

broadcast use vstd::std_specs::vec::group_vec_axioms;

/// The name of an escape that has a name of its own.
pub open spec fn special_name(k: SpecialLiteralKind) -> Seq<char> {
    match k {
        SpecialLiteralKind::Bell => "Bell"@,
        SpecialLiteralKind::FormFeed => "FormFeed"@,
        SpecialLiteralKind::Tab => "Tab"@,
        SpecialLiteralKind::LineFeed => "LineFeed"@,
        SpecialLiteralKind::CarriageReturn => "CarriageReturn"@,
        SpecialLiteralKind::VerticalTab => "VerticalTab"@,
        SpecialLiteralKind::Space => "Space"@,
    }
}

pub open spec fn assertion_label(k: AssertionKind) -> Seq<char> {
    match k {
        AssertionKind::StartLine => "start of line"@,
        AssertionKind::EndLine => "end of line"@,
        AssertionKind::StartText => "start of text"@,
        AssertionKind::EndText => "end of text"@,
        AssertionKind::WordBoundary => "word boundary"@,
        AssertionKind::NotWordBoundary => "non word boundary"@,
    }
}

pub open spec fn perl_label(c: ClassPerl) -> Seq<char> {
    (if c.negated { "non-"@ } else { ""@ }) + match c.kind {
        ClassPerlKind::Digit => "digit"@,
        ClassPerlKind::Space => "whitespace"@,
        ClassPerlKind::Word => "word characters"@,
    }
}

/// The label of the wildcard.
pub open spec fn dot_label() -> Seq<char> {
    "Any characters"@
}

/// `= {n - 1} times`: the repeat shape draws the first pass itself.
pub open spec fn exactly_label(n: u32) -> Seq<char> {
    "= "@ + int_text(n - 1) + " times"@
}

/// `≥ {n - 1} times`.
pub open spec fn at_least_label(n: u32) -> Seq<char> {
    "≥ "@ + int_text(n - 1) + " times"@
}

/// `≤ {n - 1} times`.
pub open spec fn at_most_label(n: u32) -> Seq<char> {
    "≤ "@ + int_text(n - 1) + " times"@
}

/// `{l - 1} to {u - 1} times`.
pub open spec fn between_label(l: u32, u: u32) -> Seq<char> {
    int_text(l - 1) + " to "@ + int_text(u - 1) + " times"@
}

/// A repeated block with a comment on its way back.
pub open spec fn counted(inner: Shape, label: Seq<char>) -> Shape {
    Shape::Repeat(Box::new(inner), Box::new(Shape::Comment(label)))
}

pub open spec fn optional(inner: Shape) -> Shape {
    Shape::Optional(Box::new(inner))
}

/// How a repetition operator wraps the shape of what it repeats.
pub open spec fn repetition_shape(kind: RepetitionKind, inner: Shape) -> Shape {
    match kind {
        RepetitionKind::ZeroOrOne => optional(inner),
        RepetitionKind::ZeroOrMore => optional(Shape::Repeat(Box::new(inner), Box::new(Shape::Empty))),
        RepetitionKind::OneOrMore => Shape::Repeat(Box::new(inner), Box::new(Shape::Empty)),
        RepetitionKind::Range(RepetitionRange::Exactly(n)) => counted(inner, exactly_label(n)),
        RepetitionKind::Range(RepetitionRange::AtLeast(n)) => counted(inner, at_least_label(n)),
        RepetitionKind::Range(RepetitionRange::Bounded(l, u)) => if l == 0 {
            optional(counted(inner, at_most_label(u)))
        } else if l == 1 {
            counted(inner, at_least_label(u))
        } else {
            optional(counted(inner, between_label(l, u)))
        },
    }
}

pub open spec fn group_label(p: Seq<char>, kind: GroupKind) -> Seq<char> {
    match kind {
        GroupKind::CaptureIndex(i) => "Group: #"@ + decimal(i as nat),
        GroupKind::CaptureName(n) => "Group: "@ + n.name@,
        GroupKind::NonCapturing(f) => "Flags: "@ + span_text(p, f.span),
    }
}

/// A literal is drawn from its own text only when it is an escape without a name.
pub open spec fn reads_span(kind: LiteralKind) -> bool {
    !(kind is Verbatim || kind is Punctuation || kind is Special)
}

/// A literal written as an octal or hexadecimal escape is shown as the
/// escape was written, which is printable whatever character it stands for.
pub open spec fn literal_shape(p: Seq<char>, l: Literal) -> Shape {
    match l.kind {
        LiteralKind::Verbatim => Shape::Terminal(seq![l.c]),
        LiteralKind::Punctuation => Shape::Terminal(seq![l.c]),
        LiteralKind::Special(k) => Shape::NonTerminal(special_name(k)),
        _ => Shape::Terminal(span_text(p, l.span)),
    }
}

pub open spec fn class_shape(p: Seq<char>, c: Class) -> Shape {
    match c {
        Class::Perl(k) => Shape::NonTerminal(perl_label(k)),
        Class::Unicode(s) => Shape::NonTerminal(span_text(p, s)),
        Class::Bracketed(s) => Shape::NonTerminal(span_text(p, s)),
    }
}

/// The diagram of a syntax tree, read against the pattern text `p`.
pub open spec fn shape(p: Seq<char>, ast: Ast) -> Shape
    decreases ast,
{
    match ast {
        Ast::Empty(_) => Shape::Empty,
        Ast::Flags(_) => Shape::Empty,
        Ast::Literal(l) => literal_shape(p, l),
        Ast::Dot(_) => Shape::NonTerminal(dot_label()),
        Ast::Assertion(a) => Shape::NonTerminal(assertion_label(a.kind)),
        Ast::Class(c) => class_shape(p, c),
        Ast::Repetition(r) => repetition_shape(r.op.kind, shape(p, *r.ast)),
        Ast::Group(g) => Shape::LabeledBox(
            Box::new(shape(p, *g.ast)),
            Box::new(Shape::Comment(group_label(p, g.kind))),
        ),
        Ast::Alternation(a) => Shape::Choice(shapes(p, a.asts)),
        Ast::Concat(c) => Shape::Sequence(shapes(p, c.asts)),
    }
}

/// The diagrams of a list of syntax trees, in order.
pub open spec fn shapes(p: Seq<char>, asts: Vec<Ast>) -> Seq<Shape>
    decreases asts,
{
    Seq::new(asts.len() as nat, |i: int| if 0 <= i < asts.len() { shape(p, asts[i]) } else { Shape::Empty })
}

/// The first error in a list, if any.
pub open spec fn first_fault(s: Seq<Option<TranslateError>>) -> Option<TranslateError>
    decreases s.len(),
{
    if s.len() == 0 {
        None
    } else if s[0] is Some {
        s[0]
    } else {
        first_fault(s.drop_first())
    }
}

/// An error for a span that is read but does not lie within the pattern.
pub open spec fn span_fault(p: Seq<char>, span: Span) -> Option<TranslateError> {
    if span_ok(p, span) { None } else { Some(TranslateError::SpanOutsidePattern(span)) }
}

/// The first reason, in the order in which the tree is walked, why a tree
/// cannot be drawn: an inner node before the label of the node around it,
/// left before right.
pub open spec fn fault(p: Seq<char>, ast: Ast) -> Option<TranslateError>
    decreases ast,
{
    match ast {
        Ast::Flags(f) => Some(TranslateError::UnsupportedFlags(f.span)),
        Ast::Literal(l) => if reads_span(l.kind) { span_fault(p, l.span) } else { None },
        Ast::Class(Class::Unicode(s)) => span_fault(p, s),
        Ast::Class(Class::Bracketed(s)) => span_fault(p, s),
        Ast::Repetition(r) => fault(p, *r.ast),
        Ast::Group(g) => match fault(p, *g.ast) {
            Some(e) => Some(e),
            None => match g.kind {
                GroupKind::NonCapturing(f) => span_fault(p, f.span),
                _ => None,
            },
        },
        Ast::Alternation(a) => first_fault(faults(p, a.asts)),
        Ast::Concat(c) => first_fault(faults(p, c.asts)),
        _ => None,
    }
}

/// The first reason of each tree of a list.
pub open spec fn faults(p: Seq<char>, asts: Vec<Ast>) -> Seq<Option<TranslateError>>
    decreases asts,
{
    Seq::new(asts.len() as nat, |i: int| if 0 <= i < asts.len() { fault(p, asts[i]) } else { None })
}

/// Where the first `i` entries hold no error, the first error is the one at
/// `i`, if any; past the end there is none.
pub proof fn lemma_first_fault(s: Seq<Option<TranslateError>>, i: int)
    requires
        0 <= i <= s.len(),
        forall|j: int| 0 <= j < i ==> s[j] is None,
    ensures
        i < s.len() && s[i] is Some ==> first_fault(s) == s[i],
        i == s.len() ==> first_fault(s) is None,
    decreases i,
{
    if i > 0 {
        lemma_first_fault(s.drop_first(), i - 1);
    }
}


/// `r` is what translating `ast` against the pattern text `p` owes: the
/// first fault as the error where there is one, else the tree's diagram.
pub open spec fn translated(p: Seq<char>, ast: Ast, r: Result<Node, TranslateError>) -> bool {
    match fault(p, ast) {
        Some(e) => r == Err::<Node, TranslateError>(e),
        None => r is Ok && r->Ok_0.shape() == shape(p, ast),
    }
}

fn special_text(k: SpecialLiteralKind) -> (r: String)
    ensures
        r@ == special_name(k),
{
    match k {
        SpecialLiteralKind::Bell => "Bell".to_owned(),
        SpecialLiteralKind::FormFeed => "FormFeed".to_owned(),
        SpecialLiteralKind::Tab => "Tab".to_owned(),
        SpecialLiteralKind::LineFeed => "LineFeed".to_owned(),
        SpecialLiteralKind::CarriageReturn => "CarriageReturn".to_owned(),
        SpecialLiteralKind::VerticalTab => "VerticalTab".to_owned(),
        SpecialLiteralKind::Space => "Space".to_owned(),
    }
}

fn assertion_text(k: AssertionKind) -> (r: String)
    ensures
        r@ == assertion_label(k),
{
    match k {
        AssertionKind::StartLine => "start of line".to_owned(),
        AssertionKind::EndLine => "end of line".to_owned(),
        AssertionKind::StartText => "start of text".to_owned(),
        AssertionKind::EndText => "end of text".to_owned(),
        AssertionKind::WordBoundary => "word boundary".to_owned(),
        AssertionKind::NotWordBoundary => "non word boundary".to_owned(),
    }
}

fn perl_text(c: &ClassPerl) -> (r: String)
    ensures
        r@ == perl_label(*c),
{
    let mut s = if c.negated { "non-".to_owned() } else { "".to_owned() };
    match c.kind {
        ClassPerlKind::Digit => s.append("digit"),
        ClassPerlKind::Space => s.append("whitespace"),
        ClassPerlKind::Word => s.append("word characters"),
    }
    s
}

/// `prefix`, then `n - 1` in decimal, then ` times`.
fn count_text(prefix: &str, n: u32) -> (r: String)
    ensures
        r@ == prefix@ + int_text(n - 1) + " times"@,
{
    let mut s = prefix.to_owned();
    push_predecessor(&mut s, n);
    s.append(" times");
    s
}

fn between_text(l: u32, u: u32) -> (r: String)
    ensures
        r@ == between_label(l, u),
{
    let mut s = String::new();
    push_predecessor(&mut s, l);
    s.append(" to ");
    push_predecessor(&mut s, u);
    s.append(" times");
    assert(s@ =~= between_label(l, u));
    s
}

fn counted_node(inner: Node, label: String) -> (r: Node)
    ensures
        r.shape() == counted(inner.shape(), label@),
{
    proof {
        reveal_with_fuel(Node::shape, 2);
    }
    Node::Repeat(Box::new(inner), Box::new(Node::Comment(label)))
}

/// Wraps the diagram of a repeated tree as its repetition operator asks.
fn repetition_node(kind: RepetitionKind, inner: Node) -> (r: Node)
    ensures
        r.shape() == repetition_shape(kind, inner.shape()),
{
    proof {
        reveal_with_fuel(Node::shape, 3);
    }
    match kind {
        RepetitionKind::ZeroOrOne => Node::Optional(Box::new(inner)),
        RepetitionKind::ZeroOrMore => Node::Optional(
            Box::new(Node::Repeat(Box::new(inner), Box::new(Node::Empty))),
        ),
        RepetitionKind::OneOrMore => Node::Repeat(Box::new(inner), Box::new(Node::Empty)),
        RepetitionKind::Range(RepetitionRange::Exactly(n)) => counted_node(inner, count_text("= ", n)),
        RepetitionKind::Range(RepetitionRange::AtLeast(n)) => counted_node(inner, count_text("≥ ", n)),
        RepetitionKind::Range(RepetitionRange::Bounded(l, u)) => if l == 0 {
            Node::Optional(Box::new(counted_node(inner, count_text("≤ ", u))))
        } else if l == 1 {
            counted_node(inner, count_text("≥ ", u))
        } else {
            Node::Optional(Box::new(counted_node(inner, between_text(l, u))))
        },
    }
}

/// A non-terminal labelled with the text of `span`.
fn span_node(pattern: &str, span: &Span) -> (r: Result<Node, TranslateError>)
    ensures
        span_fault(pattern@, *span) is Some ==> r == Err::<Node, TranslateError>(TranslateError::SpanOutsidePattern(*span)),
        span_fault(pattern@, *span) is None ==> r is Ok && r->Ok_0.shape() == Shape::NonTerminal(span_text(pattern@, *span)),
{
    match recover(pattern, span) {
        Some(t) => Ok(Node::NonTerminal(t)),
        None => Err(TranslateError::SpanOutsidePattern(*span)),
    }
}

fn literal_node(pattern: &str, l: &Literal) -> (r: Result<Node, TranslateError>)
    ensures
        translated(pattern@, Ast::Literal(*l), r),
{
    match l.kind {
        LiteralKind::Verbatim => Ok(Node::Terminal(char_text(l.c))),
        LiteralKind::Punctuation => Ok(Node::Terminal(char_text(l.c))),
        LiteralKind::Special(k) => Ok(Node::NonTerminal(special_text(k))),
        _ => match recover(pattern, &l.span) {
            Some(t) => Ok(Node::Terminal(t)),
            None => Err(TranslateError::SpanOutsidePattern(l.span)),
        },
    }
}

fn traverse(pattern: &str, ast: &Ast) -> (r: Result<Node, TranslateError>)
    ensures
        translated(pattern@, *ast, r),
    decreases ast,
{
    proof {
        reveal_with_fuel(Node::shape, 2);
    }
    match ast {
        Ast::Empty(_) => Ok(Node::Empty),
        Ast::Flags(f) => Err(TranslateError::UnsupportedFlags(f.span)),
        Ast::Literal(l) => literal_node(pattern, l),
        Ast::Dot(_) => Ok(Node::NonTerminal("Any characters".to_owned())),
        Ast::Assertion(a) => Ok(Node::NonTerminal(assertion_text(a.kind))),
        Ast::Class(c) => match c {
            Class::Perl(k) => Ok(Node::NonTerminal(perl_text(k))),
            Class::Unicode(s) => span_node(pattern, s),
            Class::Bracketed(s) => span_node(pattern, s),
        },
        Ast::Repetition(rep) => match traverse(pattern, &rep.ast) {
            Ok(inner) => Ok(repetition_node(rep.op.kind, inner)),
            Err(e) => Err(e),
        },
        Ast::Group(g) => {
            let inner = match traverse(pattern, &g.ast) {
                Ok(n) => n,
                Err(e) => return Err(e),
            };
            let label = match &g.kind {
                GroupKind::CaptureIndex(i) => {
                    let mut s = "Group: #".to_owned();
                    push_decimal(&mut s, *i);
                    s
                },
                GroupKind::CaptureName(n) => {
                    let mut s = "Group: ".to_owned();
                    s.append(n.name.as_str());
                    s
                },
                GroupKind::NonCapturing(f) => match recover(pattern, &f.span) {
                    Some(t) => {
                        let mut s = "Flags: ".to_owned();
                        s.append(t.as_str());
                        s
                    },
                    None => return Err(TranslateError::SpanOutsidePattern(f.span)),
                },
            };
            Ok(Node::LabeledBox(Box::new(inner), Box::new(Node::Comment(label))))
        },
        Ast::Alternation(a) => match traverse_all(pattern, &a.asts) {
            Ok(v) => Ok(Node::Choice(v)),
            Err(e) => Err(e),
        },
        Ast::Concat(c) => match traverse_all(pattern, &c.asts) {
            Ok(v) => Ok(Node::Sequence(v)),
            Err(e) => Err(e),
        },
    }
}

/// Translates each tree of a list in order, stopping at the first that fails.
fn traverse_all(pattern: &str, asts: &Vec<Ast>) -> (r: Result<Vec<Node>, TranslateError>)
    ensures
        first_fault(faults(pattern@, *asts)) is Some ==> r == Err::<Vec<Node>, TranslateError>(
            first_fault(faults(pattern@, *asts))->Some_0,
        ),
        first_fault(faults(pattern@, *asts)) is None ==> r is Ok && shapes_of(r->Ok_0) == shapes(
            pattern@,
            *asts,
        ),
    decreases asts,
{
    let ghost fs = faults(pattern@, *asts);
    let mut out: Vec<Node> = Vec::new();
    let mut i: usize = 0;
    while i < asts.len()
        invariant
            i <= asts.len(),
            out.len() == i,
            fs == faults(pattern@, *asts),
            forall|j: int| 0 <= j < i ==> #[trigger] out[j].shape() == shape(pattern@, asts[j]),
            forall|j: int| 0 <= j < i ==> #[trigger] fs[j] is None,
        decreases asts.len() - i,
    {
        match traverse(pattern, &asts[i]) {
            Ok(n) => {
                out.push(n);
            },
            Err(e) => {
                proof {
                    lemma_first_fault(fs, i as int);
                }
                return Err(e);
            },
        }
        i = i + 1;
    }
    proof {
        lemma_first_fault(fs, i as int);
        assert forall|j: int| 0 <= j < i implies shapes_of(out)[j] == shapes(pattern@, *asts)[j] by {
            assert(out[j].shape() == shape(pattern@, asts[j]));
        }
        assert(shapes_of(out) =~= shapes(pattern@, *asts));
    }
    Ok(out)
}

/// Draws the syntax tree `ast` of the pattern `original_pattern` as one
/// sequence from an entry marker to an exit marker. It fails with the first
/// fault of the tree, in the order in which the tree is walked: a flag
/// setting that stands alone, or a span whose text is needed and that does
/// not lie within the pattern. The walk recurses once for each level of
/// nesting of the tree, so its stack depth is that of the tree, which the
/// parser's own nesting limit bounds.
pub fn translate(original_pattern: &str, ast: Ast) -> (r: Result<Diagram, TranslateError>)
    ensures
        fault(original_pattern@, ast) is Some ==> r == Err::<Diagram, TranslateError>(
            fault(original_pattern@, ast)->Some_0,
        ),
        fault(original_pattern@, ast) is None ==> r is Ok && r->Ok_0.shapes() == seq![
            Shape::SimpleStart,
            shape(original_pattern@, ast),
            Shape::SimpleEnd,
        ],
{
    match traverse(original_pattern, &ast) {
        Ok(root) => {
            let sequence = vec![Node::SimpleStart, root, Node::SimpleEnd];
            let d = Diagram { sequence };
            assert(d.shapes() =~= seq![Shape::SimpleStart, shape(original_pattern@, ast), Shape::SimpleEnd]);
            Ok(d)
        },
        Err(e) => Err(e),
    }
}

} // verus!
