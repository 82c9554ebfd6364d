use regex_railroad::ast::{
    Alternation, Assertion, AssertionKind, Ast, CaptureName, Class, ClassPerl, ClassPerlKind,
    Concat, Flags, Group, GroupKind, HexLiteralKind, Literal, LiteralKind, Repetition,
    RepetitionKind, RepetitionOp, RepetitionRange, SetFlags, SpecialLiteralKind,
};
use regex_railroad::diagram::{Diagram, Node};
use regex_railroad::error::TranslateError;
use regex_railroad::text::{push_byte_escape, push_decimal, push_predecessor, recover, Span};
use regex_railroad::translate;

fn sp(start: usize, end: usize) -> Span {
    Span { start, end }
}

fn lit(c: char, at: usize) -> Ast {
    Ast::Literal(Literal { span: sp(at, at + c.len_utf8()), kind: LiteralKind::Verbatim, c })
}

fn term(t: &str) -> Node {
    Node::Terminal(t.to_string())
}

fn nonterm(t: &str) -> Node {
    Node::NonTerminal(t.to_string())
}

fn comment(t: &str) -> Box<Node> {
    Box::new(Node::Comment(t.to_string()))
}

fn bracketed(root: Node) -> Diagram {
    Diagram { sequence: vec![Node::SimpleStart, root, Node::SimpleEnd] }
}

fn range(pattern_len: usize, inner: Ast, r: RepetitionRange) -> Ast {
    Ast::Repetition(Repetition {
        span: sp(0, pattern_len),
        op: RepetitionOp { span: sp(1, pattern_len), kind: RepetitionKind::Range(r) },
        greedy: true,
        ast: Box::new(inner),
    })
}

fn repeated(kind: RepetitionKind) -> Ast {
    Ast::Repetition(Repetition {
        span: sp(0, 2),
        op: RepetitionOp { span: sp(1, 2), kind },
        greedy: true,
        ast: Box::new(lit('a', 0)),
    })
}

fn group(kind: GroupKind, inner: Ast, len: usize) -> Ast {
    Ast::Group(Group { span: sp(0, len), kind, ast: Box::new(inner) })
}

#[test]
fn single_literal_is_one_terminal() {
    let d = translate("a", lit('a', 0)).unwrap();
    assert_eq!(d, bracketed(term("a")));
}

#[test]
fn special_escape_is_named() {
    let ast = Ast::Literal(Literal {
        span: sp(0, 2),
        kind: LiteralKind::Special(SpecialLiteralKind::LineFeed),
        c: '\n',
    });
    let d = translate("\\n", ast).unwrap();
    assert_eq!(d, bracketed(nonterm("LineFeed")));
}

#[test]
fn punctuation_shows_the_character() {
    let ast = Ast::Literal(Literal { span: sp(0, 2), kind: LiteralKind::Punctuation, c: '*' });
    assert_eq!(translate("\\*", ast).unwrap(), bracketed(term("*")));
}

#[test]
fn hex_escape_shows_its_text() {
    let ast = Ast::Literal(Literal {
        span: sp(0, 4),
        kind: LiteralKind::HexFixed(HexLiteralKind::X),
        c: 'a',
    });
    assert_eq!(translate("\\x61", ast).unwrap(), bracketed(term("\\x61")));
}

#[test]
fn bracketed_class_shows_its_text() {
    let ast = Ast::Class(Class::Bracketed(sp(0, 8)));
    let d = translate("[a-z0-9]", ast).unwrap();
    assert_eq!(d, bracketed(nonterm("[a-z0-9]")));
}

#[test]
fn class_after_wide_characters_is_cut_by_bytes() {
    // "é" takes two bytes, "€" three.
    let pattern = "é[€x]";
    let ast = Ast::Concat(Concat {
        span: sp(0, 8),
        asts: vec![lit('é', 0), Ast::Class(Class::Bracketed(sp(2, 8)))],
    });
    let d = translate(pattern, ast).unwrap();
    assert_eq!(d, bracketed(Node::Sequence(vec![term("é"), nonterm("[€x]")])));
}

#[test]
fn unicode_class_shows_its_text() {
    let ast = Ast::Class(Class::Unicode(sp(0, 3)));
    assert_eq!(translate("\\pL", ast).unwrap(), bracketed(nonterm("\\pL")));
}

#[test]
fn perl_classes_are_named() {
    let cases = [
        (ClassPerlKind::Digit, false, "digit"),
        (ClassPerlKind::Digit, true, "non-digit"),
        (ClassPerlKind::Space, false, "whitespace"),
        (ClassPerlKind::Space, true, "non-whitespace"),
        (ClassPerlKind::Word, false, "word characters"),
        (ClassPerlKind::Word, true, "non-word characters"),
    ];
    for (kind, negated, label) in cases {
        let ast = Ast::Class(Class::Perl(ClassPerl { span: sp(0, 2), kind, negated }));
        assert_eq!(translate("\\d", ast).unwrap(), bracketed(nonterm(label)));
    }
}

#[test]
fn dot_is_any_characters() {
    assert_eq!(translate(".", Ast::Dot(sp(0, 1))).unwrap(), bracketed(nonterm("Any characters")));
}

#[test]
fn assertions_are_named() {
    let cases = [
        (AssertionKind::StartLine, "start of line"),
        (AssertionKind::EndLine, "end of line"),
        (AssertionKind::StartText, "start of text"),
        (AssertionKind::EndText, "end of text"),
        (AssertionKind::WordBoundary, "word boundary"),
        (AssertionKind::NotWordBoundary, "non word boundary"),
    ];
    for (kind, label) in cases {
        let ast = Ast::Assertion(Assertion { span: sp(0, 1), kind });
        assert_eq!(translate("^", ast).unwrap(), bracketed(nonterm(label)));
    }
}

#[test]
fn empty_is_empty() {
    assert_eq!(translate("", Ast::Empty(sp(0, 0))).unwrap(), bracketed(Node::Empty));
}

#[test]
fn zero_or_one_is_optional() {
    let d = translate("a?", repeated(RepetitionKind::ZeroOrOne)).unwrap();
    assert_eq!(d, bracketed(Node::Optional(Box::new(term("a")))));
}

#[test]
fn zero_or_more_is_optional_repeat() {
    let d = translate("a*", repeated(RepetitionKind::ZeroOrMore)).unwrap();
    let r = Node::Repeat(Box::new(term("a")), Box::new(Node::Empty));
    assert_eq!(d, bracketed(Node::Optional(Box::new(r))));
}

#[test]
fn one_or_more_is_repeat() {
    let d = translate("a+", repeated(RepetitionKind::OneOrMore)).unwrap();
    assert_eq!(d, bracketed(Node::Repeat(Box::new(term("a")), Box::new(Node::Empty))));
}

#[test]
fn exactly_three_reads_two() {
    let d = translate("a{3}", range(4, lit('a', 0), RepetitionRange::Exactly(3))).unwrap();
    assert_eq!(d, bracketed(Node::Repeat(Box::new(term("a")), comment("= 2 times"))));
}

#[test]
fn exactly_zero_reads_minus_one() {
    let d = translate("a{0}", range(4, lit('a', 0), RepetitionRange::Exactly(0))).unwrap();
    assert_eq!(d, bracketed(Node::Repeat(Box::new(term("a")), comment("= -1 times"))));
}

#[test]
fn at_least_five_reads_four() {
    let d = translate("a{5,}", range(5, lit('a', 0), RepetitionRange::AtLeast(5))).unwrap();
    assert_eq!(d, bracketed(Node::Repeat(Box::new(term("a")), comment("≥ 4 times"))));
}

#[test]
fn bounded_two_four_end_to_end() {
    let d = translate("a{2,4}", range(6, lit('a', 0), RepetitionRange::Bounded(2, 4))).unwrap();
    let r = Node::Repeat(Box::new(term("a")), comment("1 to 3 times"));
    assert_eq!(d, bracketed(Node::Optional(Box::new(r))));
}

#[test]
fn bounded_from_zero_is_at_most() {
    let d = translate("a{0,3}", range(6, lit('a', 0), RepetitionRange::Bounded(0, 3))).unwrap();
    let r = Node::Repeat(Box::new(term("a")), comment("≤ 2 times"));
    assert_eq!(d, bracketed(Node::Optional(Box::new(r))));
}

#[test]
fn bounded_from_one_reads_at_least_upper() {
    let d = translate("a{1,12}", range(7, lit('a', 0), RepetitionRange::Bounded(1, 12))).unwrap();
    assert_eq!(d, bracketed(Node::Repeat(Box::new(term("a")), comment("≥ 11 times"))));
}

#[test]
fn largest_count_is_written_in_full() {
    let d = translate("a{4294967295}", range(13, lit('a', 0), RepetitionRange::Exactly(u32::MAX)))
        .unwrap();
    assert_eq!(d, bracketed(Node::Repeat(Box::new(term("a")), comment("= 4294967294 times"))));
}

#[test]
fn indexed_group_is_labelled_with_its_index() {
    let d = translate("(a)", group(GroupKind::CaptureIndex(1), lit('a', 1), 3)).unwrap();
    let b = Node::LabeledBox(Box::new(term("a")), comment("Group: #1"));
    assert_eq!(d, bracketed(b));
}

#[test]
fn named_group_is_labelled_with_its_name() {
    let name = CaptureName { span: sp(3, 7), name: "word".to_string(), index: 1 };
    let d = translate("(?P<word>a)", group(GroupKind::CaptureName(name), lit('a', 9), 11)).unwrap();
    let b = Node::LabeledBox(Box::new(term("a")), comment("Group: word"));
    assert_eq!(d, bracketed(b));
}

#[test]
fn non_capturing_group_shows_its_flags() {
    let flags = Flags { span: sp(2, 4) };
    let d = translate("(?is:a)", group(GroupKind::NonCapturing(flags), lit('a', 5), 7)).unwrap();
    let b = Node::LabeledBox(Box::new(term("a")), comment("Flags: is"));
    assert_eq!(d, bracketed(b));
}

#[test]
fn concatenation_keeps_its_order() {
    let ast = Ast::Concat(Concat { span: sp(0, 3), asts: vec![lit('c', 0), lit('a', 1), lit('b', 2)] });
    let d = translate("cab", ast).unwrap();
    assert_eq!(d, bracketed(Node::Sequence(vec![term("c"), term("a"), term("b")])));
}

#[test]
fn alternation_keeps_its_order() {
    let ast = Ast::Alternation(Alternation {
        span: sp(0, 6),
        asts: vec![lit('z', 0), lit('a', 2), lit('z', 4), Ast::Empty(sp(6, 6))],
    });
    let d = translate("z|a|z|", ast).unwrap();
    let c = Node::Choice(vec![term("z"), term("a"), term("z"), Node::Empty]);
    assert_eq!(d, bracketed(c));
}

#[test]
fn every_kind_of_node_is_drawn() {
    let pattern = "(?i:x)|\\pL[ab]\\x41\\t.^\\w(?P<n>y)(z)+";
    let ast = Ast::Alternation(Alternation {
        span: sp(0, pattern.len()),
        asts: vec![
            group(GroupKind::NonCapturing(Flags { span: sp(2, 3) }), lit('x', 4), 6),
            Ast::Concat(Concat {
                span: sp(7, pattern.len()),
                asts: vec![
                    Ast::Class(Class::Unicode(sp(7, 10))),
                    Ast::Class(Class::Bracketed(sp(10, 14))),
                    Ast::Literal(Literal {
                        span: sp(14, 18),
                        kind: LiteralKind::HexFixed(HexLiteralKind::X),
                        c: 'A',
                    }),
                    Ast::Literal(Literal {
                        span: sp(18, 20),
                        kind: LiteralKind::Special(SpecialLiteralKind::Tab),
                        c: '\t',
                    }),
                    Ast::Dot(sp(20, 21)),
                    Ast::Assertion(Assertion { span: sp(21, 22), kind: AssertionKind::StartLine }),
                    Ast::Class(Class::Perl(ClassPerl {
                        span: sp(22, 24),
                        kind: ClassPerlKind::Word,
                        negated: false,
                    })),
                    group(
                        GroupKind::CaptureName(CaptureName {
                            span: sp(28, 29),
                            name: "n".to_string(),
                            index: 1,
                        }),
                        lit('y', 30),
                        32,
                    ),
                    Ast::Repetition(Repetition {
                        span: sp(32, 36),
                        op: RepetitionOp { span: sp(35, 36), kind: RepetitionKind::OneOrMore },
                        greedy: true,
                        ast: Box::new(group(GroupKind::CaptureIndex(2), lit('z', 33), 35)),
                    }),
                    Ast::Empty(sp(36, 36)),
                ],
            }),
        ],
    });
    let d = translate(pattern, ast).unwrap();
    let expected = Node::Choice(vec![
        Node::LabeledBox(Box::new(term("x")), comment("Flags: i")),
        Node::Sequence(vec![
            nonterm("\\pL"),
            nonterm("[ab]"),
            term("\\x41"),
            nonterm("Tab"),
            nonterm("Any characters"),
            nonterm("start of line"),
            nonterm("word characters"),
            Node::LabeledBox(Box::new(term("y")), comment("Group: n")),
            Node::Repeat(
                Box::new(Node::LabeledBox(Box::new(term("z")), comment("Group: #2"))),
                Box::new(Node::Empty),
            ),
            Node::Empty,
        ]),
    ]);
    assert_eq!(d, bracketed(expected));
}

#[test]
fn flag_setting_is_unsupported() {
    let ast = Ast::Flags(SetFlags { span: sp(0, 4), flags: Flags { span: sp(2, 3) } });
    assert_eq!(translate("(?i)", ast), Err(TranslateError::UnsupportedFlags(sp(0, 4))));
}

#[test]
fn first_fault_is_reported() {
    let ast = Ast::Concat(Concat {
        span: sp(0, 9),
        asts: vec![
            lit('a', 0),
            Ast::Class(Class::Bracketed(sp(1, 40))),
            Ast::Flags(SetFlags { span: sp(5, 9), flags: Flags { span: sp(7, 8) } }),
        ],
    });
    assert_eq!(translate("a[b](?i)", ast), Err(TranslateError::SpanOutsidePattern(sp(1, 40))));
}

#[test]
fn inner_fault_comes_before_group_flags() {
    let inner = Ast::Flags(SetFlags { span: sp(3, 7), flags: Flags { span: sp(5, 6) } });
    let ast = group(GroupKind::NonCapturing(Flags { span: sp(2, 99) }), inner, 8);
    assert_eq!(translate("(?:(?i))", ast), Err(TranslateError::UnsupportedFlags(sp(3, 7))));
}

#[test]
fn span_inside_a_character_is_refused() {
    let ast = Ast::Class(Class::Bracketed(sp(1, 3)));
    assert_eq!(translate("é[]", ast), Err(TranslateError::SpanOutsidePattern(sp(1, 3))));
}

#[test]
fn reversed_span_is_refused() {
    let ast = Ast::Class(Class::Bracketed(sp(3, 1)));
    assert_eq!(translate("[ab]", ast), Err(TranslateError::SpanOutsidePattern(sp(3, 1))));
}

#[test]
fn recover_cuts_by_bytes() {
    assert_eq!(recover("aé€b", &sp(1, 6)), Some("é€".to_string()));
    assert_eq!(recover("aé€b", &sp(2, 6)), None);
    assert_eq!(recover("ab", &sp(0, 3)), None);
    assert_eq!(recover("ab", &sp(2, 2)), Some(String::new()));
}

#[test]
fn decimals_are_written_out() {
    let mut s = String::from("n=");
    push_decimal(&mut s, 1234);
    assert_eq!(s, "n=1234");
    let mut z = String::new();
    push_decimal(&mut z, 0);
    assert_eq!(z, "0");
    let mut m = String::new();
    push_predecessor(&mut m, 0);
    assert_eq!(m, "-1");
    let mut p = String::new();
    push_predecessor(&mut p, 10);
    assert_eq!(p, "9");
}

#[test]
fn bytes_are_escaped_in_hex() {
    let mut s = String::new();
    push_byte_escape(&mut s, 0xff);
    push_byte_escape(&mut s, 0x0a);
    assert_eq!(s, "\\xff\\x0a");
}

#[test]
fn octal_and_braced_escapes_show_their_text() {
    let octal = Ast::Literal(Literal { span: sp(1, 5), kind: LiteralKind::Octal, c: 'a' });
    assert_eq!(translate("x\\141", octal).unwrap(), bracketed(term("\\141")));
    let braced = Ast::Literal(Literal {
        span: sp(0, 8),
        kind: LiteralKind::HexBrace(HexLiteralKind::UnicodeLong),
        c: '€',
    });
    assert_eq!(translate("\\U{20AC}", braced).unwrap(), bracketed(term("\\U{20AC}")));
}
