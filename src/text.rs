//! Texts of labels: numbers written in decimal or hexadecimal, single
//! characters, and pieces of the pattern cut out by byte offsets.
use vstd::prelude::*;
use vstd::string::*;
use vstd::utf8::*;

verus! {

/// A half-open range of byte offsets into the pattern text.
#[derive(Debug, Clone, Copy, PartialEq, Eq)]
pub struct Span {
    pub start: usize,
    pub end: usize,
}

/// The digit that stands for `d` (below sixteen), lower case past nine.
pub open spec fn digit_text(d: nat) -> Seq<char> {
    if d == 0 { "0"@ } else if d == 1 { "1"@ } else if d == 2 { "2"@ } else if d == 3 { "3"@ }
    else if d == 4 { "4"@ } else if d == 5 { "5"@ } else if d == 6 { "6"@ } else if d == 7 { "7"@ }
    else if d == 8 { "8"@ } else if d == 9 { "9"@ } else if d == 10 { "a"@ } else if d == 11 { "b"@ }
    else if d == 12 { "c"@ } else if d == 13 { "d"@ } else if d == 14 { "e"@ } else { "f"@ }
}

/// `n` written in decimal, without leading zeros.
pub open spec fn decimal(n: nat) -> Seq<char>
    decreases n,
{
    if n < 10 {
        digit_text(n)
    } else {
        decimal(n / 10) + digit_text(n % 10)
    }
}

/// `i` written in decimal, with a minus sign when it is negative.
pub open spec fn int_text(i: int) -> Seq<char> {
    if i < 0 {
        "-"@ + decimal((-i) as nat)
    } else {
        decimal(i as nat)
    }
}

/// A byte as `\x` and two lower-case hexadecimal digits.
pub open spec fn byte_escape(b: u8) -> Seq<char> {
    "\\x"@ + digit_text((b / 16) as nat) + digit_text((b % 16) as nat)
}

/// The UTF-8 bytes of a text.
pub open spec fn bytes_of(p: Seq<char>) -> Seq<u8> {
    encode_utf8(p)
}

/// The span lies inside the text, and both its ends fall between characters.
pub open spec fn span_ok(p: Seq<char>, span: Span) -> bool {
    &&& span.start <= span.end <= bytes_of(p).len()
    &&& is_char_boundary(bytes_of(p), span.start as int)
    &&& is_char_boundary(bytes_of(p), span.end as int)
}

/// The characters whose encoding the span covers.
pub open spec fn span_text(p: Seq<char>, span: Span) -> Seq<char> {
    decode_utf8(bytes_of(p).subrange(span.start as int, span.end as int))
}

fn digit_str(d: u32) -> (r: &'static str)
    requires
        d < 16,
    ensures
        r@ == digit_text(d as nat),
{
    if d == 0 { "0" } else if d == 1 { "1" } else if d == 2 { "2" } else if d == 3 { "3" }
    else if d == 4 { "4" } else if d == 5 { "5" } else if d == 6 { "6" } else if d == 7 { "7" }
    else if d == 8 { "8" } else if d == 9 { "9" } else if d == 10 { "a" } else if d == 11 { "b" }
    else if d == 12 { "c" } else if d == 13 { "d" } else if d == 14 { "e" } else { "f" }
}

/// Appends `n` in decimal.
pub fn push_decimal(s: &mut String, n: u32)
    ensures
        final(s)@ == old(s)@ + decimal(n as nat),
    decreases n,
{
    if n >= 10 {
        push_decimal(s, n / 10);
        s.append(digit_str(n % 10));
        assert(final(s)@ =~= old(s)@ + decimal(n as nat));
    } else {
        s.append(digit_str(n));
    }
}

/// Appends `n - 1` in decimal; for a count of zero that is `-1`.
pub fn push_predecessor(s: &mut String, n: u32)
    ensures
        final(s)@ == old(s)@ + int_text(n - 1),
{
    if n == 0 {
        s.append("-");
        push_decimal(s, 1);
        assert(final(s)@ =~= old(s)@ + int_text(n - 1));
    } else {
        push_decimal(s, n - 1);
    }
}

/// Appends a byte as `\x` and two hexadecimal digits.
pub fn push_byte_escape(s: &mut String, b: u8)
    ensures
        final(s)@ == old(s)@ + byte_escape(b),
{
    s.append("\\x");
    s.append(digit_str((b / 16) as u32));
    s.append(digit_str((b % 16) as u32));
    assert(final(s)@ =~= old(s)@ + byte_escape(b));
}

/// Relies on `char::to_string`: a string of that one character.
#[verifier::external_body]
pub(crate) fn char_text(c: char) -> (r: String)
    ensures
        r@ == seq![c],
{
    c.to_string()
}

/// The piece of `pattern` that `span` covers, where the span lies inside
/// it and both its ends fall between characters; `None` otherwise.
pub fn recover(pattern: &str, span: &Span) -> (r: Option<String>)
    ensures
        span_ok(pattern@, *span) <==> r is Some,
        r is Some ==> r->Some_0@ == span_text(pattern@, *span),
{
    broadcast use group_utf8_lib;

    let ghost bytes = bytes_of(pattern@);
    let len = pattern.as_bytes().len();
    if !(span.start <= span.end && span.end <= len) {
        return None;
    }
    if !pattern.is_char_boundary(span.start) || !pattern.is_char_boundary(span.end) {
        return None;
    }
    let (_, rest) = pattern.split_at(span.start);
    let ghost rb = rest.spec_bytes();
    let k = span.end - span.start;
    proof {
        assert(rb =~= bytes.subrange(span.start as int, bytes.len() as int));
        if k == 0 {
        } else if span.end == len {
            assert(rb.len() == k);
        } else {
            assert(rb[k as int] == bytes[span.end as int]);
            is_char_boundary_iff_not_is_continuation_byte(bytes, span.end as int);
            is_char_boundary_iff_not_is_continuation_byte(rb, k as int);
        }
    }
    let (mid, _) = rest.split_at(k);
    proof {
        assert(mid.spec_bytes() =~= bytes.subrange(span.start as int, span.end as int));
    }
    Some(mid.to_owned())
}

} // verus!
