//! Integers written out as text, in base ten and in base sixteen.

use vstd::prelude::*;

verus! {

/// The character that stands for a digit below sixteen, in lower case.
pub open spec fn digit_char(d: nat) -> char {
    if d == 0 {
        '0'
    } else if d == 1 {
        '1'
    } else if d == 2 {
        '2'
    } else if d == 3 {
        '3'
    } else if d == 4 {
        '4'
    } else if d == 5 {
        '5'
    } else if d == 6 {
        '6'
    } else if d == 7 {
        '7'
    } else if d == 8 {
        '8'
    } else if d == 9 {
        '9'
    } else if d == 10 {
        'a'
    } else if d == 11 {
        'b'
    } else if d == 12 {
        'c'
    } else if d == 13 {
        'd'
    } else if d == 14 {
        'e'
    } else {
        'f'
    }
}

/// The digits of `n` in the given base, most significant first, without
/// leading zeros; zero is the single digit `0`.
pub open spec fn digits(n: nat, base: nat) -> Seq<char>
    recommends
        2 <= base <= 16,
    decreases n,
    via digits_decreases
{
    if n < base || base < 2 {
        seq![digit_char(n)]
    } else {
        digits(n / base, base).push(digit_char(n % base))
    }
}

#[via_fn]
proof fn digits_decreases(n: nat, base: nat) {
    if !(n < base || base < 2) {
        lemma_quotient_smaller(n, base);
    }
}

/// Dividing a number by a base of two or more makes it smaller, unless it is
/// zero.
proof fn lemma_quotient_smaller(n: nat, base: nat)
    requires
        2 <= base,
        0 < n,
    ensures
        n / base < n,
{
    assert(n / base < n) by (nonlinear_arith)
        requires
            2 <= base,
            0 < n,
    ;
}

/// A signed integer in base ten, with a minus sign in front of a negative one.
pub open spec fn decimal(i: int) -> Seq<char> {
    if i < 0 {
        seq!['-'] + digits((-i) as nat, 10)
    } else {
        digits(i as nat, 10)
    }
}

/// A natural number in base sixteen, in lower case.
pub open spec fn hex(n: nat) -> Seq<char> {
    digits(n, 16)
}

/// Whether a text is made of ASCII characters and holds no zero character.
pub open spec fn plain(text: Seq<char>) -> bool {
    forall|i: int| 0 <= i < text.len() ==> '\u{1}' <= #[trigger] text[i] <= '\u{7f}'
}

/// The digits of a number are plain text.
pub proof fn lemma_digits_are_plain(n: nat, base: nat)
    requires
        2 <= base <= 16,
    ensures
        plain(digits(n, base)),
    decreases n,
{
    if n >= base {
        lemma_quotient_smaller(n, base);
        lemma_digits_are_plain(n / base, base);
    }
}

/// A number in base sixteen is plain text.
pub proof fn lemma_hex_is_plain(n: nat)
    ensures
        plain(hex(n)),
{
    lemma_digits_are_plain(n, 16);
}

/// Two plain texts in a row are plain text.
pub proof fn lemma_plain_concat(front: Seq<char>, back: Seq<char>)
    requires
        plain(front),
        plain(back),
    ensures
        plain(front + back),
{
}

/// The UTF-8 encoding of plain text holds no zero byte.
pub proof fn lemma_plain_has_no_nul(text: Seq<char>)
    requires
        plain(text),
    ensures
        crate::encoding::utf8::no_nul(vstd::utf8::encode_utf8(text)),
{
    assert(vstd::utf8::is_ascii_chars(text));
    vstd::utf8::is_ascii_chars_encode_utf8(text);
    let bytes = vstd::utf8::encode_utf8(text);
    assert forall|i: int| 0 <= i < bytes.len() implies bytes[i] != 0 by {
        let c = text[i];
        assert(c as u8 == bytes[i]);
        assert('\u{1}' <= c <= '\u{7f}');
    }
}

/// The one-character text of a digit below sixteen.
fn digit_str(d: u64) -> (s: &'static str)
    requires
        d < 16,
    ensures
        s@ == seq![digit_char(d as nat)],
{
    proof {
        reveal_strlit("0");
        reveal_strlit("1");
        reveal_strlit("2");
        reveal_strlit("3");
        reveal_strlit("4");
        reveal_strlit("5");
        reveal_strlit("6");
        reveal_strlit("7");
        reveal_strlit("8");
        reveal_strlit("9");
        reveal_strlit("a");
        reveal_strlit("b");
        reveal_strlit("c");
        reveal_strlit("d");
        reveal_strlit("e");
        reveal_strlit("f");
    }
    let s = if d == 0 {
        "0"
    } else if d == 1 {
        "1"
    } else if d == 2 {
        "2"
    } else if d == 3 {
        "3"
    } else if d == 4 {
        "4"
    } else if d == 5 {
        "5"
    } else if d == 6 {
        "6"
    } else if d == 7 {
        "7"
    } else if d == 8 {
        "8"
    } else if d == 9 {
        "9"
    } else if d == 10 {
        "a"
    } else if d == 11 {
        "b"
    } else if d == 12 {
        "c"
    } else if d == 13 {
        "d"
    } else if d == 14 {
        "e"
    } else {
        "f"
    };
    assert(s@ =~= seq![digit_char(d as nat)]);
    s
}

/// Appends the digits of `n` in the given base to `out`.
pub fn push_digits(out: &mut String, n: u64, base: u64)
    requires
        2 <= base <= 16,
    ensures
        final(out)@ == old(out)@ + digits(n as nat, base as nat),
    decreases n,
{
    if n < base {
        out.append(digit_str(n));
    } else {
        proof {
            lemma_quotient_smaller(n as nat, base as nat);
        }
        push_digits(out, n / base, base);
        out.append(digit_str(n % base));
        assert(final(out)@ =~= old(out)@ + digits(n as nat, base as nat));
    }
}

/// Appends a signed integer in base ten to `out`.
pub fn push_decimal(out: &mut String, i: i32)
    ensures
        final(out)@ == old(out)@ + decimal(i as int),
{
    if i < 0 {
        proof {
            reveal_strlit("-");
        }
        out.append("-");
        let wide: i64 = i as i64;
        let magnitude: u64 = (0 - wide) as u64;
        push_digits(out, magnitude, 10);
        assert(final(out)@ =~= old(out)@ + decimal(i as int));
    } else {
        push_digits(out, i as u64, 10);
    }
}

/// Appends a number in lower-case base sixteen to `out`.
pub fn push_hex(out: &mut String, n: u64)
    ensures
        final(out)@ == old(out)@ + hex(n as nat),
{
    push_digits(out, n, 16);
}

} // verus!
