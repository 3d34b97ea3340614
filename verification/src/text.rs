//! Text building blocks: decimal numbers and JSON string literals.

use vstd::prelude::*;
use crate::http::hex_value;

verus! {

/// The ASCII character of a decimal digit.
pub open spec fn digit_char(d: nat) -> char
    recommends
        d < 10,
{
    (48 + d) as char
}

/// Decimal representation of a natural number, most significant digit first.
pub open spec fn decimal(n: nat) -> Seq<char>
    decreases n,
{
    if n < 10 {
        seq![digit_char(n)]
    } else {
        decimal(n / 10).push(digit_char(n % 10))
    }
}

/// Decimal representation of a signed integer, with a leading `-` when negative.
pub open spec fn signed_decimal(n: int) -> Seq<char> {
    if n < 0 {
        seq!['-'] + decimal((-n) as nat)
    } else {
        decimal(n as nat)
    }
}

/// Appends one character to a string.
#[verifier::external_body]
pub(crate) fn push_char(s: &mut String, c: char)
    ensures
        final(s)@ == old(s)@.push(c),
{
    s.push(c);
}

fn digit(d: u64) -> (c: char)
    requires
        d < 10,
    ensures
        c == digit_char(d as nat),
{
    let b: u8 = 48u8 + (d as u8);
    b as char
}

/// Appends the decimal representation of `n` to `out`.
pub fn push_decimal(out: &mut String, n: u64)
    ensures
        final(out)@ == old(out)@ + decimal(n as nat),
    decreases n,
{
    if n >= 10 {
        push_decimal(out, n / 10);
    }
    push_char(out, digit(n % 10));
    proof {
        if n >= 10 {
            assert(decimal(n as nat) == decimal((n / 10) as nat).push(digit_char((n % 10) as nat)));
        }
    }
}

/// Appends the decimal representation of a signed integer to `out`.
pub fn push_signed_decimal(out: &mut String, n: i64)
    ensures
        final(out)@ == old(out)@ + signed_decimal(n as int),
{
    if n < 0 {
        push_char(out, '-');
        let magnitude: i128 = 0i128 - (n as i128);
        push_decimal(out, magnitude as u64);
        assert(final(out)@ == old(out)@ + (seq!['-'] + decimal((-n) as nat)));
    } else {
        push_decimal(out, n as u64);
    }
}

/// The lowercase hexadecimal digit of a value below 16.
pub open spec fn hex_char(d: nat) -> char
    recommends
        d < 16,
{
    if d < 10 {
        digit_char(d)
    } else {
        (87 + d) as char
    }
}

/// How a JSON writer spells one character inside a string literal: quote and
/// backslash are escaped, the control characters with a short form take it,
/// the other control characters become `\u00XX`, everything else stands as is.
pub open spec fn json_escape_char(c: char) -> Seq<char> {
    if c == '"' {
        seq!['\\', '"']
    } else if c == '\\' {
        seq!['\\', '\\']
    } else if c == '\u{08}' {
        seq!['\\', 'b']
    } else if c == '\t' {
        seq!['\\', 't']
    } else if c == '\n' {
        seq!['\\', 'n']
    } else if c == '\u{0C}' {
        seq!['\\', 'f']
    } else if c == '\r' {
        seq!['\\', 'r']
    } else if (c as u32) < 0x20 {
        seq!['\\', 'u', '0', '0', hex_char(((c as u32) / 16) as nat), hex_char(((c as u32) % 16) as nat)]
    } else {
        seq![c]
    }
}

/// The escaped body of a JSON string literal.
pub open spec fn json_escape(s: Seq<char>) -> Seq<char>
    decreases s.len(),
{
    if s.len() == 0 {
        Seq::empty()
    } else {
        json_escape(s.drop_last()) + json_escape_char(s.last())
    }
}

/// A JSON string literal: the escaped text between double quotes.
pub open spec fn json_string(s: Seq<char>) -> Seq<char> {
    seq!['"'] + json_escape(s) + seq!['"']
}

fn hex(d: u32) -> (c: char)
    requires
        d < 16,
    ensures
        c == hex_char(d as nat),
{
    if d < 10 {
        digit(d as u64)
    } else {
        let b: u8 = 87u8 + (d as u8);
        b as char
    }
}

fn push_escaped_char(out: &mut String, c: char)
    ensures
        final(out)@ == old(out)@ + json_escape_char(c),
{
    let code: u32 = c as u32;
    if c == '"' {
        push_char(out, '\\');
        push_char(out, '"');
    } else if c == '\\' {
        push_char(out, '\\');
        push_char(out, '\\');
    } else if c == '\u{08}' {
        push_char(out, '\\');
        push_char(out, 'b');
    } else if c == '\t' {
        push_char(out, '\\');
        push_char(out, 't');
    } else if c == '\n' {
        push_char(out, '\\');
        push_char(out, 'n');
    } else if c == '\u{0C}' {
        push_char(out, '\\');
        push_char(out, 'f');
    } else if c == '\r' {
        push_char(out, '\\');
        push_char(out, 'r');
    } else if code < 0x20 {
        push_char(out, '\\');
        push_char(out, 'u');
        push_char(out, '0');
        push_char(out, '0');
        push_char(out, hex(code / 16));
        push_char(out, hex(code % 16));
    } else {
        push_char(out, c);
    }
    assert(final(out)@ =~= old(out)@ + json_escape_char(c));
}

/// The character a JSON simple escape `\e` stands for, if `e` is one.
pub open spec fn json_simple_escape(e: char) -> Option<char> {
    if e == '"' {
        Some('"')
    } else if e == '\\' {
        Some('\\')
    } else if e == '/' {
        Some('/')
    } else if e == 'b' {
        Some('\u{08}')
    } else if e == 'f' {
        Some('\u{0C}')
    } else if e == 'n' {
        Some('\n')
    } else if e == 'r' {
        Some('\r')
    } else if e == 't' {
        Some('\t')
    } else {
        None
    }
}

/// Prepends `c` to a read-back text, keeping a failure.
pub open spec fn prepend_read(c: char, rest: Option<Seq<char>>) -> Option<Seq<char>> {
    match rest {
        Some(r) => Some(seq![c] + r),
        None => None,
    }
}

/// Reads the body of a JSON string literal back into its text, as a JSON
/// reader does: the escapes `\"`, `\\`, `\/`, `\b`, `\f`, `\n`, `\r`, `\t` and
/// `\uXXXX` (a code point outside the surrogates) stand for their character,
/// any other character other than `"`, `\` and the control characters
/// below U+0020 for itself; anything else is not a valid body (`None`).
pub open spec fn json_unescape(cs: Seq<char>) -> Option<Seq<char>>
    decreases cs.len(),
{
    if cs.len() == 0 {
        Some(Seq::empty())
    } else if cs[0] == '\\' {
        if cs.len() < 2 {
            None
        } else if json_simple_escape(cs[1]) is Some {
            prepend_read(json_simple_escape(cs[1])->0, json_unescape(cs.subrange(2, cs.len() as int)))
        } else if cs[1] == 'u' && cs.len() >= 6 && hex_value(cs[2]) is Some && hex_value(cs[3]) is Some
            && hex_value(cs[4]) is Some && hex_value(cs[5]) is Some {
            let code = 4096 * hex_value(cs[2])->0 + 256 * hex_value(cs[3])->0 + 16 * hex_value(cs[4])->0
                + hex_value(cs[5])->0;
            if 0xD800 <= code <= 0xDFFF {
                None
            } else {
                prepend_read(code as char, json_unescape(cs.subrange(6, cs.len() as int)))
            }
        } else {
            None
        }
    } else if cs[0] == '"' || (cs[0] as u32) < 0x20 {
        None
    } else {
        prepend_read(cs[0], json_unescape(cs.drop_first()))
    }
}

/// Reads a JSON string literal back into its text: the body between the
/// two quotes, unescaped; `None` when it is not a valid literal.
pub open spec fn json_unquote(cs: Seq<char>) -> Option<Seq<char>> {
    if cs.len() >= 2 && cs[0] == '"' && cs.last() == '"' {
        json_unescape(cs.subrange(1, cs.len() - 1))
    } else {
        None
    }
}

proof fn lemma_json_escape_concat(a: Seq<char>, b: Seq<char>)
    ensures
        json_escape(a + b) == json_escape(a) + json_escape(b),
    decreases b.len(),
{
    if b.len() == 0 {
        assert(a + b =~= a);
        assert(json_escape(a) + json_escape(b) =~= json_escape(a));
    } else {
        lemma_json_escape_concat(a, b.drop_last());
        assert((a + b).drop_last() =~= a + b.drop_last());
        assert((a + b).last() == b.last());
        assert(json_escape(a + b) =~= json_escape(a) + json_escape(b));
    }
}

proof fn lemma_hex_char_value(d: nat)
    requires
        d < 16,
    ensures
        hex_value(hex_char(d)) == Some(d as int),
{
}

proof fn lemma_json_escape_char_reads_back(c: char, rest: Seq<char>)
    ensures
        json_unescape(json_escape_char(c) + rest) == prepend_read(c, json_unescape(rest)),
{
    let cs = json_escape_char(c) + rest;
    let code = c as u32;
    if c == '"' || c == '\\' || c == '\u{08}' || c == '\t' || c == '\n' || c == '\u{0C}' || c == '\r' {
        assert(cs.subrange(2, cs.len() as int) =~= rest);
    } else if code < 0x20 {
        lemma_hex_char_value((code / 16) as nat);
        lemma_hex_char_value((code % 16) as nat);
        lemma_hex_char_value(0);
        assert(cs[0] == '\\' && cs[1] == 'u' && cs[2] == '0' && cs[3] == '0');
        assert(cs.subrange(6, cs.len() as int) =~= rest);
        assert(4096 * 0 + 256 * 0 + 16 * ((code / 16) as int) + (code % 16) as int == code as int);
        vstd::utf8::char_u32_cast(c, code);
    } else {
        assert(cs.drop_first() =~= rest);
    }
}

/// The body of a JSON string literal reads back as the text it was written
/// from.
pub proof fn lemma_json_escape_reads_back(s: Seq<char>)
    ensures
        json_unescape(json_escape(s)) == Some(s),
    decreases s.len(),
{
    if s.len() == 0 {
    } else {
        let rest = s.drop_first();
        lemma_json_escape_reads_back(rest);
        assert(s =~= seq![s[0]] + rest);
        lemma_json_escape_concat(seq![s[0]], rest);
        assert(json_escape(seq![s[0]]) =~= json_escape_char(s[0])) by {
            reveal_with_fuel(json_escape, 2);
            assert(seq![s[0]].drop_last() =~= Seq::<char>::empty());
        }
        lemma_json_escape_char_reads_back(s[0], json_escape(rest));
        assert(seq![s[0]] + rest =~= s);
    }
}

/// A JSON string literal is a valid literal that reads back as the text it
/// was written from, for every text: only JSON's escapes are written, and no
/// character is lost, added or changed.
pub proof fn lemma_json_string_reads_back(s: Seq<char>)
    ensures
        json_unquote(json_string(s)) == Some(s),
{
    lemma_json_escape_reads_back(s);
    let lit = json_string(s);
    assert(lit.subrange(1, lit.len() - 1) =~= json_escape(s));
}

/// Appends `s` as a JSON string literal to `out`.
pub fn push_json_string(out: &mut String, s: &str)
    ensures
        final(out)@ == old(out)@ + json_string(s@),
        json_unquote(final(out)@.subrange(old(out)@.len() as int, final(out)@.len() as int)) == Some(s@),
{
    let ghost start = out@;
    push_char(out, '"');
    assert(s@.take(0) =~= Seq::<char>::empty());
    for c in it: s.chars()
        invariant
            it.seq() == s@,
            out@ == start + seq!['"'] + json_escape(s@.take(it.index() as int)),
    {
        let ghost i = it.index();
        push_escaped_char(out, c);
        proof {
            assert(s@.take(i + 1).drop_last() =~= s@.take(i as int));
            assert(s@.take(i + 1).last() == c);
        }
    }
    assert(s@.take(s@.len() as int) =~= s@);
    push_char(out, '"');
    assert(out@ =~= start + json_string(s@));
    proof {
        lemma_json_string_reads_back(s@);
        assert(out@.subrange(start.len() as int, out@.len() as int) =~= json_string(s@));
    }
}

} // verus!
