//! Outgoing HTTP requests as plain values, and the
//! `application/x-www-form-urlencoded` body format.

use vstd::prelude::*;
use vstd::utf8::{decode_utf8, encode_utf8, encode_utf8_decode_utf8};
use crate::text::digit_char;

verus! {

/// The `Content-Type` of a form body.
pub const FORM_CONTENT_TYPE: &'static str = "application/x-www-form-urlencoded";

/// The `Content-Type` of a JSON body.
pub const JSON_CONTENT_TYPE: &'static str = "application/json";

/// An HTTP `POST` request, ready to be sent: where to, with which bearer
/// token (if any), which content type, and which body.
pub struct HttpRequest {
    pub url: String,
    pub bearer_token: Option<String>,
    pub content_type: String,
    pub body: String,
}

/// Bytes that the form serializer copies unchanged: ASCII letters and digits,
/// `*`, `-`, `.` and `_`.
pub open spec fn form_byte_unchanged(b: u8) -> bool {
    ||| b == 42
    ||| b == 45
    ||| b == 46
    ||| 48 <= b <= 57
    ||| 65 <= b <= 90
    ||| b == 95
    ||| 97 <= b <= 122
}

/// The uppercase hexadecimal digit of a value below 16.
pub open spec fn upper_hex_char(d: nat) -> char
    recommends
        d < 16,
{
    if d < 10 {
        digit_char(d)
    } else {
        (55 + d) as char
    }
}

/// How the form serializer spells one byte: unchanged, `+` for a space, or
/// `%XX` with uppercase hexadecimal digits.
pub open spec fn form_byte(b: u8) -> Seq<char> {
    if form_byte_unchanged(b) {
        seq![b as char]
    } else if b == 32 {
        seq!['+']
    } else {
        seq!['%', upper_hex_char((b / 16) as nat), upper_hex_char((b % 16) as nat)]
    }
}

/// The form spelling of a byte sequence.
pub open spec fn form_bytes(bytes: Seq<u8>) -> Seq<char>
    decreases bytes.len(),
{
    if bytes.len() == 0 {
        Seq::empty()
    } else {
        form_bytes(bytes.drop_last()) + form_byte(bytes.last())
    }
}

/// The form spelling of a text: that of its UTF-8 bytes.
pub open spec fn form_component(s: Seq<char>) -> Seq<char> {
    form_bytes(encode_utf8(s))
}

/// One `name=value` pair of a form body.
pub open spec fn form_pair(pair: (Seq<char>, Seq<char>)) -> Seq<char> {
    form_component(pair.0) + seq!['='] + form_component(pair.1)
}

/// A form body: the pairs in order, separated by `&`.
pub open spec fn form_pairs(pairs: Seq<(Seq<char>, Seq<char>)>) -> Seq<char>
    decreases pairs.len(),
{
    if pairs.len() == 0 {
        Seq::empty()
    } else if pairs.len() == 1 {
        form_pair(pairs[0])
    } else {
        form_pairs(pairs.drop_last()) + seq!['&'] + form_pair(pairs.last())
    }
}

/// The views of a list of string pairs.
pub open spec fn pair_views(pairs: Seq<(String, String)>) -> Seq<(Seq<char>, Seq<char>)> {
    pairs.map_values(|p: (String, String)| (p.0@, p.1@))
}

#[verifier::external_type_specification]
#[verifier::external_body]
pub struct ExUrlEncodeError(serde_urlencoded::ser::Error);

/// Calls `serde_urlencoded::to_string` on a list of string pairs. Serializing
/// a sequence of two-string tuples cannot fail there, and each pair is
/// written by `form_urlencoded`'s `append_pair`: the two components through
/// `byte_serialize`, joined by `=`, the pairs joined by `&`. The contract
/// states that result.
#[verifier::external_body]
pub(crate) fn form_urlencode(pairs: &Vec<(String, String)>) -> (res: Result<String, serde_urlencoded::ser::Error>)
    ensures
        res is Ok,
        res matches Ok(body) ==> body@ == form_pairs(pair_views(pairs@)),
{
    serde_urlencoded::to_string(pairs)
}

/// The value of a hexadecimal digit, either case.
pub open spec fn hex_value(c: char) -> Option<int> {
    if '0' <= c && c <= '9' {
        Some(c as int - 48)
    } else if 'A' <= c && c <= 'F' {
        Some(c as int - 55)
    } else if 'a' <= c && c <= 'f' {
        Some(c as int - 87)
    } else {
        None
    }
}

/// The bytes of a form component: `+` is a space, `%XX` the byte `XX`,
/// any other character its own code.
pub open spec fn form_unbytes(cs: Seq<char>) -> Seq<u8>
    decreases cs.len(),
{
    if cs.len() == 0 {
        Seq::empty()
    } else if cs[0] == '+' {
        seq![32u8] + form_unbytes(cs.drop_first())
    } else if cs[0] == '%' && cs.len() >= 3 && hex_value(cs[1]) is Some && hex_value(cs[2]) is Some {
        seq![(16 * hex_value(cs[1])->0 + hex_value(cs[2])->0) as u8] + form_unbytes(cs.subrange(3, cs.len() as int))
    } else {
        seq![cs[0] as u8] + form_unbytes(cs.drop_first())
    }
}

/// The text of a form component: its bytes read as UTF-8.
pub open spec fn form_uncomponent(cs: Seq<char>) -> Seq<char> {
    decode_utf8(form_unbytes(cs))
}

/// The pieces of `cs` between the separators `sep`.
pub open spec fn split_on(cs: Seq<char>, sep: char) -> Seq<Seq<char>>
    decreases cs.len(),
{
    if cs.len() == 0 {
        seq![Seq::empty()]
    } else if cs.last() == sep {
        split_on(cs.drop_last(), sep).push(Seq::empty())
    } else {
        let pieces = split_on(cs.drop_last(), sep);
        pieces.update(pieces.len() - 1, pieces.last().push(cs.last()))
    }
}

/// One `name=value` pair read back from its form text.
pub open spec fn form_unpair(part: Seq<char>) -> (Seq<char>, Seq<char>) {
    let fields = split_on(part, '=');
    (form_uncomponent(fields[0]), form_uncomponent(fields[1]))
}

/// The pairs read back from a form body: the `&`-separated parts, each split
/// at `=`, each side decoded.
pub open spec fn form_decode(body: Seq<char>) -> Seq<(Seq<char>, Seq<char>)> {
    if body.len() == 0 {
        Seq::empty()
    } else {
        split_on(body, '&').map_values(|part: Seq<char>| form_unpair(part))
    }
}

proof fn lemma_split_on_length(cs: Seq<char>, sep: char)
    ensures
        split_on(cs, sep).len() >= 1,
    decreases cs.len(),
{
    if cs.len() > 0 {
        lemma_split_on_length(cs.drop_last(), sep);
    }
}

proof fn lemma_split_on_without_sep(a: Seq<char>, b: Seq<char>, sep: char)
    requires
        !b.contains(sep),
    ensures
        split_on(b, sep) == seq![b],
        split_on(a + seq![sep] + b, sep) == split_on(a, sep).push(b),
    decreases b.len(),
{
    lemma_split_on_length(a, sep);
    if b.len() == 0 {
        assert(b =~= Seq::<char>::empty());
        assert(a + seq![sep] + b =~= a.push(sep));
        assert((a + seq![sep] + b).drop_last() =~= a);
        assert((a + seq![sep] + b).last() == sep);
        assert(split_on(b, sep) =~= seq![b]);
        assert(split_on(a + seq![sep] + b, sep) =~= split_on(a, sep).push(b));
    } else {
        let c = b.last();
        let b0 = b.drop_last();
        assert(!b0.contains(sep)) by {
            if b0.contains(sep) {
                let i = choose|i: int| 0 <= i < b0.len() && b0[i] == sep;
                assert(b[i] == sep);
            }
        }
        assert(c != sep) by {
            assert(b[b.len() - 1] == c);
        }
        lemma_split_on_without_sep(a, b0, sep);
        assert(b.drop_last() =~= b0);
        assert((a + seq![sep] + b).drop_last() =~= a + seq![sep] + b0);
        assert((a + seq![sep] + b).last() == c);
        assert(b0.push(c) =~= b);
        assert(split_on(b, sep) == split_on(b0, sep).update(0, b0.push(c)));
        assert(split_on(b, sep) =~= seq![b]);
        let pieces = split_on(a + seq![sep] + b0, sep);
        assert(split_on(a + seq![sep] + b, sep) == pieces.update(pieces.len() - 1, pieces.last().push(c)));
        assert(split_on(a + seq![sep] + b, sep) =~= split_on(a, sep).push(b));
    }
}

proof fn lemma_form_bytes_concat(a: Seq<u8>, b: Seq<u8>)
    ensures
        form_bytes(a + b) == form_bytes(a) + form_bytes(b),
    decreases b.len(),
{
    if b.len() == 0 {
        assert(a + b =~= a);
        assert(form_bytes(a) + form_bytes(b) =~= form_bytes(a));
    } else {
        lemma_form_bytes_concat(a, b.drop_last());
        assert((a + b).drop_last() =~= a + b.drop_last());
        assert((a + b).last() == b.last());
        assert(form_bytes(a + b) =~= form_bytes(a) + form_bytes(b));
    }
}

proof fn lemma_upper_hex_value(d: nat)
    requires
        d < 16,
    ensures
        hex_value(upper_hex_char(d)) == Some(d as int),
{
}

proof fn lemma_form_byte_decodes(x: u8, rest: Seq<char>)
    ensures
        form_unbytes(form_byte(x) + rest) == seq![x] + form_unbytes(rest),
{
    let cs = form_byte(x) + rest;
    if form_byte_unchanged(x) {
        assert(cs.drop_first() =~= rest);
        assert(cs[0] == x as char);
    } else if x == 32 {
        assert(cs.drop_first() =~= rest);
    } else {
        lemma_upper_hex_value((x / 16) as nat);
        lemma_upper_hex_value((x % 16) as nat);
        assert(cs[0] == '%');
        assert(cs.subrange(3, cs.len() as int) =~= rest);
        assert((16 * hex_value(cs[1])->0 + hex_value(cs[2])->0) as u8 == x);
    }
}

proof fn lemma_form_bytes_decode(bytes: Seq<u8>)
    ensures
        form_unbytes(form_bytes(bytes)) == bytes,
    decreases bytes.len(),
{
    if bytes.len() == 0 {
        assert(form_bytes(bytes) =~= Seq::<char>::empty());
    } else {
        let rest = bytes.drop_first();
        lemma_form_bytes_decode(rest);
        assert(bytes =~= seq![bytes[0]] + rest);
        lemma_form_bytes_concat(seq![bytes[0]], rest);
        assert(seq![bytes[0]].drop_last() =~= Seq::<u8>::empty());
        assert(form_bytes(seq![bytes[0]]) =~= form_byte(bytes[0])) by {
            reveal_with_fuel(form_bytes, 2);
        }
        lemma_form_byte_decodes(bytes[0], form_bytes(rest));
        assert(form_unbytes(form_bytes(bytes)) =~= bytes);
    }
}

proof fn lemma_form_bytes_have_no(bytes: Seq<u8>, sep: char)
    requires
        sep == '&' || sep == '=',
    ensures
        !form_bytes(bytes).contains(sep),
    decreases bytes.len(),
{
    if bytes.len() > 0 {
        lemma_form_bytes_have_no(bytes.drop_last(), sep);
        let b = bytes.last();
        let cs = form_bytes(bytes);
        let head = form_bytes(bytes.drop_last());
        assert(cs == head + form_byte(b));
        if cs.contains(sep) {
            let i = choose|i: int| 0 <= i < cs.len() && cs[i] == sep;
            if i < head.len() {
                assert(head[i] == sep);
            } else {
                assert(form_byte(b)[i - head.len()] == sep);
            }
        }
    }
}

/// A form component reads back as the text it was written from.
pub proof fn lemma_form_component_decodes(s: Seq<char>)
    ensures
        form_uncomponent(form_component(s)) == s,
        !form_component(s).contains('&'),
        !form_component(s).contains('='),
{
    lemma_form_bytes_decode(encode_utf8(s));
    encode_utf8_decode_utf8(s);
    lemma_form_bytes_have_no(encode_utf8(s), '&');
    lemma_form_bytes_have_no(encode_utf8(s), '=');
}

proof fn lemma_form_pair_decodes(pair: (Seq<char>, Seq<char>))
    ensures
        form_unpair(form_pair(pair)) == pair,
        !form_pair(pair).contains('&'),
{
    lemma_form_component_decodes(pair.0);
    lemma_form_component_decodes(pair.1);
    lemma_split_on_without_sep(form_component(pair.0), form_component(pair.1), '=');
    lemma_split_on_without_sep(Seq::empty(), form_component(pair.0), '=');
    let text = form_pair(pair);
    if text.contains('&') {
        let i = choose|i: int| 0 <= i < text.len() && text[i] == '&';
        let k = form_component(pair.0);
        if i < k.len() {
            assert(k[i] == '&');
        } else if i > k.len() {
            assert(form_component(pair.1)[i - k.len() - 1] == '&');
        }
    }
}

/// A form body reads back as the pairs it was written from: splitting at `&`
/// and `=` and decoding each side gives every pair, in order.
pub proof fn lemma_form_body_decodes_to_its_pairs(pairs: Seq<(Seq<char>, Seq<char>)>)
    ensures
        form_decode(form_pairs(pairs)) == pairs,
    decreases pairs.len(),
{
    if pairs.len() == 0 {
    } else if pairs.len() == 1 {
        lemma_form_pair_decodes(pairs[0]);
        lemma_split_on_without_sep(Seq::empty(), form_pair(pairs[0]), '&');
        let text = form_pair(pairs[0]);
        assert(text.len() > 0) by {
            assert(text[form_component(pairs[0].0).len() as int] == '=');
        }
        assert(form_decode(form_pairs(pairs)) =~= pairs);
    } else {
        let init = pairs.drop_last();
        let last = pairs.last();
        lemma_form_body_decodes_to_its_pairs(init);
        lemma_form_pair_decodes(last);
        lemma_split_on_without_sep(form_pairs(init), form_pair(last), '&');
        let body = form_pairs(pairs);
        assert(body == form_pairs(init) + seq!['&'] + form_pair(last));
        assert(body.len() > 0);
        assert(form_pairs(init).len() > 0) by {
            assert(form_decode(form_pairs(init)).len() == init.len());
        }
        let parts = split_on(form_pairs(init), '&');
        assert(split_on(body, '&') == parts.push(form_pair(last)));
        assert(form_decode(form_pairs(init)) == parts.map_values(|part: Seq<char>| form_unpair(part)));
        assert(parts.push(form_pair(last)).map_values(|part: Seq<char>| form_unpair(part))
            =~= parts.map_values(|part: Seq<char>| form_unpair(part)).push(form_unpair(form_pair(last))));
        assert(init.push(last) =~= pairs);
        assert(form_decode(body) =~= pairs);
    }
}

} // verus!
