//! Query strings in the `application/x-www-form-urlencoded` syntax.
//!
//! A query string lists the parameters in insertion order as `name=value`,
//! joined by `&`. Names and values are written as their UTF-8 bytes: letters,
//! digits and `*`, `-`, `.`, `_` stand for themselves, a space becomes `+`,
//! and every other byte becomes `%` and two upper-case hexadecimal digits.

use vstd::prelude::*;
use vstd::string::StringExecFns;
use vstd::utf8::{
    decode_utf8, encode_utf8, encode_utf8_decode_utf8, is_ascii_chars, is_ascii_chars_encode_utf8,
};
use crate::string_map::{pairs_view, Entries, StringMap};

verus! {

/// The bytes that the encoding leaves as they are.
pub open spec fn is_unreserved(byte: u8) -> bool {
    ||| byte == 0x2a
    ||| byte == 0x2d
    ||| byte == 0x2e
    ||| 0x30 <= byte <= 0x39
    ||| 0x41 <= byte <= 0x5a
    ||| byte == 0x5f
    ||| 0x61 <= byte <= 0x7a
}

/// The upper-case hexadecimal digit for a value below 16.
pub open spec fn hex_upper(digit: u8) -> char {
    if digit < 10 {
        ((0x30 + digit) as u8) as char
    } else {
        ((0x37 + digit) as u8) as char
    }
}

/// The encoding of one byte.
pub open spec fn escape_byte(byte: u8) -> Seq<char> {
    if is_unreserved(byte) {
        seq![byte as char]
    } else if byte == 0x20 {
        seq!['+']
    } else {
        seq!['%', hex_upper(byte / 16), hex_upper(byte % 16)]
    }
}

/// The encoding of a byte sequence: the encodings of its bytes, in order.
pub open spec fn escape_bytes(bytes: Seq<u8>) -> Seq<char>
    decreases bytes.len(),
{
    if bytes.len() == 0 {
        seq![]
    } else {
        escape_byte(bytes[0]) + escape_bytes(bytes.drop_first())
    }
}

/// The encoding of a name or a value.
pub open spec fn escape_text(text: Seq<char>) -> Seq<char> {
    escape_bytes(encode_utf8(text))
}

/// The encoding of one parameter.
pub open spec fn encode_pair(pair: (Seq<char>, Seq<char>)) -> Seq<char> {
    escape_text(pair.0) + seq!['='] + escape_text(pair.1)
}

/// The encoding of a list of parameters, joined by `&`.
pub open spec fn encode_pairs(pairs: Entries) -> Seq<char>
    decreases pairs.len(),
{
    if pairs.len() == 0 {
        seq![]
    } else if pairs.len() == 1 {
        encode_pair(pairs[0])
    } else {
        encode_pair(pairs[0]) + seq!['&'] + encode_pairs(pairs.drop_first())
    }
}

/// The query string of a request: `?` and the encoded parameters where
/// parameters are given, and nothing where none are.
pub open spec fn query_string(params: Option<Entries>) -> Seq<char> {
    match params {
        Some(pairs) => seq!['?'] + encode_pairs(pairs),
        None => seq![],
    }
}

/// The model of an optional mapping.
pub open spec fn optional_entries(params: Option<&StringMap>) -> Option<Entries> {
    match params {
        Some(map) => Some(map@),
        None => None,
    }
}

/// Calls `form_urlencoded::Serializer` of the `url` crate: a new serializer
/// on an empty string, `extend_pairs` with the pairs, then `finish`. The
/// serializer appends each pair as its encoded name, `=` and its encoded
/// value, with `&` before every pair but the first; `encode_pairs` says the
/// same.
#[verifier::external_body]
fn form_urlencode(pairs: &Vec<(String, String)>) -> (text: String)
    ensures
        text@ == encode_pairs(pairs_view(pairs@)),
{
    url::form_urlencoded::Serializer::new(String::new()).extend_pairs(pairs).finish()
}

/// Builds the query string of a request from its parameters.
pub fn build_query_string(params: Option<&StringMap>) -> (query: String)
    ensures
        query@ == query_string(optional_entries(params)),
{
    match params {
        Some(map) => {
            let encoded = form_urlencode(map.as_pairs());
            proof {
                reveal_strlit("?");
            }
            let mut query = "?".to_owned();
            query.append(encoded.as_str());
            assert(query@ =~= seq!['?'] + encode_pairs(map@));
            query
        },
        None => String::new(),
    }
}

/// The value of a hexadecimal digit of either case.
pub open spec fn hex_value(digit: char) -> Option<int> {
    if '0' <= digit <= '9' {
        Some(digit as int - 0x30)
    } else if 'A' <= digit <= 'F' {
        Some(digit as int - 0x37)
    } else if 'a' <= digit <= 'f' {
        Some(digit as int - 0x57)
    } else {
        None
    }
}

/// The text begins with `%` and two hexadecimal digits.
pub open spec fn is_escape(text: Seq<char>) -> bool {
    text.len() >= 3 && text[0] == '%' && hex_value(text[1]) is Some && hex_value(text[2]) is Some
}

/// The bytes that an encoded name or value stands for: `+` is a space, `%`
/// and two hexadecimal digits are the byte that the digits write, and any
/// other character is its own UTF-8 bytes.
pub open spec fn unescape(text: Seq<char>) -> Seq<u8>
    decreases text.len(),
{
    if text.len() == 0 {
        seq![]
    } else if text[0] == '+' {
        seq![0x20u8] + unescape(text.drop_first())
    } else if is_escape(text) {
        seq![(hex_value(text[1])->0 * 16 + hex_value(text[2])->0) as u8] + unescape(text.skip(3))
    } else {
        encode_utf8(seq![text[0]]) + unescape(text.drop_first())
    }
}

/// The name or value that an encoded text stands for, where its bytes are
/// UTF-8.
pub open spec fn decode_text(text: Seq<char>) -> Seq<char> {
    decode_utf8(unescape(text))
}

/// The index of the first `mark` in a text, or the length of the text where
/// it has none.
pub open spec fn first_index(text: Seq<char>, mark: char) -> int
    decreases text.len(),
{
    if text.len() == 0 || text[0] == mark {
        0
    } else {
        1 + first_index(text.drop_first(), mark)
    }
}

/// The parameter that an encoded pair stands for: the name ends at the
/// first `=`, and the value is what follows it.
pub open spec fn decode_pair(piece: Seq<char>) -> (Seq<char>, Seq<char>) {
    let cut = first_index(piece, '=');
    if 0 <= cut < piece.len() {
        (decode_text(piece.subrange(0, cut)), decode_text(piece.skip(cut + 1)))
    } else {
        (decode_text(piece), seq![])
    }
}

/// The parameters that an encoded list stands for: the pieces between `&`,
/// without the empty ones, each read as a pair.
pub open spec fn decode_pairs(text: Seq<char>) -> Entries
    decreases text.len(),
{
    if text.len() == 0 {
        seq![]
    } else {
        let cut = first_index(text, '&');
        if 0 <= cut < text.len() {
            let rest = decode_pairs(text.skip(cut + 1));
            if cut == 0 {
                rest
            } else {
                seq![decode_pair(text.subrange(0, cut))] + rest
            }
        } else {
            seq![decode_pair(text)]
        }
    }
}

/// No character of the text is `mark`.
pub open spec fn free_of(text: Seq<char>, mark: char) -> bool {
    forall|i: int| 0 <= i < text.len() ==> text[i] != mark
}

/// In a text that begins with a part free of `mark`, followed by `mark`,
/// the first `mark` stands right after that part; a text free of `mark` has
/// none.
proof fn lemma_first_index(head: Seq<char>, mark: char, tail: Seq<char>)
    requires
        free_of(head, mark),
    ensures
        first_index(head + seq![mark] + tail, mark) == head.len(),
        first_index(head, mark) == head.len(),
    decreases head.len(),
{
    let text = head + seq![mark] + tail;
    if head.len() == 0 {
        assert(text[0] == mark);
    } else {
        assert(text[0] == head[0]);
        assert(text.drop_first() =~= head.drop_first() + seq![mark] + tail);
        lemma_first_index(head.drop_first(), mark, tail);
    }
}

/// The encoding of a byte has neither `&` nor `=`, and reads back as the
/// byte, whatever follows it.
proof fn lemma_escape_byte(byte: u8, tail: Seq<char>)
    ensures
        free_of(escape_byte(byte), '&'),
        free_of(escape_byte(byte), '='),
        unescape(escape_byte(byte) + tail) == seq![byte] + unescape(tail),
{
    let text = escape_byte(byte) + tail;
    if is_unreserved(byte) {
        let only = seq![byte as char];
        assert(text[0] == byte as char);
        assert(text.drop_first() =~= tail);
        assert(is_ascii_chars(only));
        is_ascii_chars_encode_utf8(only);
        assert(only[0] as u8 == encode_utf8(only)[0]);
        assert(encode_utf8(only) =~= seq![byte]);
    } else if byte == 0x20 {
        assert(text[0] == '+');
        assert(text.drop_first() =~= tail);
    } else {
        assert(text[0] == '%');
        assert(text[1] == hex_upper(byte / 16));
        assert(text[2] == hex_upper(byte % 16));
        assert(text.skip(3) =~= tail);
        assert(hex_value(hex_upper(byte / 16)) == Some((byte / 16) as int));
        assert(hex_value(hex_upper(byte % 16)) == Some((byte % 16) as int));
    }
}

/// The encoding of a byte sequence has neither `&` nor `=`, and reads back
/// as the sequence.
proof fn lemma_escape_bytes(bytes: Seq<u8>)
    ensures
        free_of(escape_bytes(bytes), '&'),
        free_of(escape_bytes(bytes), '='),
        unescape(escape_bytes(bytes)) == bytes,
    decreases bytes.len(),
{
    if bytes.len() == 0 {
        assert(unescape(escape_bytes(bytes)) =~= bytes);
    } else {
        let tail = escape_bytes(bytes.drop_first());
        lemma_escape_bytes(bytes.drop_first());
        lemma_escape_byte(bytes[0], tail);
        assert(seq![bytes[0]] + bytes.drop_first() =~= bytes);
    }
}

/// An encoded pair has no `&`, is not empty, and reads back as the pair.
proof fn lemma_pair_round_trip(pair: (Seq<char>, Seq<char>))
    ensures
        free_of(encode_pair(pair), '&'),
        encode_pair(pair).len() > 0,
        decode_pair(encode_pair(pair)) == pair,
{
    let name = escape_text(pair.0);
    let value = escape_text(pair.1);
    let text = encode_pair(pair);
    lemma_escape_bytes(encode_utf8(pair.0));
    lemma_escape_bytes(encode_utf8(pair.1));
    encode_utf8_decode_utf8(pair.0);
    encode_utf8_decode_utf8(pair.1);
    lemma_first_index(name, '=', value);
    assert(text.subrange(0, name.len() as int) =~= name);
    assert(text.skip(name.len() as int + 1) =~= value);
}

/// Decoding an encoded list of parameters gives the list back: the same
/// names and values, in the same order.
pub proof fn lemma_query_round_trip(pairs: Entries)
    ensures
        decode_pairs(encode_pairs(pairs)) == pairs,
        decode_pairs(query_string(Some(pairs)).skip(1)) == pairs,
    decreases pairs.len(),
{
    let text = encode_pairs(pairs);
    assert(query_string(Some(pairs)).skip(1) =~= text);
    if pairs.len() == 0 {
        assert(decode_pairs(text) =~= pairs);
    } else {
        let first = encode_pair(pairs[0]);
        lemma_pair_round_trip(pairs[0]);
        if pairs.len() == 1 {
            lemma_first_index(first, '&', seq![]);
            assert(decode_pairs(text) =~= pairs);
        } else {
            let rest = encode_pairs(pairs.drop_first());
            lemma_first_index(first, '&', rest);
            lemma_query_round_trip(pairs.drop_first());
            assert(text.subrange(0, first.len() as int) =~= first);
            assert(text.skip(first.len() as int + 1) =~= rest);
            assert(seq![pairs[0]] + pairs.drop_first() =~= pairs);
        }
    }
}

/// Two lists of parameters with the same encoding are the same list.
pub proof fn lemma_encode_pairs_injective(a: Entries, b: Entries)
    requires
        encode_pairs(a) == encode_pairs(b),
    ensures
        a == b,
{
    lemma_query_round_trip(a);
    lemma_query_round_trip(b);
}

} // verus!
