//! Base64 with the standard alphabet and padding.
//!
//! Three bytes become four symbols of six bits each. A last group of one or
//! two bytes is filled with zero bits and closed with `=`, so that the text
//! always has a multiple of four characters.

use vstd::prelude::*;

verus! {

/// The symbol of the standard alphabet for a value below 64.
pub open spec fn symbol(value: int) -> char {
    if value < 26 {
        ((value + 0x41) as u8) as char
    } else if value < 52 {
        ((value - 26 + 0x61) as u8) as char
    } else if value < 62 {
        ((value - 52 + 0x30) as u8) as char
    } else if value == 62 {
        '+'
    } else {
        '/'
    }
}

/// The four symbols for three bytes.
pub open spec fn full_group(first: u8, second: u8, third: u8) -> Seq<char> {
    seq![
        symbol(first as int / 4),
        symbol((first as int % 4) * 16 + second as int / 16),
        symbol((second as int % 16) * 4 + third as int / 64),
        symbol(third as int % 64),
    ]
}

/// The Base64 text of a byte sequence.
pub open spec fn base64_standard(bytes: Seq<u8>) -> Seq<char>
    decreases bytes.len(),
{
    if bytes.len() == 0 {
        seq![]
    } else if bytes.len() == 1 {
        seq![symbol(bytes[0] as int / 4), symbol((bytes[0] as int % 4) * 16), '=', '=']
    } else if bytes.len() == 2 {
        seq![
            symbol(bytes[0] as int / 4),
            symbol((bytes[0] as int % 4) * 16 + bytes[1] as int / 16),
            symbol((bytes[1] as int % 16) * 4),
            '=',
        ]
    } else {
        full_group(bytes[0], bytes[1], bytes[2]) + base64_standard(bytes.skip(3))
    }
}

/// Two values below 64 with the same symbol are the same value, and no
/// symbol is the padding character.
pub proof fn lemma_symbol_injective(a: int, b: int)
    requires
        0 <= a < 64,
        0 <= b < 64,
    ensures
        symbol(a) != '=',
        symbol(a) == symbol(b) ==> a == b,
{
}

/// Two groups of three bytes with the same four symbols are the same bytes.
proof fn lemma_full_group_injective(a: Seq<u8>, b: Seq<u8>)
    requires
        a.len() >= 3,
        b.len() >= 3,
        full_group(a[0], a[1], a[2]) == full_group(b[0], b[1], b[2]),
    ensures
        a[0] == b[0],
        a[1] == b[1],
        a[2] == b[2],
{
    let x = full_group(a[0], a[1], a[2]);
    let y = full_group(b[0], b[1], b[2]);
    assert(x[0] == y[0] && x[1] == y[1] && x[2] == y[2] && x[3] == y[3]);
    lemma_symbol_injective(a[0] as int / 4, b[0] as int / 4);
    lemma_symbol_injective(
        (a[0] as int % 4) * 16 + a[1] as int / 16,
        (b[0] as int % 4) * 16 + b[1] as int / 16,
    );
    lemma_symbol_injective(
        (a[1] as int % 16) * 4 + a[2] as int / 64,
        (b[1] as int % 16) * 4 + b[2] as int / 64,
    );
    lemma_symbol_injective(a[2] as int % 64, b[2] as int % 64);
}

/// The text of a byte sequence is empty only for the empty sequence, and
/// its third and fourth characters tell how long the first group is.
proof fn lemma_first_group(bytes: Seq<u8>)
    ensures
        bytes.len() == 0 ==> base64_standard(bytes).len() == 0,
        bytes.len() > 0 ==> base64_standard(bytes).len() >= 4,
        bytes.len() == 1 ==> base64_standard(bytes).len() == 4 && base64_standard(bytes)[2] == '='
            && base64_standard(bytes)[3] == '=',
        bytes.len() == 2 ==> base64_standard(bytes).len() == 4 && base64_standard(bytes)[2] != '='
            && base64_standard(bytes)[3] == '=',
        bytes.len() >= 3 ==> base64_standard(bytes)[2] != '=' && base64_standard(bytes)[3] != '='
            && base64_standard(bytes).subrange(0, 4) == full_group(bytes[0], bytes[1], bytes[2])
            && base64_standard(bytes).skip(4) == base64_standard(bytes.skip(3)),
{
    if bytes.len() == 2 {
        lemma_symbol_injective((bytes[1] as int % 16) * 4, 0);
    } else if bytes.len() >= 3 {
        let group = full_group(bytes[0], bytes[1], bytes[2]);
        let rest = base64_standard(bytes.skip(3));
        lemma_symbol_injective((bytes[1] as int % 16) * 4 + bytes[2] as int / 64, 0);
        lemma_symbol_injective(bytes[2] as int % 64, 0);
        assert(base64_standard(bytes) == group + rest);
        assert((group + rest).subrange(0, 4) =~= group);
        assert((group + rest).skip(4) =~= rest);
    }
}

/// Base64 loses nothing: two byte sequences with the same text are the
/// same sequence.
pub proof fn lemma_base64_injective(a: Seq<u8>, b: Seq<u8>)
    requires
        base64_standard(a) == base64_standard(b),
    ensures
        a == b,
    decreases a.len(),
{
    lemma_first_group(a);
    lemma_first_group(b);
    if a.len() == 0 {
        assert(a =~= b);
    } else if a.len() == 1 {
        let x = base64_standard(a);
        let y = base64_standard(b);
        assert(b.len() == 1);
        assert(x[0] == y[0] && x[1] == y[1]);
        lemma_symbol_injective(a[0] as int / 4, b[0] as int / 4);
        lemma_symbol_injective((a[0] as int % 4) * 16, (b[0] as int % 4) * 16);
        assert(a =~= b);
    } else if a.len() == 2 {
        let x = base64_standard(a);
        let y = base64_standard(b);
        assert(b.len() == 2);
        assert(x[0] == y[0] && x[1] == y[1] && x[2] == y[2]);
        lemma_symbol_injective(a[0] as int / 4, b[0] as int / 4);
        lemma_symbol_injective(
            (a[0] as int % 4) * 16 + a[1] as int / 16,
            (b[0] as int % 4) * 16 + b[1] as int / 16,
        );
        lemma_symbol_injective((a[1] as int % 16) * 4, (b[1] as int % 16) * 4);
        assert(a =~= b);
    } else {
        assert(b.len() >= 3);
        lemma_full_group_injective(a, b);
        lemma_base64_injective(a.skip(3), b.skip(3));
        assert(a =~= seq![a[0], a[1], a[2]] + a.skip(3));
        assert(b =~= seq![b[0], b[1], b[2]] + b.skip(3));
    }
}

/// Calls `encode` of `base64::engine::general_purpose::STANDARD`: the
/// engine with the standard alphabet that pads its output. The call panics
/// only where the length of the text does not fit in `usize`.
#[verifier::external_body]
pub(crate) fn base64_encode(bytes: &[u8]) -> (text: String)
    requires
        (bytes@.len() / 3 + 1) * 4 <= usize::MAX,
    ensures
        text@ == base64_standard(bytes@),
{
    base64::engine::Engine::encode(&base64::engine::general_purpose::STANDARD, bytes)
}

} // verus!
