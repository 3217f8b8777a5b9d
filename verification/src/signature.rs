//! The signature of a request.
//!
//! The canonical string of a request is its timestamp, method, path, query
//! string and body, one after the other with nothing between them. The
//! signature is the HMAC-SHA256 of the canonical string under the secret,
//! written in Base64.

use vstd::prelude::*;
use vstd::string::{StringExecFns, StringSliceAdditionalSpecFns};
use vstd::utf8::encode_utf8;
use hmac::Mac;
use crate::base64_text::{base64_encode, base64_standard, lemma_base64_injective};
use crate::text::lemma_utf8_injective;

verus! {

/// What is signed of a request.
#[derive(Debug)]
pub struct SigningInput {
    pub timestamp: String,
    pub method: String,
    pub request_path: String,
    pub query_string: String,
    pub body_string: String,
}

/// The model of a `SigningInput`.
pub struct SigningParts {
    pub timestamp: Seq<char>,
    pub method: Seq<char>,
    pub request_path: Seq<char>,
    pub query_string: Seq<char>,
    pub body_string: Seq<char>,
}

impl View for SigningInput {
    type V = SigningParts;

    open spec fn view(&self) -> SigningParts {
        SigningParts {
            timestamp: self.timestamp@,
            method: self.method@,
            request_path: self.request_path@,
            query_string: self.query_string@,
            body_string: self.body_string@,
        }
    }
}

/// The canonical string: the five parts in their fixed order.
pub open spec fn canonical_string(parts: SigningParts) -> Seq<char> {
    parts.timestamp + parts.method + parts.request_path + parts.query_string + parts.body_string
}

/// The HMAC-SHA256 of a message under a key.
pub uninterp spec fn hmac_sha256(key: Seq<u8>, message: Seq<u8>) -> Seq<u8>;

/// The signature of a request under a secret.
pub open spec fn signature_of(secret: Seq<char>, parts: SigningParts) -> Seq<char> {
    base64_standard(hmac_sha256(encode_utf8(secret), encode_utf8(canonical_string(parts))))
}

/// The two requests differ in exactly one of their five parts.
pub open spec fn differ_in_one_part(a: SigningParts, b: SigningParts) -> bool {
    ||| a.timestamp != b.timestamp && a.method == b.method && a.request_path == b.request_path
        && a.query_string == b.query_string && a.body_string == b.body_string
    ||| a.timestamp == b.timestamp && a.method != b.method && a.request_path == b.request_path
        && a.query_string == b.query_string && a.body_string == b.body_string
    ||| a.timestamp == b.timestamp && a.method == b.method && a.request_path != b.request_path
        && a.query_string == b.query_string && a.body_string == b.body_string
    ||| a.timestamp == b.timestamp && a.method == b.method && a.request_path == b.request_path
        && a.query_string != b.query_string && a.body_string == b.body_string
    ||| a.timestamp == b.timestamp && a.method == b.method && a.request_path == b.request_path
        && a.query_string == b.query_string && a.body_string != b.body_string
}

/// Two texts that differ only in a middle part are different texts.
proof fn lemma_middle_differs(
    before: Seq<char>,
    one: Seq<char>,
    other: Seq<char>,
    after: Seq<char>,
)
    requires
        one != other,
    ensures
        before + one + after != before + other + after,
{
    let left = before + one + after;
    let right = before + other + after;
    if left == right {
        assert(left.len() == right.len());
        assert(one =~= left.subrange(before.len() as int, (before.len() + one.len()) as int));
        assert(other =~= right.subrange(before.len() as int, (before.len() + other.len()) as int));
    }
}

/// Changing one part of a request, and no other, changes the canonical
/// string and the bytes that are signed. The signature changes with them,
/// unless HMAC-SHA256 gives the two strings the same code under the secret.
pub proof fn lemma_changed_part_changes_signature(
    secret: Seq<char>,
    a: SigningParts,
    b: SigningParts,
)
    requires
        differ_in_one_part(a, b),
    ensures
        canonical_string(a) != canonical_string(b),
        encode_utf8(canonical_string(a)) != encode_utf8(canonical_string(b)),
        signature_of(secret, a) == signature_of(secret, b) ==> hmac_sha256(
            encode_utf8(secret),
            encode_utf8(canonical_string(a)),
        ) == hmac_sha256(encode_utf8(secret), encode_utf8(canonical_string(b))),
{
    let empty = Seq::<char>::empty();
    if a.timestamp != b.timestamp {
        let after = a.method + a.request_path + a.query_string + a.body_string;
        lemma_middle_differs(empty, a.timestamp, b.timestamp, after);
        assert(canonical_string(a) =~= empty + a.timestamp + after);
        assert(canonical_string(b) =~= empty + b.timestamp + after);
    } else if a.method != b.method {
        let after = a.request_path + a.query_string + a.body_string;
        lemma_middle_differs(a.timestamp, a.method, b.method, after);
        assert(canonical_string(a) =~= a.timestamp + a.method + after);
        assert(canonical_string(b) =~= a.timestamp + b.method + after);
    } else if a.request_path != b.request_path {
        let before = a.timestamp + a.method;
        let after = a.query_string + a.body_string;
        lemma_middle_differs(before, a.request_path, b.request_path, after);
        assert(canonical_string(a) =~= before + a.request_path + after);
        assert(canonical_string(b) =~= before + b.request_path + after);
    } else if a.query_string != b.query_string {
        let before = a.timestamp + a.method + a.request_path;
        lemma_middle_differs(before, a.query_string, b.query_string, a.body_string);
    } else {
        let before = a.timestamp + a.method + a.request_path + a.query_string;
        lemma_middle_differs(before, a.body_string, b.body_string, empty);
        assert(canonical_string(a) =~= before + a.body_string + empty);
        assert(canonical_string(b) =~= before + b.body_string + empty);
    }
    if encode_utf8(canonical_string(a)) == encode_utf8(canonical_string(b)) {
        lemma_utf8_injective(canonical_string(a), canonical_string(b));
    }
    if signature_of(secret, a) == signature_of(secret, b) {
        lemma_base64_injective(
            hmac_sha256(encode_utf8(secret), encode_utf8(canonical_string(a))),
            hmac_sha256(encode_utf8(secret), encode_utf8(canonical_string(b))),
        );
    }
}

/// The canonical string has no mark between its parts: text that moves from
/// the end of one part to the start of the next leaves it, and so the
/// signature, as it was.
pub proof fn lemma_parts_are_not_delimited(secret: Seq<char>, parts: SigningParts, moved: Seq<char>)
    ensures
        signature_of(
            secret,
            SigningParts {
                method: parts.method + moved,
                ..parts
            },
        ) == signature_of(
            secret,
            SigningParts {
                request_path: moved + parts.request_path,
                ..parts
            },
        ),
{
    let left = SigningParts { method: parts.method + moved, ..parts };
    let right = SigningParts { request_path: moved + parts.request_path, ..parts };
    assert(canonical_string(left) =~= canonical_string(right));
}

/// Calls `Hmac::<Sha256>` of the crates `hmac` and `sha2`: `new_from_slice`
/// with the key, which accepts a key of any length, `update` with the
/// message, then `finalize`. The code has the 32 bytes of a SHA-256 digest.
#[verifier::external_body]
fn hmac_sha256_code(key: &[u8], message: &[u8]) -> (code: Vec<u8>)
    ensures
        code@ == hmac_sha256(key@, message@),
        code@.len() == 32,
{
    let mut mac = hmac::Hmac::<sha2::Sha256>::new_from_slice(key).unwrap();
    mac.update(message);
    mac.finalize().into_bytes().to_vec()
}

/// Writes the canonical string of a request.
pub fn canonical(input: &SigningInput) -> (text: String)
    ensures
        text@ == canonical_string(input@),
{
    let mut text = input.timestamp.clone();
    text.append(input.method.as_str());
    text.append(input.request_path.as_str());
    text.append(input.query_string.as_str());
    text.append(input.body_string.as_str());
    text
}

/// Signs a request with the secret.
pub fn sign(secret: &str, input: &SigningInput) -> (signature: String)
    ensures
        signature@ == signature_of(secret@, input@),
{
    let text = canonical(input);
    let code = hmac_sha256_code(secret.as_bytes(), text.as_str().as_bytes());
    base64_encode(code.as_slice())
}

} // verus!
