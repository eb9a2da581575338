//! The cryptographic material of the request-authentication gate: hex
//! decoding of the signature headers and Ed25519 verification.
//!
//! The Ed25519 primitives are trusted items around `ed25519_dalek`; hex
//! decoding is trusted with an exact contract over the spec functions
//! below.

use vstd::prelude::*;
use ed25519_dalek::Verifier;

verus! {

/// Whether `c` is a hexadecimal digit, upper or lower case.
pub open spec fn is_hex_digit(c: char) -> bool {
    ('0' <= c && c <= '9') || ('a' <= c && c <= 'f') || ('A' <= c && c <= 'F')
}

/// The value of one hexadecimal digit.
pub open spec fn hex_digit_val(c: char) -> int {
    if '0' <= c && c <= '9' {
        c as int - '0' as int
    } else if 'a' <= c && c <= 'f' {
        c as int - 'a' as int + 10
    } else {
        c as int - 'A' as int + 10
    }
}

/// Whether `s` is a well-formed hex string: even length, hex digits only.
pub open spec fn valid_hex(s: Seq<char>) -> bool {
    s.len() % 2 == 0 && (forall|i: int| 0 <= i < s.len() ==> is_hex_digit(s[i]))
}

/// The bytes a hex string denotes: one byte per digit pair.
pub open spec fn hex_bytes(s: Seq<char>) -> Seq<u8> {
    Seq::new(s.len() / 2, |i: int| (hex_digit_val(s[2 * i]) * 16 + hex_digit_val(s[2 * i + 1])) as u8)
}

/// Relies on `hex::decode`: it succeeds exactly on strings of even length
/// made of hex digits (either case), and returns for each digit pair the
/// byte `hi * 16 + lo`. A byte that is not an ASCII hex digit, including
/// every byte of a multi-byte character, makes it fail.
#[verifier::external_body]
pub(crate) fn hex_decode(s: &str) -> (r: Option<Vec<u8>>)
    ensures
        r is Some <==> valid_hex(s@),
        r matches Some(v) ==> v@ == hex_bytes(s@),
{
    match hex::decode(s) {
        Ok(v) => Some(v),
        Err(_) => None,
    }
}

/// The signed message construction is injective: two `timestamp || body`
/// messages with timestamps of one length coincide only when both the
/// timestamps and the bodies do. Mutating any byte of the body, or of the
/// timestamp without changing its length, therefore changes the message
/// the signature is checked against.
pub proof fn lemma_signed_message_injective(
    ts1: Seq<u8>,
    body1: Seq<u8>,
    ts2: Seq<u8>,
    body2: Seq<u8>,
)
    requires
        ts1 + body1 == ts2 + body2,
        ts1.len() == ts2.len(),
    ensures
        ts1 == ts2,
        body1 == body2,
{
    assert(ts1 =~= ts2) by {
        assert(forall|i: int| 0 <= i < ts1.len() ==> ts1[i] == (ts1 + body1)[i]);
        assert(forall|i: int| 0 <= i < ts2.len() ==> ts2[i] == (ts2 + body2)[i]);
    }
    assert((ts1 + body1).len() == ts1.len() + body1.len());
    assert((ts2 + body2).len() == ts2.len() + body2.len());
    assert(body1.len() == body2.len());
    assert(body1 =~= body2) by {
        assert(forall|i: int|
            0 <= i < body1.len() ==> body1[i] == (ts1 + body1)[i + ts1.len()]);
        assert(forall|i: int|
            0 <= i < body2.len() ==> body2[i] == (ts2 + body2)[i + ts2.len()]);
        assert(forall|i: int|
            0 <= i < body1.len() ==> #[trigger] body1[i] == body2[i]) by {
            assert(forall|i: int|
                0 <= i < body1.len() ==> #[trigger] body1[i] == (ts1 + body1)[i + ts1.len()]
                    && body2[i] == (ts2 + body2)[i + ts2.len()]);
        }
    }
}

/// Whether the bytes are a well-formed Ed25519 public key: 32 bytes that
/// decompress to a curve point. Only `ed25519_check_public_key` decides
/// this.
pub uninterp spec fn ed25519_valid_public_key(bytes: Seq<u8>) -> bool;

/// Whether the signature bytes are a valid Ed25519 signature by the given
/// public key over the given message. Only `ed25519_verify` decides this.
pub uninterp spec fn ed25519_verified(pk: Seq<u8>, msg: Seq<u8>, sig: Seq<u8>) -> bool;

/// Relies on `ed25519_dalek::PublicKey::from_bytes`: it accepts exactly
/// 32-byte strings that decompress to an Edwards point, so its outcome is
/// a pure function of the bytes, and success implies the length is 32.
#[verifier::external_body]
pub(crate) fn ed25519_check_public_key(bytes: &[u8]) -> (r: bool)
    ensures
        r == ed25519_valid_public_key(bytes@),
        r ==> bytes@.len() == 32,
{
    ed25519_dalek::PublicKey::from_bytes(bytes).is_ok()
}

/// Relies on `ed25519_dalek::Signature::from_bytes` and
/// `PublicKey::verify`: whether the signature bytes parse (64 bytes with a
/// canonical scalar) and the verification equation holds is a pure
/// function of the key, message and signature bytes.
#[verifier::external_body]
pub(crate) fn ed25519_verify(pk: &[u8], msg: &[u8], sig: &[u8]) -> (r: bool)
    requires
        ed25519_valid_public_key(pk@),
    ensures
        r == ed25519_verified(pk@, msg@, sig@),
{
    let key = match ed25519_dalek::PublicKey::from_bytes(pk) {
        Ok(k) => k,
        Err(_) => return false,
    };
    let signature = match ed25519_dalek::Signature::from_bytes(sig) {
        Ok(s) => s,
        Err(_) => return false,
    };
    key.verify(msg, &signature).is_ok()
}

} // verus!
