//! What holds of tokens across issuing, encoding, decoding and verifying.

use crate::crypto::authn::{AuthnToken, Claims, Signature, TOKEN_LIFETIME};
use crate::crypto::base64text::base64_bytes;
use crate::crypto::bigendian::{
    be_bytes,
    lemma_be_bytes_injective,
    lemma_be_i64_injective,
    lemma_decode_encode,
    lemma_encode_decode,
};
use crate::crypto::ed25519::keypair_sound;
use crate::errors::{DecodingError, ServiceError};
use vstd::prelude::*;

verus! {

/// The wire bytes of claims are 24 bytes from which the claims are read back.
pub proof fn lemma_claims_round_trip(claims: Claims)
    ensures
        claims.wire_bytes().len() == 24,
        claims.signed_bytes().len() == 24,
        Claims::from_wire(claims.wire_bytes()) == claims,
{
    lemma_decode_encode(claims.iat);
    lemma_decode_encode(claims.exp);
    lemma_decode_encode(claims.user_id);
    let w = claims.wire_bytes();
    assert(w.subrange(0, 8) =~= be_bytes(claims.iat));
    assert(w.subrange(8, 16) =~= be_bytes(claims.exp));
    assert(w.subrange(16, 24) =~= be_bytes(claims.user_id));
}

/// Decoding undoes encoding. The binary form of a token has 88 bytes, it
/// decodes, and the token it denotes is the one that was encoded.
pub proof fn lemma_round_trip(token: AuthnToken)
    requires
        token.sig.well_formed(),
    ensures
        token.wire().len() == 88,
        AuthnToken::decodes(token.wire()),
        token.denoted_by(token.wire()),
{
    lemma_claims_round_trip(token.claims);
    let w = token.wire();
    assert(w.subrange(24, 88) =~= token.sig@);
    assert(w.subrange(0, 8) =~= token.claims.wire_bytes().subrange(0, 8));
    assert(w.subrange(8, 16) =~= token.claims.wire_bytes().subrange(8, 16));
    assert(w.subrange(16, 24) =~= token.claims.wire_bytes().subrange(16, 24));
}

/// A byte string denotes one token only: two tokens read from the same bytes
/// have the same claims and the same signature, bit for bit.
pub proof fn lemma_denoted_token_is_unique(bytes: Seq<u8>, a: AuthnToken, b: AuthnToken)
    requires
        a.denoted_by(bytes),
        b.denoted_by(bytes),
    ensures
        a.claims == b.claims,
        a.sig@ == b.sig@,
        a == b,
{
    Signature::lemma_view_injective(a.sig, b.sig);
}

/// Whatever is read back from a token's binary form is that token.
pub proof fn lemma_decoded_is_encoded(token: AuthnToken, decoded: AuthnToken)
    requires
        token.sig.well_formed(),
        decoded.denoted_by(token.wire()),
    ensures
        decoded == token,
{
    lemma_round_trip(token);
    lemma_denoted_token_is_unique(token.wire(), token, decoded);
}

/// The same through the text form: a text whose base64 content is a token's
/// binary form decodes, and to that token.
pub proof fn lemma_text_round_trip(token: AuthnToken, text: Seq<char>)
    requires
        token.sig.well_formed(),
        base64_bytes(text) == Some(token.wire()),
    ensures
        AuthnToken::text_decodes(text),
        token.denoted_by(base64_bytes(text)->0),
{
    lemma_round_trip(token);
}

/// Encoding undoes decoding: the token that a byte string denotes has the
/// string's first 88 bytes as its binary form.
pub proof fn lemma_wire_of_decoded(bytes: Seq<u8>, token: AuthnToken)
    requires
        AuthnToken::decodes(bytes),
        token.denoted_by(bytes),
    ensures
        token.wire() == bytes.subrange(0, 88),
{
    lemma_encode_decode(bytes.subrange(0, 8));
    lemma_encode_decode(bytes.subrange(8, 16));
    lemma_encode_decode(bytes.subrange(16, 24));
    assert(token.wire() =~= bytes.subrange(0, 88));
}

/// What follows the first 88 bytes does not matter: with anything appended,
/// a byte string that decodes still decodes, and to the same token.
pub proof fn lemma_trailing_bytes_ignored(bytes: Seq<u8>, extra: Seq<u8>, token: AuthnToken)
    requires
        AuthnToken::decodes(bytes),
        token.denoted_by(bytes),
    ensures
        AuthnToken::decodes(bytes + extra),
        token.denoted_by(bytes + extra),
{
    let longer = bytes + extra;
    assert(longer.subrange(0, 8) =~= bytes.subrange(0, 8));
    assert(longer.subrange(8, 16) =~= bytes.subrange(8, 16));
    assert(longer.subrange(16, 24) =~= bytes.subrange(16, 24));
    assert(longer.subrange(24, 88) =~= bytes.subrange(24, 88));
}

/// A byte string shorter than 88 bytes denotes no token, and is turned down
/// for its length; a text that is not base64 denotes none either, and is
/// turned down as such.
pub proof fn lemma_malformed_is_rejected(bytes: Seq<u8>, text: Seq<char>)
    ensures
        bytes.len() < 88 ==> !AuthnToken::decodes(bytes) && AuthnToken::decode_error(bytes)
            == ServiceError::Decoding(DecodingError::Length),
        base64_bytes(text) is None ==> !AuthnToken::text_decodes(text) && AuthnToken::text_error(
            text,
        ) == ServiceError::Decoding(DecodingError::Base64),
        base64_bytes(text) matches Some(short) && short.len() < 88 ==> !AuthnToken::text_decodes(
            text,
        ) && AuthnToken::text_error(text) == ServiceError::Decoding(DecodingError::Length),
{
}

/// A token verifies from the instant it is issued until it expires: under
/// the keypair that issued it, provided that keypair is sound, verification
/// succeeds at every instant before `exp`, which is 24 hours after issuance.
/// At the instant `exp` itself it no longer does.
pub proof fn lemma_fresh_token_verifies(
    token: AuthnToken,
    keypair: Seq<u8>,
    user_id: i64,
    issued: i64,
    now: i64,
)
    requires
        keypair_sound(keypair),
        issued + TOKEN_LIFETIME <= i64::MAX,
        token.issued_by(keypair, user_id, issued),
        now < issued + TOKEN_LIFETIME,
    ensures
        token.claims.user_id == user_id,
        token.claims.iat == issued,
        token.claims.exp == issued + TOKEN_LIFETIME,
        token.verdict(keypair, now) == Ok::<(), ServiceError>(()),
        token.verdict(keypair, token.claims.exp) == Err::<(), ServiceError>(
            ServiceError::Unauthorized,
        ),
{
}

/// A token whose expiry has come is `Unauthorized`, whatever its signature
/// and whatever the keypair.
pub proof fn lemma_expired_token_is_unauthorized(token: AuthnToken, keypair: Seq<u8>, now: i64)
    requires
        token.claims.exp <= now,
    ensures
        token.verdict(keypair, now) == Err::<(), ServiceError>(ServiceError::Unauthorized),
{
}

/// Verification fails in one way only.
pub proof fn lemma_verdict_is_ok_or_unauthorized(token: AuthnToken, keypair: Seq<u8>, now: i64)
    ensures
        token.verdict(keypair, now) matches Err(e) ==> e == ServiceError::Unauthorized,
        token.verdict(keypair, now) is Ok <==> now < token.claims.exp && token.signature_holds(
            keypair,
        ),
{
}

/// Claims are told apart by their bytes: two byte strings that differ
/// anywhere in their first 24 bytes denote different claims, and different
/// claims give different bytes to sign. A signature is therefore checked
/// against the digest of other bytes as soon as one bit of the claims region
/// is changed.
pub proof fn lemma_tampered_claims_differ(bytes: Seq<u8>, tampered: Seq<u8>)
    requires
        bytes.len() >= 24,
        tampered.len() >= 24,
        bytes.subrange(0, 24) != tampered.subrange(0, 24),
    ensures
        Claims::from_wire(bytes) != Claims::from_wire(tampered),
        Claims::from_wire(bytes).signed_bytes() != Claims::from_wire(tampered).signed_bytes(),
{
    let a = Claims::from_wire(bytes);
    let b = Claims::from_wire(tampered);
    if a == b {
        lemma_be_i64_injective(bytes.subrange(0, 8), tampered.subrange(0, 8));
        lemma_be_i64_injective(bytes.subrange(8, 16), tampered.subrange(8, 16));
        lemma_be_i64_injective(bytes.subrange(16, 24), tampered.subrange(16, 24));
        assert forall|i: int| 0 <= i < 24 implies bytes[i] == tampered[i] by {
            if i < 8 {
                assert(bytes.subrange(0, 8)[i] == tampered.subrange(0, 8)[i]);
            } else if i < 16 {
                assert(bytes.subrange(8, 16)[i - 8] == tampered.subrange(8, 16)[i - 8]);
            } else {
                assert(bytes.subrange(16, 24)[i - 16] == tampered.subrange(16, 24)[i - 16]);
            }
        }
        assert(bytes.subrange(0, 24) =~= tampered.subrange(0, 24));
    }
    if a.signed_bytes() == b.signed_bytes() {
        lemma_signed_bytes_injective(a, b);
    }
}

/// A byte string with bit `k` of byte `i` flipped.
pub open spec fn flip_bit(bytes: Seq<u8>, i: int, k: u8) -> Seq<u8>
    recommends
        0 <= i < bytes.len(),
        k < 8,
{
    bytes.update(i, bytes[i] ^ (1u8 << k))
}

/// Flipping any single bit among the 24 bytes of the claims changes the
/// claims that are read, and with them the bytes whose digest the signature
/// is checked against. That the signature then fails is the signature
/// scheme's to keep, and is not shown here.
pub proof fn lemma_bit_flip_changes_claims(bytes: Seq<u8>, i: int, k: u8)
    requires
        bytes.len() >= 24,
        0 <= i < 24,
        k < 8,
    ensures
        Claims::from_wire(flip_bit(bytes, i, k)) != Claims::from_wire(bytes),
        Claims::from_wire(flip_bit(bytes, i, k)).signed_bytes() != Claims::from_wire(
            bytes,
        ).signed_bytes(),
{
    let b = bytes[i];
    assert(b ^ (1u8 << k) != b) by (bit_vector)
        requires
            k < 8,
    ;
    let flipped = flip_bit(bytes, i, k);
    assert(flipped.subrange(0, 24)[i] != bytes.subrange(0, 24)[i]);
    lemma_tampered_claims_differ(flipped, bytes);
}

/// Different claims give different bytes to sign.
pub proof fn lemma_signed_bytes_injective(a: Claims, b: Claims)
    requires
        a.signed_bytes() == b.signed_bytes(),
    ensures
        a == b,
{
    lemma_decode_encode(a.iat);
    lemma_decode_encode(a.exp);
    lemma_decode_encode(a.user_id);
    lemma_decode_encode(b.iat);
    lemma_decode_encode(b.exp);
    lemma_decode_encode(b.user_id);
    let s = a.signed_bytes();
    let t = b.signed_bytes();
    assert(s.subrange(0, 8) =~= be_bytes(a.user_id));
    assert(s.subrange(8, 16) =~= be_bytes(a.iat));
    assert(s.subrange(16, 24) =~= be_bytes(a.exp));
    assert(t.subrange(0, 8) =~= be_bytes(b.user_id));
    assert(t.subrange(8, 16) =~= be_bytes(b.iat));
    assert(t.subrange(16, 24) =~= be_bytes(b.exp));
    lemma_be_bytes_injective(a.user_id, b.user_id);
    lemma_be_bytes_injective(a.iat, b.iat);
    lemma_be_bytes_injective(a.exp, b.exp);
}

} // verus!
