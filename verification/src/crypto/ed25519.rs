//! Ed25519 operations on plain bytes.
//!
//! A keypair is its 64-byte encoding (32 bytes of secret key, then 32 bytes of
//! public key) and a signature is its 64-byte encoding. The functions here hand
//! those bytes to `ed25519_dalek`; what that crate computes is named, not
//! restated.

use vstd::prelude::*;

verus! {

#[verifier::external_type_specification]
#[verifier::external_body]
pub struct ExSignatureError(ed25519_dalek::SignatureError);

/// Whether `Keypair::from_bytes` accepts `bytes` as the encoding of a keypair.
pub uninterp spec fn keypair_decodes(bytes: Seq<u8>) -> bool;

/// The encoded signature that the keypair encoded as `keypair` makes on `message`.
pub uninterp spec fn signature_of(keypair: Seq<u8>, message: Seq<u8>) -> Seq<u8>;

/// Whether the keypair encoded as `keypair` accepts `signature` as a signature
/// on `message`.
pub uninterp spec fn signature_verifies(
    keypair: Seq<u8>,
    message: Seq<u8>,
    signature: Seq<u8>,
) -> bool;

/// The structural condition on an encoded signature: 64 bytes, of which the
/// last has its three highest bits clear.
pub open spec fn signature_well_formed(bytes: Seq<u8>) -> bool {
    bytes.len() == 64 && bytes[63] & 0xe0 == 0
}

/// A keypair all of whose signatures verify under itself.
pub open spec fn keypair_sound(keypair: Seq<u8>) -> bool {
    forall|message: Seq<u8>| #[trigger]
        signature_verifies(keypair, message, signature_of(keypair, message))
}

/// Calls `ed25519_dalek::Keypair::from_bytes` and hands back the bytes it
/// accepted. The call succeeds exactly on the encodings named by
/// `keypair_decodes`, which are 64 bytes long, and the keypair it builds
/// encodes to the bytes it was given.
#[verifier::external_body]
pub(crate) fn keypair_from_bytes(bytes: &[u8]) -> (r: Result<
    [u8; 64],
    ed25519_dalek::SignatureError,
>)
    ensures
        r is Ok <==> keypair_decodes(bytes@),
        r matches Ok(k) ==> k@ == bytes@,
{
    ed25519_dalek::Keypair::from_bytes(bytes).map(|k| k.to_bytes())
}

/// Calls `ed25519_dalek::Keypair::generate` with the operating system's random
/// source and encodes the result. Which keypair comes back is not determined;
/// every one decodes again, and since its public half is derived from its
/// secret half, every signature it makes verifies under it.
#[verifier::external_body]
pub(crate) fn keypair_generate() -> (k: [u8; 64])
    ensures
        keypair_decodes(k@),
        keypair_sound(k@),
{
    ed25519_dalek::Keypair::generate(&mut rand_core::OsRng).to_bytes()
}

/// Calls `Signer::sign` on the `ed25519_dalek::Keypair` that `keypair`
/// encodes. Signing is deterministic; the signature that comes back passes
/// the structural check of `Signature::from_bytes`.
#[verifier::external_body]
pub(crate) fn keypair_sign(keypair: &[u8; 64], message: &[u8]) -> (sig: [u8; 64])
    requires
        keypair_decodes(keypair@),
    ensures
        sig@ == signature_of(keypair@, message@),
        signature_well_formed(sig@),
{
    let keypair = ed25519_dalek::Keypair::from_bytes(keypair).unwrap();
    ed25519_dalek::Signer::sign(&keypair, message).to_bytes()
}

/// Calls `ed25519_dalek::Keypair::verify` on the keypair that `keypair`
/// encodes and the signature that `signature` encodes.
#[verifier::external_body]
pub(crate) fn keypair_verify(keypair: &[u8; 64], message: &[u8], signature: &[u8; 64]) -> (r:
    Result<(), ed25519_dalek::SignatureError>)
    requires
        keypair_decodes(keypair@),
        signature_well_formed(signature@),
    ensures
        r is Ok <==> signature_verifies(keypair@, message@, signature@),
{
    let keypair = ed25519_dalek::Keypair::from_bytes(keypair).unwrap();
    let signature = ed25519_dalek::Signature::from_bytes(signature).unwrap();
    keypair.verify(message, &signature)
}

/// Calls `ed25519_dalek::Signature::from_bytes` and hands back the bytes it
/// accepted. The call succeeds exactly on the well-formed encodings, and the
/// signature it builds holds the bytes it was given.
#[verifier::external_body]
pub(crate) fn signature_from_bytes(bytes: &[u8]) -> (r: Result<
    [u8; 64],
    ed25519_dalek::SignatureError,
>)
    ensures
        r is Ok <==> signature_well_formed(bytes@),
        r matches Ok(s) ==> s@ == bytes@,
{
    ed25519_dalek::Signature::from_bytes(bytes).map(|s| s.to_bytes())
}

} // verus!
