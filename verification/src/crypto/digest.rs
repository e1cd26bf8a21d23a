//! The BLAKE2b digest that token signatures are made over.

use vstd::prelude::*;

verus! {

/// The 32-byte unkeyed BLAKE2b digest of a message.
pub uninterp spec fn blake2b_256(message: Seq<u8>) -> Seq<u8>;

/// Calls `crypto::blake2b::Blake2b` (through its `Digest` methods `input` and
/// `result`) with an output length of 32 bytes and no key. The digest is a
/// function of the message alone; nothing else is claimed of it.
#[verifier::external_body]
pub(crate) fn blake2b_digest(message: &[u8]) -> (digest: [u8; 32])
    ensures
        digest@ == blake2b_256(message@),
{
    let mut digest = [0u8; 32];
    let mut hasher = ::crypto::blake2b::Blake2b::new(32);
    ::crypto::digest::Digest::input(&mut hasher, message);
    ::crypto::digest::Digest::result(&mut hasher, &mut digest);
    digest
}

} // verus!
