//! Signed session tokens: claims, signatures, the signing keypair, and the
//! binary and text forms in which tokens and keys travel.

use crate::crypto::base64text;
use crate::crypto::base64text::{base64_bytes, base64_text};
use crate::crypto::bigendian::{be_bytes, be_i64, i64_from_be, i64_to_be};
use crate::crypto::buffer;
use crate::crypto::clock;
use crate::crypto::clock::clock_range;
use crate::crypto::digest::{blake2b_256, blake2b_digest};
use crate::crypto::ed25519;
use crate::crypto::ed25519::{
    keypair_decodes,
    keypair_sound,
    signature_of,
    signature_verifies,
    signature_well_formed,
};
use crate::errors::{DecodingError, ServiceError};
use vstd::prelude::*;
use vstd::slice::slice_subrange;

verus! {

/// Seconds for which a token is valid after it was issued: 24 hours.
pub const TOKEN_LIFETIME: i64 = 86400;

/// Length in bytes of the three encoded claims.
pub const CLAIMS_LENGTH: usize = 24;

/// Length in bytes of a token's binary form.
pub const TOKEN_LENGTH: usize = 88;

/// An Ed25519 signature, held as its 64-byte encoding. Every value is
/// well-formed: the three highest bits of its last byte are clear.
#[derive(Debug, Clone, Copy)]
pub struct Signature {
    bytes: [u8; 64],
}

impl View for Signature {
    type V = Seq<u8>;

    closed spec fn view(&self) -> Seq<u8> {
        self.bytes@
    }
}

impl Signature {
    /// What holds of every signature: its bytes pass the structural check.
    #[verifier::type_invariant]
    pub open spec fn well_formed(&self) -> bool {
        signature_well_formed(self@)
    }

    /// Two signatures with the same bytes are the same signature.
    pub proof fn lemma_view_injective(a: Signature, b: Signature)
        requires
            a@ == b@,
        ensures
            a == b,
    {
        assert(a.bytes =~= b.bytes);
    }

    /// Reads a signature from its encoding: exactly 64 bytes that pass the
    /// structural check.
    pub fn from_bytes(bytes: &[u8]) -> (r: Result<Signature, ServiceError>)
        ensures
            match r {
                Ok(sig) => signature_well_formed(bytes@) && sig@ == bytes@ && sig.well_formed(),
                Err(e) => !signature_well_formed(bytes@) && e == ServiceError::Decoding(
                    DecodingError::Signature,
                ),
            },
    {
        match ed25519::signature_from_bytes(bytes) {
            Ok(checked) => Ok(Signature { bytes: checked }),
            Err(_) => Err(ServiceError::Decoding(DecodingError::Signature)),
        }
    }

    /// The signature's encoding.
    pub fn to_bytes(&self) -> (r: [u8; 64])
        ensures
            r@ == self@,
            signature_well_formed(r@),
    {
        proof {
            use_type_invariant(self);
        }
        self.bytes
    }
}

/// The process's signing keypair, held as its 64-byte encoding: the secret
/// key, then the public key. Every value is one that the signature scheme
/// accepts as a keypair.
pub struct KeyPair {
    bytes: [u8; 64],
}

impl View for KeyPair {
    type V = Seq<u8>;

    closed spec fn view(&self) -> Seq<u8> {
        self.bytes@
    }
}

/// The folder in which the process keeps its keys.
pub const KEYS_FOLDER: &'static str = "./cache/keys";

/// The path of the key file of the given name, inside the keys folder.
pub fn key_file_path(keyfile: &str) -> (path: String)
    ensures
        path@ == KEYS_FOLDER@ + "/"@ + keyfile@,
{
    let mut path = KEYS_FOLDER.to_owned();
    path.push_str("/");
    path.push_str(keyfile);
    path
}

/// Whether a text is the text form of a keypair.
pub open spec fn key_text_decodes(text: Seq<char>) -> bool {
    base64_bytes(text) matches Some(bytes) && keypair_decodes(bytes)
}

impl KeyPair {
    /// What holds of every keypair: its bytes are the encoding of one.
    #[verifier::type_invariant]
    pub open spec fn well_formed(&self) -> bool {
        keypair_decodes(self@)
    }

    /// Whether every token this keypair signs also verifies under it. This
    /// holds of a generated keypair. One read from bytes is taken as it
    /// stands, and its two halves need not belong together.
    pub open spec fn sound(&self) -> bool {
        keypair_sound(self@)
    }

    /// A fresh keypair from the operating system's random source.
    pub fn generate() -> (r: Self)
        ensures
            r.well_formed(),
            r.sound(),
    {
        KeyPair { bytes: ed25519::keypair_generate() }
    }

    /// Signs a message.
    pub fn sign(&self, message: &[u8]) -> (sig: Signature)
        ensures
            sig@ == signature_of(self@, message@),
            sig.well_formed(),
    {
        proof {
            use_type_invariant(self);
        }
        Signature { bytes: ed25519::keypair_sign(&self.bytes, message) }
    }

    /// Checks a signature on a message against this keypair's public half.
    pub fn verify(&self, message: &[u8], signature: &Signature) -> (r: Result<
        (),
        ed25519_dalek::SignatureError,
    >)
        ensures
            r is Ok <==> signature_verifies(self@, message@, signature@),
    {
        proof {
            use_type_invariant(self);
            use_type_invariant(signature);
        }
        ed25519::keypair_verify(&self.bytes, message, &signature.bytes)
    }

    /// Reads a keypair from its encoding.
    pub fn from_bytes<'a>(bytes: &'a [u8]) -> (r: Result<Self, ServiceError>)
        ensures
            match r {
                Ok(k) => keypair_decodes(bytes@) && k@ == bytes@ && k.well_formed(),
                Err(e) => !keypair_decodes(bytes@) && e == ServiceError::Decoding(
                    DecodingError::KeyPair,
                ),
            },
    {
        match ed25519::keypair_from_bytes(bytes) {
            Ok(checked) => Ok(KeyPair { bytes: checked }),
            Err(_) => Err(ServiceError::Decoding(DecodingError::KeyPair)),
        }
    }

    /// The keypair's encoding.
    pub fn to_bytes(&self) -> (r: [u8; 64])
        ensures
            r@ == self@,
    {
        self.bytes
    }

    /// The error with which `from_str` turns a text down.
    pub open spec fn text_error(text: Seq<char>) -> ServiceError {
        if base64_bytes(text) is None {
            ServiceError::Decoding(DecodingError::Base64)
        } else {
            ServiceError::Decoding(DecodingError::KeyPair)
        }
    }

    /// Reads a keypair from its text form, the base64 of its encoding.
    pub fn from_str(s: &str) -> (r: Result<Self, ServiceError>)
        ensures
            match r {
                Ok(k) => key_text_decodes(s@) && Some(k@) == base64_bytes(s@) && k.well_formed(),
                Err(e) => !key_text_decodes(s@) && e == Self::text_error(s@),
            },
    {
        match base64text::decode(s) {
            Ok(bytes) => Self::from_bytes(bytes.as_slice()),
            Err(e) => Err(ServiceError::from(e)),
        }
    }

    /// The keypair's text form, the base64 of its encoding.
    pub fn to_str(&self) -> (text: String)
        ensures
            text@ == base64_text(self@),
            base64_bytes(text@) == Some(self@),
            key_text_decodes(text@),
    {
        proof {
            use_type_invariant(self);
        }
        let bytes = self.to_bytes();
        base64text::encode(bytes.as_slice())
    }

    /// Settles which keypair the process signs with, given what reading the
    /// key file gave: its text, or `None` where it could not be read.
    ///
    /// A text that is the text form of a keypair gives that keypair, and
    /// nothing is to be written. Anything else counts as no key: a fresh
    /// keypair is generated and comes back with its text form, which the
    /// caller has to write to the key file, and which reads back as that
    /// same keypair.
    pub fn from_file_or_new(stored: Option<&str>) -> (r: (Self, Option<String>))
        ensures
            r.0.well_formed(),
            match stored {
                Some(text) if key_text_decodes(text@) => {
                    &&& Some(r.0@) == base64_bytes(text@)
                    &&& r.1 is None
                },
                _ => {
                    &&& r.0.sound()
                    &&& r.1 matches Some(fresh)
                    &&& fresh@ == base64_text(r.0@)
                    &&& base64_bytes(fresh@) == Some(r.0@)
                    &&& key_text_decodes(fresh@)
                },
            },
    {
        if let Some(text) = stored {
            if let Ok(identity) = Self::from_str(text) {
                return (identity, None);
            }
        }
        let new_wallet = Self::generate();
        let text = new_wallet.to_str();
        (new_wallet, Some(text))
    }
}

/// What a token says: who its bearer is, and from when until when it holds.
#[derive(Debug, Clone, Copy, PartialEq, Eq, Structural)]
pub struct Claims {
    /// When the token was issued, in seconds since the Unix epoch.
    pub iat: i64,
    /// When the token expires, in seconds since the Unix epoch.
    pub exp: i64,
    /// The user the token was issued to.
    pub user_id: i64,
}

impl Claims {
    /// The claims of a token issued to `user_id` at the instant `now`.
    pub open spec fn issued(user_id: i64, now: i64) -> Claims
        recommends
            now + TOKEN_LIFETIME <= i64::MAX,
    {
        Claims { iat: now, exp: (now + TOKEN_LIFETIME) as i64, user_id }
    }

    /// The 24 bytes a signature is made over: `user_id`, `iat`, `exp`, each
    /// big-endian.
    pub open spec fn signed_bytes(self) -> Seq<u8> {
        be_bytes(self.user_id) + be_bytes(self.iat) + be_bytes(self.exp)
    }

    /// The 24 bytes that open a token's binary form: `iat`, `exp`, `user_id`,
    /// each big-endian.
    pub open spec fn wire_bytes(self) -> Seq<u8> {
        be_bytes(self.iat) + be_bytes(self.exp) + be_bytes(self.user_id)
    }

    /// The claims that the first 24 bytes of a token's binary form denote.
    pub open spec fn from_wire(bytes: Seq<u8>) -> Claims
        recommends
            bytes.len() >= CLAIMS_LENGTH,
    {
        Claims {
            iat: be_i64(bytes.subrange(0, 8)),
            exp: be_i64(bytes.subrange(8, 16)),
            user_id: be_i64(bytes.subrange(16, 24)),
        }
    }

    /// The digest that stands for the claims when they are signed and checked.
    pub open spec fn digest(self) -> Seq<u8> {
        blake2b_256(self.signed_bytes())
    }

    /// Whether the claims have expired at the instant `now`: the clock has
    /// reached `exp`. The claims hold while `now < exp`; from the instant
    /// `exp` on they do not.
    pub open spec fn expired(self, now: i64) -> bool {
        self.exp <= now
    }

    /// The claims of a token issued to `user_id` at the instant `now`, valid
    /// for 24 hours from then.
    pub fn issued_at(user_id: i64, now: i64) -> (r: Self)
        requires
            now + TOKEN_LIFETIME <= i64::MAX,
        ensures
            r == Self::issued(user_id, now),
            r.user_id == user_id,
            r.iat == now,
            r.exp == now + TOKEN_LIFETIME,
    {
        Self { user_id, iat: now, exp: now + TOKEN_LIFETIME }
    }

    /// The claims of a token issued to `user_id` at the clock's present
    /// instant.
    pub fn from_user_id(user_id: i64) -> (r: Self)
        ensures
            r == Self::issued(user_id, r.iat),
            r.user_id == user_id,
            r.exp == r.iat + TOKEN_LIFETIME,
            clock_range(r.iat),
    {
        Self::issued_at(user_id, clock::now())
    }

    /// The 24 bytes that a signature is made over.
    pub fn to_signed_bytes(&self) -> (r: [u8; 24])
        ensures
            r@ == self.signed_bytes(),
    {
        let user_id = i64_to_be(self.user_id);
        let iat = i64_to_be(self.iat);
        let exp = i64_to_be(self.exp);
        let mut r = [0u8; 24];
        let mut i: usize = 0;
        while i < 8
            invariant
                i <= 8,
                forall|k: int| 0 <= k < i ==> r@[k] == user_id@[k],
                forall|k: int| 0 <= k < i ==> r@[8 + k] == iat@[k],
                forall|k: int| 0 <= k < i ==> r@[16 + k] == exp@[k],
            decreases 8 - i,
        {
            r[i] = user_id[i];
            r[8 + i] = iat[i];
            r[16 + i] = exp[i];
            i += 1;
        }
        assert(r@ =~= user_id@ + iat@ + exp@);
        r
    }

    /// The 32-byte BLAKE2b digest of the claims' signed bytes.
    pub fn hash(&self) -> (r: [u8; 32])
        ensures
            r@ == self.digest(),
    {
        let message = self.to_signed_bytes();
        blake2b_digest(message.as_slice())
    }

    /// Binds the claims to a signature of `keypair` on their digest.
    pub fn sign(self, keypair: &KeyPair) -> (r: Result<AuthnToken, ServiceError>)
        ensures
            r matches Ok(token) && token.claims == self && token.sig@ == signature_of(
                keypair@,
                self.digest(),
            ) && token.sig.well_formed(),
    {
        let digest = self.hash();
        let sig = keypair.sign(digest.as_slice());
        Ok(AuthnToken { claims: self, sig })
    }
}

/// Claims together with a signature on them: what is handed to a client and
/// checked when it comes back.
#[derive(Debug, Clone, Copy)]
pub struct AuthnToken {
    pub claims: Claims,
    pub sig: Signature,
}

impl AuthnToken {
    /// The token's binary form: the claims' 24 wire bytes, then the 64 bytes
    /// of the signature.
    pub open spec fn wire(self) -> Seq<u8> {
        self.claims.wire_bytes() + self.sig@
    }

    /// Whether a byte string can be read as a token: it has at least 88
    /// bytes, and those from 24 up to 88 are a well-formed signature. What
    /// follows the first 88 bytes is not looked at.
    pub open spec fn decodes(bytes: Seq<u8>) -> bool {
        bytes.len() >= TOKEN_LENGTH && signature_well_formed(
            bytes.subrange(CLAIMS_LENGTH as int, TOKEN_LENGTH as int),
        )
    }

    /// The error with which `from_bytes` turns a byte string down.
    pub open spec fn decode_error(bytes: Seq<u8>) -> ServiceError {
        if bytes.len() < TOKEN_LENGTH {
            ServiceError::Decoding(DecodingError::Length)
        } else {
            ServiceError::Decoding(DecodingError::Signature)
        }
    }

    /// Whether this is the token that a byte string denotes.
    pub open spec fn denoted_by(self, bytes: Seq<u8>) -> bool {
        &&& self.claims == Claims::from_wire(bytes)
        &&& self.sig@ == bytes.subrange(CLAIMS_LENGTH as int, TOKEN_LENGTH as int)
    }

    /// Whether a text can be read as a token.
    pub open spec fn text_decodes(text: Seq<char>) -> bool {
        base64_bytes(text) matches Some(bytes) && Self::decodes(bytes)
    }

    /// The error with which `from_str` turns a text down.
    pub open spec fn text_error(text: Seq<char>) -> ServiceError {
        match base64_bytes(text) {
            Some(bytes) => Self::decode_error(bytes),
            None => ServiceError::Decoding(DecodingError::Base64),
        }
    }

    /// Whether the token's signature is one that `keypair` accepts on the
    /// digest of the token's own claims.
    pub open spec fn signature_holds(self, keypair: Seq<u8>) -> bool {
        signature_verifies(keypair, self.claims.digest(), self.sig@)
    }

    /// What verifying the token under `keypair` at the instant `now` gives:
    /// success exactly where `now < exp` and the signature holds, and
    /// `Unauthorized` for every other token.
    pub open spec fn verdict(self, keypair: Seq<u8>, now: i64) -> Result<(), ServiceError> {
        if self.claims.expired(now) {
            Err(ServiceError::Unauthorized)
        } else if self.signature_holds(keypair) {
            Ok(())
        } else {
            Err(ServiceError::Unauthorized)
        }
    }

    /// Whether this is a token that `keypair` issues to `user_id` at the
    /// instant `now`.
    pub open spec fn issued_by(self, keypair: Seq<u8>, user_id: i64, now: i64) -> bool {
        &&& self.claims == Claims::issued(user_id, now)
        &&& self.sig@ == signature_of(keypair, self.claims.digest())
    }

    /// Issues a token to `user_id` at the instant `now`.
    pub fn from_user_id_at(user_id: i64, keypair: &KeyPair, now: i64) -> (r: Result<
        AuthnToken,
        ServiceError,
    >)
        requires
            now + TOKEN_LIFETIME <= i64::MAX,
        ensures
            r matches Ok(token) && token.issued_by(keypair@, user_id, now)
                && token.sig.well_formed(),
    {
        Claims::issued_at(user_id, now).sign(keypair)
    }

    /// Issues a token to `user_id` at the clock's present instant.
    pub fn from_user_id(user_id: i64, keypair: &KeyPair) -> (r: Result<AuthnToken, ServiceError>)
        ensures
            r matches Ok(token) && token.issued_by(keypair@, user_id, token.claims.iat)
                && clock_range(token.claims.iat) && token.sig.well_formed(),
    {
        Claims::from_user_id(user_id).sign(keypair)
    }

    /// Turns the outcome of a signature check into that of verification: a
    /// signature that did not verify is `Unauthorized`, whatever the reason.
    pub fn signature_verdict(checked: Result<(), ed25519_dalek::SignatureError>) -> (r: Result<
        (),
        ServiceError,
    >)
        ensures
            r == if checked is Ok {
                Ok::<(), ServiceError>(())
            } else {
                Err::<(), ServiceError>(ServiceError::Unauthorized)
            },
    {
        match checked {
            Ok(_) => Ok(()),
            Err(_) => Err(ServiceError::Unauthorized),
        }
    }

    /// Verifies the token under `keypair` at the instant `now`. An expired
    /// token is turned down without its signature being looked at.
    pub fn verify_at(&self, keypair: &KeyPair, now: i64) -> (r: Result<(), ServiceError>)
        ensures
            r == self.verdict(keypair@, now),
    {
        if self.claims.exp <= now {
            return Err(ServiceError::Unauthorized);
        }
        let digest = self.claims.hash();
        Self::signature_verdict(keypair.verify(digest.as_slice(), &self.sig))
    }

    /// Verifies the token under `keypair` at the clock's present instant.
    pub fn verify(&self, keypair: &KeyPair) -> (r: Result<(), ServiceError>)
        ensures
            exists|now: i64| clock_range(now) && r == #[trigger] self.verdict(keypair@, now),
            r is Ok ==> self.signature_holds(keypair@),
            r is Err ==> r == Err::<(), ServiceError>(ServiceError::Unauthorized),
    {
        self.verify_at(keypair, clock::now())
    }

    /// The token's binary form, 88 bytes.
    pub fn to_bytes(&self) -> (r: Vec<u8>)
        ensures
            r@ == self.wire(),
            r@.len() == TOKEN_LENGTH,
    {
        let mut b = bytes::BytesMut::new();
        b.extend_from_slice(i64_to_be(self.claims.iat).as_slice());
        b.extend_from_slice(i64_to_be(self.claims.exp).as_slice());
        b.extend_from_slice(i64_to_be(self.claims.user_id).as_slice());
        b.extend_from_slice(self.sig.to_bytes().as_slice());
        buffer::to_vec(&b)
    }

    /// Reads a token from its binary form.
    pub fn from_bytes(bytes: &[u8]) -> (r: Result<Self, ServiceError>)
        ensures
            match r {
                Ok(token) => Self::decodes(bytes@) && token.denoted_by(bytes@)
                    && token.sig.well_formed(),
                Err(e) => !Self::decodes(bytes@) && e == Self::decode_error(bytes@),
            },
    {
        if bytes.len() < TOKEN_LENGTH {
            return Err(ServiceError::Decoding(DecodingError::Length));
        }
        let iat = i64_from_be(bytes, 0);
        let exp = i64_from_be(bytes, 8);
        let user_id = i64_from_be(bytes, 16);
        match Signature::from_bytes(slice_subrange(bytes, CLAIMS_LENGTH, TOKEN_LENGTH)) {
            Ok(sig) => Ok(AuthnToken { claims: Claims { iat, exp, user_id }, sig }),
            Err(e) => Err(e),
        }
    }

    /// The token's text form: the base64 of its binary form.
    pub fn to_str(&self) -> (text: String)
        ensures
            text@ == base64_text(self.wire()),
            base64_bytes(text@) == Some(self.wire()),
    {
        let bytes = self.to_bytes();
        base64text::encode(bytes.as_slice())
    }

    /// Reads a token from its text form.
    pub fn from_str(token: &str) -> (r: Result<Self, ServiceError>)
        ensures
            match r {
                Ok(t) => Self::text_decodes(token@) && t.denoted_by(base64_bytes(token@)->0)
                    && t.sig.well_formed(),
                Err(e) => !Self::text_decodes(token@) && e == Self::text_error(token@),
            },
    {
        match base64text::decode(token) {
            Ok(bytes) => Self::from_bytes(bytes.as_slice()),
            Err(e) => Err(ServiceError::from(e)),
        }
    }

    /// The value of the `Set-Cookie` header that hands the token to a client.
    pub fn header_val(&self) -> (r: String)
        ensures
            r@ == "token="@ + base64_text(self.wire())
                + ";Path=/;SameSite=Strict;Secure;HttpOnly"@,
    {
        let mut r = "token=".to_owned();
        r.push_str(self.to_str().as_str());
        r.push_str(";Path=/;SameSite=Strict;Secure;HttpOnly");
        r
    }
}

} // verus!
