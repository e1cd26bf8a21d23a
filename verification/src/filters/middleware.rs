//! What the routing layer asks of a request's `token` cookie: who sent the
//! request. Nothing of a request but the cookie's value is looked at.

use crate::crypto::authn::{AuthnToken, Claims, KeyPair, CLAIMS_LENGTH, TOKEN_LENGTH};
use crate::crypto::base64text::base64_bytes;
use crate::crypto::clock;
use crate::crypto::clock::clock_range;
use crate::crypto::ed25519::signature_verifies;
use crate::errors::ServiceError;
use crate::models::AuthInfo;
use vstd::prelude::*;

verus! {

/// What verifying the token that `bytes` denote gives under `keypair` at the
/// instant `now`.
pub open spec fn wire_verdict(bytes: Seq<u8>, keypair: Seq<u8>, now: i64) -> Result<
    (),
    ServiceError,
>
    recommends
        AuthnToken::decodes(bytes),
{
    let claims = Claims::from_wire(bytes);
    if claims.expired(now) {
        Err(ServiceError::Unauthorized)
    } else if signature_verifies(
        keypair,
        claims.digest(),
        bytes.subrange(CLAIMS_LENGTH as int, TOKEN_LENGTH as int),
    ) {
        Ok(())
    } else {
        Err(ServiceError::Unauthorized)
    }
}

/// Whether a cookie value authenticates its sender under `keypair` at the
/// instant `now`: it is the text form of a token that verifies then.
pub open spec fn accepts(text: Seq<char>, keypair: Seq<u8>, now: i64) -> bool {
    &&& AuthnToken::text_decodes(text)
    &&& wire_verdict(base64_bytes(text)->0, keypair, now) is Ok
}

/// The user that a cookie value names.
pub open spec fn bearer(text: Seq<char>) -> i64
    recommends
        AuthnToken::text_decodes(text),
{
    Claims::from_wire(base64_bytes(text)->0).user_id
}

/// The id under which the store knows the user that a token names: the
/// token's `user_id` converted to `usize`. An id that fits in `usize` is kept
/// as it is; of any other only the low bits are.
pub open spec fn store_id(user_id: i64) -> usize {
    user_id as usize
}

/// What required extraction gives for a cookie: the bearer's id where the
/// cookie is there and accepted, and `Unauthorized` in every other case.
pub open spec fn required_outcome(cookie: Option<Seq<char>>, keypair: Seq<u8>, now: i64) -> Result<
    usize,
    ServiceError,
> {
    match cookie {
        Some(text) if accepts(text, keypair, now) => Ok(store_id(bearer(text))),
        _ => Err(ServiceError::Unauthorized),
    }
}

/// What optional extraction gives for a cookie: the bearer where the cookie
/// is there and accepted, and the anonymous identity in every other case.
pub open spec fn optional_outcome(cookie: Option<Seq<char>>, keypair: Seq<u8>, now: i64) -> AuthInfo {
    match cookie {
        Some(text) if accepts(text, keypair, now) => AuthInfo::Authenticated(
            store_id(bearer(text)),
        ),
        _ => AuthInfo::Anonymous,
    }
}

/// What the second step of extraction hands on for a cookie value: the token
/// it denotes where it is accepted, and `Unauthorized` where it is not.
pub open spec fn step2_outcome(
    r: Result<AuthnToken, ServiceError>,
    text: Seq<char>,
    keypair: Seq<u8>,
    now: i64,
) -> bool {
    match r {
        Ok(token) => accepts(text, keypair, now) && token.denoted_by(base64_bytes(text)->0),
        Err(e) => !accepts(text, keypair, now) && e == ServiceError::Unauthorized,
    }
}

/// The value of a cookie as specifications see it.
pub open spec fn cookie_text(cookie: Option<&str>) -> Option<Seq<char>> {
    match cookie {
        Some(text) => Some(text@),
        None => None,
    }
}

/// A token and the bytes that denote it have the same verdict.
pub proof fn lemma_verdict_of_denoted(token: AuthnToken, bytes: Seq<u8>, keypair: Seq<u8>, now: i64)
    requires
        token.denoted_by(bytes),
    ensures
        token.verdict(keypair, now) == wire_verdict(bytes, keypair, now),
{
}

/// The id under which the store knows the bearer of a token.
pub fn bearer_id(token: &AuthnToken) -> (id: usize)
    ensures
        id == store_id(token.claims.user_id),
        0 <= token.claims.user_id <= usize::MAX ==> id == token.claims.user_id,
{
    #[verifier::truncate]
    (token.claims.user_id as usize)
}

/// Decodes a cookie value and verifies the token at the instant `now`.
pub fn cookie_authn_step2_at(token_str: &str, keypair: &KeyPair, now: i64) -> (r: Result<
    AuthnToken,
    ServiceError,
>)
    ensures
        step2_outcome(r, token_str@, keypair@, now),
{
    let token = match AuthnToken::from_str(token_str) {
        Ok(token) => token,
        Err(_) => {
            return Err(ServiceError::Unauthorized);
        },
    };
    match token.verify_at(keypair, now) {
        Ok(_) => Ok(token),
        Err(_) => Err(ServiceError::Unauthorized),
    }
}

/// Decodes a cookie value and verifies the token at the clock's present
/// instant.
pub fn cookie_authn_step2(token_str: &str, keypair: &KeyPair) -> (r: Result<
    AuthnToken,
    ServiceError,
>)
    ensures
        exists|now: i64| clock_range(now) && #[trigger] step2_outcome(r, token_str@, keypair@, now),
        r matches Err(e) ==> e == ServiceError::Unauthorized,
        !AuthnToken::text_decodes(token_str@) ==> r is Err,
{
    cookie_authn_step2_at(token_str, keypair, clock::now())
}

/// What the second step hands on where failures are not told: the token
/// where the cookie value is accepted, and nothing where it is not.
pub open spec fn step2_optional_outcome(
    r: Option<AuthnToken>,
    text: Seq<char>,
    keypair: Seq<u8>,
    now: i64,
) -> bool {
    match r {
        Some(token) => accepts(text, keypair, now) && token.denoted_by(base64_bytes(text)->0),
        None => !accepts(text, keypair, now),
    }
}

/// As `cookie_authn_step2_at`, with every failure turned into `None`.
pub fn cookie_authn_step2_optional_at(token_str: &str, keypair: &KeyPair, now: i64) -> (r: Option<
    AuthnToken,
>)
    ensures
        step2_optional_outcome(r, token_str@, keypair@, now),
{
    match cookie_authn_step2_at(token_str, keypair, now) {
        Ok(token) => Some(token),
        Err(_) => None,
    }
}

/// As `cookie_authn_step2`, with every failure turned into `None`.
pub fn cookie_authn_step2_optional(token_str: &str, keypair: &KeyPair) -> (r: Option<AuthnToken>)
    ensures
        exists|now: i64|
            clock_range(now) && #[trigger] step2_optional_outcome(
                r,
                token_str@,
                keypair@,
                now,
            ),
        !AuthnToken::text_decodes(token_str@) ==> r is None,
{
    cookie_authn_step2_optional_at(token_str, keypair, clock::now())
}

/// Required extraction at the instant `now`: the id of the cookie's bearer,
/// or a rejection.
pub fn authn_at(cookie: Option<&str>, keypair: &KeyPair, now: i64) -> (r: Result<
    usize,
    ServiceError,
>)
    ensures
        r == required_outcome(cookie_text(cookie), keypair@, now),
{
    match cookie {
        Some(token_str) => match cookie_authn_step2_at(token_str, keypair, now) {
            Ok(token) => Ok(bearer_id(&token)),
            Err(e) => Err(e),
        },
        None => Err(ServiceError::Unauthorized),
    }
}

/// Optional extraction at the instant `now`: the cookie's bearer, or the
/// anonymous identity. No failure comes out of it.
pub fn authn_optional_at(cookie: Option<&str>, keypair: &KeyPair, now: i64) -> (r: AuthInfo)
    ensures
        r == optional_outcome(cookie_text(cookie), keypair@, now),
{
    match authn_at(cookie, keypair, now) {
        Ok(id) => AuthInfo::Authenticated(id),
        Err(_) => AuthInfo::Anonymous,
    }
}

/// Required extraction at the clock's present instant. An absent cookie and
/// one that is not the text form of a token are rejected whatever the clock
/// says.
pub fn authn(cookie: Option<&str>, keypair: &KeyPair) -> (r: Result<usize, ServiceError>)
    ensures
        exists|now: i64|
            clock_range(now) && r == #[trigger] required_outcome(
                cookie_text(cookie),
                keypair@,
                now,
            ),
        r matches Err(e) ==> e == ServiceError::Unauthorized,
        cookie is None ==> r is Err,
        cookie matches Some(text) && !AuthnToken::text_decodes(text@) ==> r is Err,
{
    authn_at(cookie, keypair, clock::now())
}

/// Optional extraction at the clock's present instant. An absent cookie and
/// one that is not the text form of a token give the anonymous identity
/// whatever the clock says.
pub fn authn_optional(cookie: Option<&str>, keypair: &KeyPair) -> (r: AuthInfo)
    ensures
        exists|now: i64|
            clock_range(now) && r == #[trigger] optional_outcome(
                cookie_text(cookie),
                keypair@,
                now,
            ),
        cookie is None ==> r == AuthInfo::Anonymous,
        cookie matches Some(text) && !AuthnToken::text_decodes(text@) ==> r
            == AuthInfo::Anonymous,
{
    authn_optional_at(cookie, keypair, clock::now())
}

/// Optional extraction is required extraction with every rejection turned
/// into the anonymous identity: it authenticates exactly the requests that
/// required extraction lets through, as the same user.
pub proof fn lemma_optional_degrades(cookie: Option<Seq<char>>, keypair: Seq<u8>, now: i64)
    ensures
        optional_outcome(cookie, keypair, now) == match required_outcome(cookie, keypair, now) {
            Ok(id) => AuthInfo::Authenticated(id),
            Err(_) => AuthInfo::Anonymous,
        },
        required_outcome(cookie, keypair, now) matches Err(e) ==> e == ServiceError::Unauthorized,
{
}

/// An absent cookie, and a cookie that is not base64, authenticate nobody:
/// optional extraction gives the anonymous identity and required extraction
/// rejects, at every instant and under every keypair.
pub proof fn lemma_undecodable_cookie(cookie: Option<Seq<char>>, keypair: Seq<u8>, now: i64)
    requires
        cookie matches Some(text) ==> base64_bytes(text) is None,
    ensures
        optional_outcome(cookie, keypair, now) == AuthInfo::Anonymous,
        required_outcome(cookie, keypair, now) == Err::<usize, ServiceError>(
            ServiceError::Unauthorized,
        ),
{
}

} // verus!
