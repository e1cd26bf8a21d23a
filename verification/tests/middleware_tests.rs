use restaurant_reviews::crypto::authn::{AuthnToken, KeyPair};
use restaurant_reviews::errors::ServiceError;
use restaurant_reviews::filters::middleware::{
    authn, authn_at, authn_optional, authn_optional_at, bearer_id, cookie_authn_step2,
    cookie_authn_step2_at, cookie_authn_step2_optional, cookie_authn_step2_optional_at,
};
use restaurant_reviews::models::AuthInfo;

const T: i64 = 1_700_000_000;

#[test]
fn absent_cookie_is_anonymous_or_rejected() {
    let keypair = KeyPair::generate();
    assert_eq!(authn_optional(None, &keypair), AuthInfo::Anonymous);
    assert_eq!(authn(None, &keypair), Err(ServiceError::Unauthorized));
    assert_eq!(authn_optional_at(None, &keypair, T), AuthInfo::Anonymous);
    assert_eq!(authn_at(None, &keypair, T), Err(ServiceError::Unauthorized));
}

#[test]
fn cookie_that_is_not_base64_is_anonymous_or_rejected() {
    let keypair = KeyPair::generate();
    assert_eq!(authn_optional(Some("not-base64!!"), &keypair), AuthInfo::Anonymous);
    assert_eq!(authn(Some("not-base64!!"), &keypair), Err(ServiceError::Unauthorized));
    assert_eq!(authn_optional_at(Some("not-base64!!"), &keypair, T), AuthInfo::Anonymous);
    assert_eq!(authn_at(Some("not-base64!!"), &keypair, T), Err(ServiceError::Unauthorized));
    assert!(cookie_authn_step2_optional("not-base64!!", &keypair).is_none());
    assert_eq!(
        cookie_authn_step2("not-base64!!", &keypair).err(),
        Some(ServiceError::Unauthorized)
    );
}

#[test]
fn valid_cookie_authenticates_its_bearer() {
    let keypair = KeyPair::generate();
    let cookie = AuthnToken::from_user_id(42, &keypair).unwrap().to_str();
    assert_eq!(authn(Some(&cookie), &keypair), Ok(42));
    assert_eq!(authn_optional(Some(&cookie), &keypair), AuthInfo::Authenticated(42));
    let token = cookie_authn_step2(&cookie, &keypair).unwrap();
    assert_eq!(token.claims.user_id, 42);
    let token = cookie_authn_step2_optional(&cookie, &keypair).unwrap();
    assert_eq!(bearer_id(&token), 42);
}

#[test]
fn cookie_is_judged_at_the_given_instant() {
    let keypair = KeyPair::generate();
    let cookie = AuthnToken::from_user_id_at(7, &keypair, T).unwrap().to_str();
    assert_eq!(authn_at(Some(&cookie), &keypair, T + 3600), Ok(7));
    assert_eq!(authn_at(Some(&cookie), &keypair, T + 86399), Ok(7));
    assert_eq!(authn_at(Some(&cookie), &keypair, T + 86400), Err(ServiceError::Unauthorized));
    assert_eq!(authn_optional_at(Some(&cookie), &keypair, T + 86399), AuthInfo::Authenticated(7));
    assert_eq!(authn_optional_at(Some(&cookie), &keypair, T + 86400), AuthInfo::Anonymous);
    assert_eq!(authn_at(Some(&cookie), &keypair, T + 90000), Err(ServiceError::Unauthorized));
    assert_eq!(authn_optional_at(Some(&cookie), &keypair, T + 3600), AuthInfo::Authenticated(7));
    assert_eq!(authn_optional_at(Some(&cookie), &keypair, T + 90000), AuthInfo::Anonymous);
    assert_eq!(cookie_authn_step2_at(&cookie, &keypair, T).unwrap().claims.iat, T);
    assert_eq!(
        cookie_authn_step2_at(&cookie, &keypair, T + 86400).err(),
        Some(ServiceError::Unauthorized)
    );
    assert!(cookie_authn_step2_optional_at(&cookie, &keypair, T + 86399).is_some());
    assert!(cookie_authn_step2_optional_at(&cookie, &keypair, T + 86400).is_none());
    assert!(cookie_authn_step2_optional_at("not-base64!!", &keypair, T).is_none());
}

#[test]
fn expired_cookie_is_anonymous_or_rejected() {
    let keypair = KeyPair::generate();
    let cookie = AuthnToken::from_user_id_at(7, &keypair, T - 200_000).unwrap().to_str();
    assert_eq!(authn(Some(&cookie), &keypair), Err(ServiceError::Unauthorized));
    assert_eq!(authn_optional(Some(&cookie), &keypair), AuthInfo::Anonymous);
    assert!(cookie_authn_step2_optional(&cookie, &keypair).is_none());
}

#[test]
fn forged_cookie_is_anonymous_or_rejected() {
    let keypair = KeyPair::generate();
    let forger = KeyPair::generate();
    let cookie = AuthnToken::from_user_id(1, &forger).unwrap().to_str();
    assert_eq!(authn(Some(&cookie), &keypair), Err(ServiceError::Unauthorized));
    assert_eq!(authn_optional(Some(&cookie), &keypair), AuthInfo::Anonymous);
}

#[test]
fn truncated_cookie_is_anonymous_or_rejected() {
    let keypair = KeyPair::generate();
    let cookie = AuthnToken::from_user_id(1, &keypair).unwrap().to_str();
    let short = &cookie[..80];
    assert_eq!(authn(Some(short), &keypair), Err(ServiceError::Unauthorized));
    assert_eq!(authn_optional(Some(short), &keypair), AuthInfo::Anonymous);
    assert_eq!(authn(Some(""), &keypair), Err(ServiceError::Unauthorized));
    assert_eq!(authn_optional(Some(""), &keypair), AuthInfo::Anonymous);
}

#[test]
fn optional_agrees_with_required() {
    let keypair = KeyPair::generate();
    let good = AuthnToken::from_user_id_at(11, &keypair, T).unwrap().to_str();
    for cookie in [None, Some("not-base64!!"), Some(good.as_str()), Some("AAAA")] {
        for now in [T, T + 86400, T + 86401] {
            let expected = match authn_at(cookie, &keypair, now) {
                Ok(id) => AuthInfo::Authenticated(id),
                Err(_) => AuthInfo::Anonymous,
            };
            assert_eq!(authn_optional_at(cookie, &keypair, now), expected);
        }
    }
}

#[test]
fn bearer_id_of_a_small_user_id_is_that_id() {
    let keypair = KeyPair::generate();
    let token = AuthnToken::from_user_id_at(0, &keypair, T).unwrap();
    assert_eq!(bearer_id(&token), 0);
    let token = AuthnToken::from_user_id_at(123_456, &keypair, T).unwrap();
    assert_eq!(bearer_id(&token), 123_456);
}
