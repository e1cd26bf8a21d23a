use restaurant_reviews::crypto::authn::{key_file_path, AuthnToken, KeyPair, KEYS_FOLDER};
use restaurant_reviews::errors::{DecodingError, ServiceError};

const KEY_TEXT: &str =
    "nWGxne/9WmC6hEr0kuwsxERJxWl7MmkZcDusAxyuf2DXWpgBgrEKt9VL/tPJZAc6DuFy89qmIyWvAhpo9wdRGg==";

const T: i64 = 1_700_000_000;

#[test]
fn keypair_text_round_trip() {
    let keypair = KeyPair::from_str(KEY_TEXT).unwrap();
    assert_eq!(keypair.to_str(), KEY_TEXT);
    assert_eq!(keypair.to_bytes()[0], 0x9d);
    assert_eq!(keypair.to_bytes()[63], 0x1a);
    let fresh = KeyPair::generate();
    let again = KeyPair::from_str(&fresh.to_str()).unwrap();
    assert_eq!(again.to_bytes(), fresh.to_bytes());
}

#[test]
fn keypair_bytes_round_trip() {
    let fresh = KeyPair::generate();
    let again = KeyPair::from_bytes(&fresh.to_bytes()).unwrap();
    assert_eq!(again.to_bytes(), fresh.to_bytes());
    let token = AuthnToken::from_user_id_at(1, &fresh, T).unwrap();
    assert_eq!(token.verify_at(&again, T), Ok(()));
}

#[test]
fn keypair_of_wrong_length_is_rejected() {
    for n in [0usize, 32, 63, 65] {
        let bytes = vec![1u8; n];
        assert_eq!(
            KeyPair::from_bytes(&bytes).err(),
            Some(ServiceError::Decoding(DecodingError::KeyPair))
        );
    }
}

#[test]
fn keypair_whose_public_half_is_no_point_is_rejected() {
    let mut bytes = KeyPair::generate().to_bytes();
    for b in bytes[32..].iter_mut() {
        *b = 0xff;
    }
    bytes[32] = 0xfe;
    assert_eq!(
        KeyPair::from_bytes(&bytes).err(),
        Some(ServiceError::Decoding(DecodingError::KeyPair))
    );
}

#[test]
fn keypair_text_errors() {
    assert_eq!(
        KeyPair::from_str("not-base64!!").err(),
        Some(ServiceError::Decoding(DecodingError::Base64))
    );
    assert_eq!(
        KeyPair::from_str("AAAA").err(),
        Some(ServiceError::Decoding(DecodingError::KeyPair))
    );
}

#[test]
fn generated_keypairs_differ() {
    assert_ne!(KeyPair::generate().to_bytes(), KeyPair::generate().to_bytes());
}

#[test]
fn stored_key_is_loaded_and_not_rewritten() {
    let (keypair, to_write) = KeyPair::from_file_or_new(Some(KEY_TEXT));
    assert_eq!(keypair.to_str(), KEY_TEXT);
    assert_eq!(to_write, None);
}

#[test]
fn missing_key_file_gives_a_fresh_key_to_persist() {
    let (keypair, to_write) = KeyPair::from_file_or_new(None);
    assert_eq!(to_write, Some(keypair.to_str()));
    let written = KeyPair::from_str(to_write.as_deref().unwrap()).unwrap();
    assert_eq!(written.to_bytes(), keypair.to_bytes());
    let (again, nothing) = KeyPair::from_file_or_new(to_write.as_deref());
    assert_eq!(again.to_bytes(), keypair.to_bytes());
    assert_eq!(nothing, None);
}

#[test]
fn corrupt_key_file_counts_as_absent() {
    for stored in ["", "not-base64!!", "AAAA", &KEY_TEXT[..40]] {
        let (keypair, to_write) = KeyPair::from_file_or_new(Some(stored));
        assert_eq!(to_write, Some(keypair.to_str()));
        let token = AuthnToken::from_user_id_at(1, &keypair, T).unwrap();
        assert_eq!(token.verify_at(&keypair, T), Ok(()));
    }
}

#[test]
fn tokens_survive_a_restart_with_the_stored_key() {
    let (first, stored) = KeyPair::from_file_or_new(None);
    let token = AuthnToken::from_user_id_at(8, &first, T).unwrap();
    let (second, _) = KeyPair::from_file_or_new(stored.as_deref());
    assert_eq!(token.verify_at(&second, T + 10), Ok(()));
    let (unrelated, _) = KeyPair::from_file_or_new(None);
    assert_eq!(token.verify_at(&unrelated, T + 10), Err(ServiceError::Unauthorized));
}

#[test]
fn key_file_lies_in_the_keys_folder() {
    assert_eq!(KEYS_FOLDER, "./cache/keys");
    assert_eq!(key_file_path("keypair_tkn_sign"), "./cache/keys/keypair_tkn_sign");
    assert_eq!(key_file_path(""), "./cache/keys/");
}
