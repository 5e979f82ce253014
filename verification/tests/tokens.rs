use uccbot::tokens::{
    generate_token, generate_token_at, generate_token_at_instant, instant_of_reading, parse_token, parse_token_at, read_token, text_decrypt,
    text_encrypt, token_payload_text, try_parse_token, TokenError, TokenKey,
};

fn key() -> TokenKey {
    TokenKey::from_bytes(&[7u8; 32]).unwrap()
}

const TS: &str = "2020-03-01T12:00:00+00:00";
const TS_SECS: i64 = 1583064000;

#[test]
fn key_needs_32_bytes() {
    assert!(TokenKey::from_bytes(&[0u8; 31]).is_none());
    assert!(TokenKey::from_bytes(&[0u8; 33]).is_none());
    assert!(TokenKey::from_bytes(&[0u8; 32]).is_some());
}

#[test]
fn payload_is_comma_separated() {
    assert_eq!(
        token_payload_text(TS, 264401248676085760, "bob"),
        "2020-03-01T12:00:00+00:00,264401248676085760,bob"
    );
}

#[test]
fn encrypt_then_decrypt_gives_plaintext() {
    let k = key();
    let c = text_encrypt(&k, "hello, world").unwrap();
    assert_ne!(c, "hello, world");
    assert_eq!(text_decrypt(&k, &c).unwrap(), "hello, world");
}

#[test]
fn decrypt_rejects_garbage() {
    let k = key();
    assert!(text_decrypt(&k, "not base64!").is_none());
    // valid base64 but not a whole number of cipher blocks
    assert!(text_decrypt(&k, "AAAA").is_none());
}

#[test]
fn decrypt_with_other_key_does_not_give_plaintext() {
    let c = text_encrypt(&key(), "secret payload").unwrap();
    let other = TokenKey::from_bytes(&[9u8; 32]).unwrap();
    assert_ne!(text_decrypt(&other, &c), Some("secret payload".to_string()));
}

#[test]
fn token_round_trip_within_five_minutes() {
    let k = key();
    let t = generate_token_at(&k, TS, 42, "alice").unwrap();
    assert_eq!(parse_token_at(&k, 42, &t, TS_SECS), Some(Ok("alice".to_string())));
    assert_eq!(parse_token_at(&k, 42, &t, TS_SECS + 300), Some(Ok("alice".to_string())));
}

#[test]
fn token_expires_after_five_minutes() {
    let k = key();
    let t = generate_token_at(&k, TS, 42, "alice").unwrap();
    assert_eq!(parse_token_at(&k, 42, &t, TS_SECS + 301), Some(Err(TokenError::TokenExpired)));
}

#[test]
fn token_for_another_user_is_refused() {
    let k = key();
    let t = generate_token_at(&k, TS, 42, "alice").unwrap();
    assert_eq!(parse_token_at(&k, 43, &t, TS_SECS), Some(Err(TokenError::DiscordIdMismatch)));
    // the id check comes before the age check
    assert_eq!(
        parse_token_at(&k, 43, &t, TS_SECS + 10_000),
        Some(Err(TokenError::DiscordIdMismatch))
    );
}

#[test]
fn username_may_hold_commas() {
    let k = key();
    let t = generate_token_at(&k, TS, 1, "a,b,c").unwrap();
    let claims = read_token(&k, &t).unwrap();
    assert_eq!(claims, (TS.to_string(), "1".to_string(), "a,b,c".to_string()));
    assert_eq!(parse_token_at(&k, 1, &t, TS_SECS), Some(Ok("a,b,c".to_string())));
}

#[test]
fn malformed_tokens_are_none() {
    let k = key();
    assert_eq!(parse_token_at(&k, 1, "garbage", 0), None);
    let two_parts = text_encrypt(&k, "2020-03-01T12:00:00+00:00,1").unwrap();
    assert_eq!(parse_token_at(&k, 1, &two_parts, TS_SECS), None);
    let bad_date = text_encrypt(&k, "yesterday,1,bob").unwrap();
    assert_eq!(parse_token_at(&k, 1, &bad_date, TS_SECS), None);
    assert_eq!(try_parse_token(&k, 1, &bad_date), None);
}

#[test]
fn fresh_token_is_accepted_now() {
    let k = TokenKey::generate();
    let t = generate_token(&k, 264401248676085760, "bob").unwrap();
    assert_eq!(try_parse_token(&k, 264401248676085760, &t), Some(Ok("bob".to_string())));
    assert_eq!(parse_token(&k, 264401248676085760, &t), Ok("bob".to_string()));
    assert_eq!(try_parse_token(&k, 7, &t), Some(Err(TokenError::DiscordIdMismatch)));
}

#[test]
fn old_token_is_expired_now() {
    let k = key();
    let t = generate_token_at(&k, TS, 42, "alice").unwrap();
    assert_eq!(try_parse_token(&k, 42, &t), Some(Err(TokenError::TokenExpired)));
}

#[test]
fn token_error_text() {
    assert_eq!(TokenError::DiscordIdMismatch.to_string(), "DiscordIdMismatch");
    assert_eq!(TokenError::TokenExpired.to_string(), "TokenExpired");
}

#[test]
fn clock_readings_become_instants() {
    assert_eq!(instant_of_reading(true, 1583064000, 5), (1583064000, 5));
    assert_eq!(instant_of_reading(false, 5, 0), (-5, 0));
    assert_eq!(instant_of_reading(false, 5, 250), (-6, 999_999_750));
    assert_eq!(instant_of_reading(true, u64::MAX, 0), (i64::MAX, 0));
    assert_eq!(instant_of_reading(false, u64::MAX, 0), (i64::MIN, 0));
}

#[test]
fn token_at_an_instant_is_stamped_with_its_rendering() {
    let k = key();
    let t = generate_token_at_instant(&k, TS_SECS, 0, 42, "alice").unwrap();
    let (ts, id, user) = read_token(&k, &t).unwrap();
    assert_eq!(ts, TS);
    assert_eq!(id, "42");
    assert_eq!(user, "alice");
    assert_eq!(parse_token_at(&k, 42, &t, TS_SECS + 10), Some(Ok("alice".to_string())));
    // an instant chrono cannot render gives no token
    assert_eq!(generate_token_at_instant(&k, i64::MAX, 0, 42, "alice"), None);
}

#[test]
fn generated_token_verifies_only_its_user_for_five_minutes() {
    let k = key();
    let t = generate_token_at_instant(&k, TS_SECS, 0, 42, "a,b").unwrap();
    assert_eq!(parse_token_at(&k, 42, &t, TS_SECS + 300), Some(Ok("a,b".to_string())));
    assert_eq!(parse_token_at(&k, 42, &t, TS_SECS - 1000), Some(Ok("a,b".to_string())));
    assert_eq!(parse_token_at(&k, 42, &t, TS_SECS + 301), Some(Err(TokenError::TokenExpired)));
    assert_eq!(parse_token_at(&k, 43, &t, TS_SECS), Some(Err(TokenError::DiscordIdMismatch)));
    assert_eq!(parse_token_at(&k, 43, &t, TS_SECS + 10_000), Some(Err(TokenError::DiscordIdMismatch)));
}
