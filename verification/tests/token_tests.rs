use commercetools::Token;

#[test]
fn make_auth_token_with_str_slice() {
    Token::new("token", 60);
}

#[test]
fn make_auth_token_with_owned_string() {
    Token::new(String::from("token").as_str(), 60);
}

#[test]
fn token_is_valid_before_expiration_date() {
    let token = Token::new("", 60);
    assert!(token.is_valid());
}

#[test]
fn token_is_not_valid_after_expiration_date() {
    let token = Token::new("", 60);
    let now = chrono::Utc::now().timestamp() + 120;
    assert!(!token.is_valid_with_margin(now, 0));
}

#[test]
fn token_is_not_valid_in_margin() {
    let token = Token::new("", 60);
    let now = chrono::Utc::now().timestamp() + 50;
    assert!(!token.is_valid_with_margin(now, 20));
}

#[test]
fn fresh_token_is_valid_with_default_margin() {
    let token = Token::new("tok", 60);
    assert!(token.is_valid());
}

#[test]
fn token_carries_its_credential() {
    let token = Token::new("tok", 60);
    assert_eq!(token.access_token, "tok");
    assert_eq!(token.access_token_copy(), "tok");
}

#[test]
fn token_expiry_at_exact_instants() {
    let now: i64 = 1_000_000;
    let token = Token::with_now("tok", 60, now);
    // Fresh, margin below the lifetime: valid.
    assert!(token.is_valid_with_margin(now, 30));
    // Past the absolute expiry: invalid.
    assert!(!token.is_valid_with_margin(now + 120, 0));
    // Inside the margin window though not yet expired: invalid.
    assert!(!token.is_valid_with_margin(now + 50, 20));
    // One second before the margin window begins: still valid.
    assert!(token.is_valid_with_margin(now + 29, 30));
    // Exactly on the threshold (now + margin == expires_at): invalid.
    assert!(!token.is_valid_with_margin(now + 30, 30));
}

#[test]
fn non_positive_lifetime_is_already_expired() {
    let now: i64 = 1_000_000;
    let token = Token::with_now("tok", 0, now);
    assert!(!token.is_valid_with_margin(now, 0));
    let token = Token::with_now("tok", -5, now);
    assert!(!token.is_valid_with_margin(now, 0));
}

#[test]
fn expiry_sum_saturates() {
    let token = Token::with_now("tok", i64::MAX, 10);
    // The expiry clamps to the top of the range: valid at any instant
    // strictly below it.
    assert!(token.is_valid_with_margin(i64::MAX - 1, 0));
    assert!(!token.is_valid_with_margin(i64::MAX, 0));
    let token = Token::with_now("tok", i64::MIN, -10);
    // The expiry clamps to the bottom of the range: never valid.
    assert!(!token.is_valid_with_margin(i64::MIN, 0));
}

#[test]
fn shifted_instant_outside_range_is_decided_by_margin_sign() {
    let token = Token::with_now("tok", 60, 0);
    // now + margin overflows upward: past every representable expiry.
    assert!(!token.is_valid_with_margin(i64::MAX, 1));
    // now + margin overflows downward: before every representable expiry.
    assert!(token.is_valid_with_margin(i64::MIN, -1));
}
