use session_auth::codec::{SessionToken, SessionTokenData};

fn sample_data() -> SessionTokenData {
    SessionTokenData {
        session_id: 0x0123_4567_89ab_cdef_0123_4567_89ab_cdef,
        session_token_id: 0xfedc_ba98_7654_3210_fedc_ba98_7654_3210,
        user_id: 42,
    }
}

#[test]
fn round_trip_returns_original_data() {
    let secret = SessionToken::secret("s3cr3t");
    let data = sample_data();
    let token = SessionToken::encode(data, &secret);
    assert_eq!(SessionToken::decode(token.as_str(), &secret), Some(data));
}

#[test]
fn wrong_key_rejects() {
    let key1 = SessionToken::secret("s3cr3t");
    let key2 = SessionToken::secret("not-the-same");
    let token = SessionToken::encode(sample_data(), &key1);
    assert_eq!(SessionToken::decode(token.as_str(), &key2), None);
}

#[test]
fn malformed_token_rejects() {
    let secret = SessionToken::secret("s3cr3t");
    assert_eq!(SessionToken::decode("", &secret), None);
    assert_eq!(SessionToken::decode("garbage", &secret), None);
    assert_eq!(SessionToken::decode("a.b.c", &secret), None);
    assert_eq!(SessionToken::decode("a.b.c.d", &secret), None);
}

#[test]
fn tampered_token_rejects() {
    let secret = SessionToken::secret("s3cr3t");
    let token = SessionToken::encode(sample_data(), &secret);
    let text = token.as_str();
    let last = text.chars().last().unwrap();
    let flipped = if last == 'A' { 'B' } else { 'A' };
    let mut tampered: String = text[..text.len() - 1].to_string();
    tampered.push(flipped);
    assert_eq!(SessionToken::decode(&tampered, &secret), None);
}

#[test]
fn verify_reencodes_same_claims() {
    let secret = SessionToken::secret("s3cr3t");
    let token = SessionToken::encode(sample_data(), &secret);
    let reissued = SessionToken::verify(token.as_str(), &secret).unwrap();
    assert_eq!(
        SessionToken::decode(reissued.as_str(), &secret),
        Some(sample_data())
    );
    assert_eq!(SessionToken::verify("garbage", &secret), None);
}

#[test]
fn token_matches_independent_jwt_signing() {
    // Sign the same claims directly with the jwt crate and expect the very
    // same token string: the codec's output is ordinary signed claims, not
    // something of its own.
    let secret = SessionToken::secret("s3cr3t");
    let data = sample_data();
    let token = SessionToken::encode(data, &secret);

    let key =
        <hmac::Hmac<sha2::Sha256> as hmac::Mac>::new_from_slice(b"s3cr3t").unwrap();
    let mut claims = std::collections::BTreeMap::new();
    claims.insert(
        "session_id",
        uuid::Uuid::from_u128(data.session_id).to_string(),
    );
    claims.insert(
        "session_token_id",
        uuid::Uuid::from_u128(data.session_token_id).to_string(),
    );
    claims.insert("user_id", uuid::Uuid::from_u128(data.user_id).to_string());
    let independent = jwt::SignWithKey::sign_with_key(claims, &key).unwrap();

    assert_eq!(token.as_str(), independent.as_str());
}

#[test]
fn decode_accepts_independently_signed_token() {
    let key =
        <hmac::Hmac<sha2::Sha256> as hmac::Mac>::new_from_slice(b"shared-key").unwrap();
    let mut claims = std::collections::BTreeMap::new();
    claims.insert("session_id", uuid::Uuid::from_u128(7).to_string());
    claims.insert("session_token_id", uuid::Uuid::from_u128(8).to_string());
    claims.insert("user_id", uuid::Uuid::from_u128(9).to_string());
    let independent = jwt::SignWithKey::sign_with_key(claims, &key).unwrap();

    let secret = SessionToken::secret("shared-key");
    assert_eq!(
        SessionToken::decode(&independent, &secret),
        Some(SessionTokenData {
            session_id: 7,
            session_token_id: 8,
            user_id: 9,
        })
    );
}

#[test]
fn token_has_bearer_safe_shape() {
    let secret = SessionToken::secret("s3cr3t");
    let token = SessionToken::encode(sample_data(), &secret);
    let text = token.as_str();
    assert_eq!(text.split('.').count(), 3);
    assert!(text.chars().all(|c| c.is_ascii_graphic()));
}
