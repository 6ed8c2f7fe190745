use session_auth::text::{make_verification_key, uuid_string};

#[test]
fn uuid_string_concrete_value() {
    assert_eq!(
        uuid_string(0x0123_4567_89ab_cdef_0123_4567_89ab_cdef),
        "01234567-89ab-cdef-0123-456789abcdef"
    );
}

#[test]
fn uuid_string_zero_and_max() {
    assert_eq!(uuid_string(0), "00000000-0000-0000-0000-000000000000");
    assert_eq!(uuid_string(u128::MAX), "ffffffff-ffff-ffff-ffff-ffffffffffff");
}

#[test]
fn uuid_string_matches_uuid_crate() {
    let samples: [u128; 4] = [
        0,
        1,
        u128::MAX,
        0xdead_beef_dead_beef_dead_beef_dead_beef,
    ];
    for &u in samples.iter() {
        assert_eq!(uuid_string(u), uuid::Uuid::from_u128(u).to_string());
    }
    let fresh = uuid::Uuid::new_v4();
    assert_eq!(uuid_string(fresh.as_u128()), fresh.to_string());
}

#[test]
fn verification_key_format() {
    let key = make_verification_key(5, "someone@example.com");
    assert_eq!(
        key,
        "verify/00000000-0000-0000-0000-000000000005/someone@example.com"
    );
}
