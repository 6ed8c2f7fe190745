use session_auth::store::TtlStore;
use session_auth::verification::{code_matches, VerificationCodeStore};

const USER: u128 = 77;
const EMAIL: &str = "someone@example.com";

#[test]
fn correct_code_is_single_use() {
    let codes = VerificationCodeStore::new(600);
    let mut store = TtlStore::new();
    codes.register(USER, EMAIL, "ABCDEF", &mut store, 0);
    assert!(codes.check(USER, EMAIL, "ABCDEF", &mut store, 1));
    assert!(!codes.check(USER, EMAIL, "ABCDEF", &mut store, 2));
}

#[test]
fn mismatch_does_not_consume() {
    let codes = VerificationCodeStore::new(600);
    let mut store = TtlStore::new();
    codes.register(USER, EMAIL, "ABCDEF", &mut store, 0);
    assert!(!codes.check(USER, EMAIL, "WRONG", &mut store, 1));
    assert!(codes.check(USER, EMAIL, "ABCDEF", &mut store, 2));
}

#[test]
fn code_expires() {
    let codes = VerificationCodeStore::new(600);
    let mut store = TtlStore::new();
    codes.register(USER, EMAIL, "ABCDEF", &mut store, 0);
    assert!(!codes.check(USER, EMAIL, "ABCDEF", &mut store, 600));
}

#[test]
fn reregistration_overwrites_pending_code() {
    let codes = VerificationCodeStore::new(600);
    let mut store = TtlStore::new();
    codes.register(USER, EMAIL, "ABCDEF", &mut store, 0);
    codes.register(USER, EMAIL, "GHIJKL", &mut store, 1);
    assert!(!codes.check(USER, EMAIL, "ABCDEF", &mut store, 2));
    assert!(codes.check(USER, EMAIL, "GHIJKL", &mut store, 3));
}

#[test]
fn codes_are_per_user_and_email() {
    let codes = VerificationCodeStore::new(600);
    let mut store = TtlStore::new();
    codes.register(USER, EMAIL, "ABCDEF", &mut store, 0);
    assert!(!codes.check(USER, "other@example.com", "ABCDEF", &mut store, 1));
    assert!(!codes.check(USER + 1, EMAIL, "ABCDEF", &mut store, 1));
    assert!(codes.check(USER, EMAIL, "ABCDEF", &mut store, 2));
}

#[test]
fn generated_codes_are_six_upper_case_letters() {
    let codes = VerificationCodeStore::new(600);
    for _ in 0..50 {
        let code = codes.generate_code();
        assert_eq!(code.len(), 6);
        assert!(code.chars().all(|c| ('A'..'Z').contains(&c)));
    }
}

#[test]
fn generated_code_round_trips_through_check() {
    let codes = VerificationCodeStore::new(600);
    let mut store = TtlStore::new();
    let code = codes.generate_code();
    codes.register(USER, EMAIL, &code, &mut store, 0);
    assert!(codes.check(USER, EMAIL, &code, &mut store, 1));
}

#[test]
fn non_ascii_email_keys_work() {
    let codes = VerificationCodeStore::new(600);
    let mut store = TtlStore::new();
    codes.register(USER, "päron@example.com", "ABCDEF", &mut store, 0);
    assert!(!codes.check(USER, "paron@example.com", "ABCDEF", &mut store, 1));
    assert!(codes.check(USER, "päron@example.com", "ABCDEF", &mut store, 1));
}

#[test]
fn code_matches_decision() {
    assert!(code_matches(Some("ABCDEF".to_string()), "ABCDEF"));
    assert!(!code_matches(Some("ABCDEF".to_string()), "ABCDEG"));
    assert!(!code_matches(None, "ABCDEF"));
}
