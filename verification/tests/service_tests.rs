use session_auth::codec::{SessionToken, SessionTokenData};
use session_auth::service::{
    validate_new_user, AuthResult, AuthService, Credentials, NewUserRejection,
    StoredHashUnreadable,
};
use session_auth::store::TtlStore;

const USER: u128 = 21;

fn service() -> AuthService {
    // Cost 4 is bcrypt's minimum; it keeps the tests quick.
    AuthService::new(SessionToken::secret("s3cr3t"), 3600, 600, 4)
}

#[test]
fn login_issues_token_for_matching_password() {
    let svc = service();
    let hash = svc.hash_password("hunter2!").unwrap();
    let creds = Credentials {
        user_id: USER,
        password_hash: hash,
    };
    let mut store = TtlStore::new();
    let token = svc
        .login(Some(&creds), "hunter2!", &mut store, 0)
        .unwrap()
        .unwrap();
    let secret = SessionToken::secret("s3cr3t");
    let claims = SessionToken::decode(token.as_str(), &secret).unwrap();
    assert_eq!(claims.user_id, USER);
    // The issued token is canonical: it refreshes.
    assert!(svc.sessions.refresh(token.as_str(), &mut store, 1).is_some());
}

#[test]
fn login_rejects_wrong_password_and_unknown_user() {
    let svc = service();
    let hash = svc.hash_password("hunter2!").unwrap();
    let creds = Credentials {
        user_id: USER,
        password_hash: hash,
    };
    let mut store = TtlStore::new();
    assert_eq!(
        svc.login(Some(&creds), "wrong-password", &mut store, 0),
        Ok(None)
    );
    assert_eq!(svc.login(None, "hunter2!", &mut store, 0), Ok(None));
}

#[test]
fn login_reports_unreadable_stored_hash() {
    let svc = service();
    let creds = Credentials {
        user_id: USER,
        password_hash: "not-a-bcrypt-hash".to_string(),
    };
    let mut store = TtlStore::new();
    assert_eq!(
        svc.login(Some(&creds), "hunter2!", &mut store, 0),
        Err(StoredHashUnreadable)
    );
}

#[test]
fn password_hash_verifies_with_bcrypt_itself() {
    let svc = service();
    let hash = svc.hash_password("hunter2!").unwrap();
    assert_ne!(hash, "hunter2!");
    assert!(bcrypt::verify("hunter2!", &hash).unwrap());
    assert!(!bcrypt::verify("something-else", &hash).unwrap());
}

#[test]
fn check_password_agrees_with_bcrypt() {
    let svc = service();
    let hash = bcrypt::hash("pa55word", 4).unwrap();
    assert_eq!(svc.check_password("pa55word", &hash), Some(true));
    assert_eq!(svc.check_password("pa55wore", &hash), Some(false));
    assert_eq!(svc.check_password("pa55word", "broken"), None);
}

#[test]
fn out_of_range_hash_cost_is_refused() {
    let svc = AuthService::new(SessionToken::secret("s3cr3t"), 3600, 600, 99);
    assert_eq!(svc.hash_password("hunter2!"), None);
}

#[test]
fn new_user_validation_order_and_variants() {
    assert_eq!(
        validate_new_user("", "a@b.c", "longenough", false),
        Err(NewUserRejection::UsernameEmpty)
    );
    assert_eq!(
        validate_new_user("sam", "a@b.c", "longenough", true),
        Err(NewUserRejection::UsernameTaken)
    );
    assert_eq!(
        validate_new_user("sam", "", "longenough", false),
        Err(NewUserRejection::EmailEmpty)
    );
    assert_eq!(
        validate_new_user("sam", "a@b.c", "short", false),
        Err(NewUserRejection::PasswordTooShort)
    );
    let long = "x".repeat(256);
    assert_eq!(
        validate_new_user("sam", "a@b.c", &long, false),
        Err(NewUserRejection::PasswordTooLong)
    );
    let longest_allowed = "x".repeat(255);
    assert_eq!(validate_new_user("sam", "a@b.c", &longest_allowed, false), Ok(()));
    assert_eq!(validate_new_user("sam", "a@b.c", "123456", false), Ok(()));
}

#[test]
fn issued_code_verifies_once() {
    let svc = service();
    let mut store = TtlStore::new();
    let code = svc.issue_verification_code(USER, "a@b.c", &mut store, 0);
    assert_eq!(code.len(), 6);
    assert!(!svc.verify_user_email_address(Some((USER, "a@b.c")), "WRONG1", &mut store, 1));
    assert!(svc.verify_user_email_address(Some((USER, "a@b.c")), &code, &mut store, 2));
    assert!(!svc.verify_user_email_address(Some((USER, "a@b.c")), &code, &mut store, 3));
}

#[test]
fn verification_without_user_fails() {
    let svc = service();
    let mut store = TtlStore::new();
    let code = svc.issue_verification_code(USER, "a@b.c", &mut store, 0);
    assert!(!svc.verify_user_email_address(None, &code, &mut store, 1));
    // The record is untouched and still verifiable.
    assert!(svc.verify_user_email_address(Some((USER, "a@b.c")), &code, &mut store, 2));
}

#[test]
fn auth_result_exposes_token_text() {
    let secret = SessionToken::secret("s3cr3t");
    let token = SessionToken::encode(
        SessionTokenData {
            session_id: 1,
            session_token_id: 2,
            user_id: 3,
        },
        &secret,
    );
    let text = token.as_str().to_string();
    let result = AuthResult::new(token);
    assert_eq!(result.session_token(), text);
}
