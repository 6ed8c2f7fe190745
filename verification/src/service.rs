//! Thin orchestration over the session manager and the verification-code
//! store: credential checking for login, password hashing and verification
//! code issuance for user creation, email verification, and the validation
//! applied to a new user's fields.

use vstd::prelude::*;
use vstd::string::StringSliceAdditionalSpecFns;
use crate::codec::{token_chars, token_claims, SessionToken, SessionTokenSecret};
use crate::session::SessionManager;
use crate::store::{Record, TtlStore};
use crate::text::{uuid_str, verification_key};
use crate::verification::{is_verification_code, VerificationCodeStore};

verus! {

/// The verdict bcrypt's verification reaches on a password and a stored
/// hash string: `Some(true)` when the password matches, `Some(false)` when
/// it does not, `None` for a hash string bcrypt cannot parse. Verification
/// is deterministic, so the verdict is a function of the two strings alone.
pub uninterp spec fn bcrypt_verdict(password: Seq<char>, hash: Seq<char>) -> Option<bool>;

/// Relies on `bcrypt::hash`: a fresh random salt is drawn from the
/// operating system, so the hash string is not a function of the inputs and
/// the call may fail even on good inputs. What holds of every successful
/// outcome: the cost was within bcrypt's allowed range, and the produced
/// hash verifies against the hashed password.
#[verifier::external_body]
fn bcrypt_hash(password: &str, cost: u32) -> (r: Option<String>)
    ensures
        r is Some ==> 4 <= cost <= 31,
        match r {
            Some(h) => bcrypt_verdict(password@, h@) == Some(true),
            None => true,
        },
{
    bcrypt::hash(password, cost).ok()
}

/// Relies on `bcrypt::verify`: deterministic in the password and the hash
/// string; an unparseable hash is its error case.
#[verifier::external_body]
fn bcrypt_check(password: &str, hash: &str) -> (r: Option<bool>)
    ensures
        r == bcrypt_verdict(password@, hash@),
{
    bcrypt::verify(password, hash).ok()
}

/// What the request layer hands over of a found user record when a login is
/// attempted: the user's identifier and stored password hash.
pub struct Credentials {
    pub user_id: u128,
    pub password_hash: String,
}

/// The stored password hash of a user could not be read by the hash
/// checker: an internal failure, distinct from a failed authentication.
#[derive(Clone, Copy, PartialEq, Eq, Structural, Debug)]
pub struct StoredHashUnreadable;

/// Why a new user's fields were rejected.
#[derive(Clone, Copy, PartialEq, Eq, Structural, Debug)]
pub enum NewUserRejection {
    UsernameEmpty,
    UsernameTaken,
    EmailEmpty,
    PasswordTooShort,
    PasswordTooLong,
}

/// Minimum length of a user's password, in bytes.
pub const MIN_PASSWORD_LENGTH: usize = 6;

/// Maximum length of a user's password, in bytes.
pub const MAX_PASSWORD_LENGTH: usize = 255;

/// The validation a new user's fields must pass, in order: a username that
/// is non-empty and not taken, a non-empty email, and a password within the
/// length bounds.
pub open spec fn new_user_verdict(
    username: Seq<char>,
    email: Seq<char>,
    password_bytes: Seq<u8>,
    username_taken: bool,
) -> Result<(), NewUserRejection> {
    if username.len() == 0 {
        Err(NewUserRejection::UsernameEmpty)
    } else if username_taken {
        Err(NewUserRejection::UsernameTaken)
    } else if email.len() == 0 {
        Err(NewUserRejection::EmailEmpty)
    } else if password_bytes.len() < MIN_PASSWORD_LENGTH {
        Err(NewUserRejection::PasswordTooShort)
    } else if password_bytes.len() > MAX_PASSWORD_LENGTH {
        Err(NewUserRejection::PasswordTooLong)
    } else {
        Ok(())
    }
}

/// Validate a new user's fields. `username_taken` is what the user lookup —
/// an external collaborator — reported of the username.
pub fn validate_new_user(username: &str, email: &str, password: &str, username_taken: bool) -> (r:
    Result<(), NewUserRejection>)
    ensures
        r == new_user_verdict(username@, email@, password.spec_bytes(), username_taken),
{
    if username.unicode_len() == 0 {
        Err(NewUserRejection::UsernameEmpty)
    } else if username_taken {
        Err(NewUserRejection::UsernameTaken)
    } else if email.unicode_len() == 0 {
        Err(NewUserRejection::EmailEmpty)
    } else if password.as_bytes().len() < MIN_PASSWORD_LENGTH {
        Err(NewUserRejection::PasswordTooShort)
    } else if password.as_bytes().len() > MAX_PASSWORD_LENGTH {
        Err(NewUserRejection::PasswordTooLong)
    } else {
        Ok(())
    }
}

/// The result of a successful authentication action: the session token the
/// caller is to present on future requests.
pub struct AuthResult {
    session_token: String,
}

impl View for AuthResult {
    type V = Seq<char>;

    closed spec fn view(&self) -> Seq<char> {
        self.session_token@
    }
}

impl AuthResult {
    /// Wrap a freshly issued session token for the response.
    pub fn new(token: SessionToken) -> (r: AuthResult)
        ensures
            r@ == token@,
    {
        AuthResult { session_token: token.into_string() }
    }

    /// The session token to be used for future requests. This is sent as a
    /// bearer token in the authorization header.
    pub fn session_token(&self) -> (r: &str)
        ensures
            r@ == self@,
    {
        self.session_token.as_str()
    }
}

/// The orchestration layer: receives credentials and tokens from the
/// request layer and drives the session manager and the verification-code
/// store.
pub struct AuthService {
    /// Session creation, refresh, lookup and termination.
    pub sessions: SessionManager,
    /// Pending email-verification codes.
    pub codes: VerificationCodeStore,
    /// The cost handed to the password hasher.
    pub password_hash_cost: u32,
}

impl AuthService {
    /// Build the service from its configuration: the shared signing secret,
    /// the two expiration windows, and the password-hash cost.
    pub fn new(
        secret: SessionTokenSecret,
        session_token_expiration_seconds: u32,
        email_verification_code_expiration_seconds: u32,
        password_hash_cost: u32,
    ) -> (r: AuthService)
        ensures
            r.sessions.key() == secret@,
            r.sessions.ttl() == session_token_expiration_seconds,
            r.codes.ttl() == email_verification_code_expiration_seconds,
            r.password_hash_cost == password_hash_cost,
    {
        AuthService {
            sessions: SessionManager::new(secret, session_token_expiration_seconds),
            codes: VerificationCodeStore::new(email_verification_code_expiration_seconds),
            password_hash_cost,
        }
    }

    /// Attempt to log in: `found` is what the user lookup — an external
    /// collaborator — returned for the submitted username. Exactly when the
    /// submitted password matches the stored hash, a session is created and
    /// its token returned; an absent user or a wrong password yields
    /// `Ok(None)` with nothing changed, and a stored hash the checker
    /// cannot read is the one internal error.
    pub fn login(
        &self,
        found: Option<&Credentials>,
        password: &str,
        store: &mut TtlStore,
        now: u64,
    ) -> (r: Result<Option<SessionToken>, StoredHashUnreadable>)
        requires
            old(store).wf(),
            now + self.sessions.ttl() <= u64::MAX,
        ensures
            final(store).wf(),
            match found {
                None => r == Ok::<Option<SessionToken>, StoredHashUnreadable>(
                    None::<SessionToken>,
                ) && final(store)@ == old(store)@,
                Some(c) => match bcrypt_verdict(password@, c.password_hash@) {
                    Some(true) => match r {
                        Ok(Some(t)) => match token_claims(t@, self.sessions.key()) {
                            Some(d) => d.user_id == c.user_id
                                && t@ == token_chars(d, self.sessions.key())
                                && final(store)@ == old(store)@.insert(
                                    uuid_str(d.session_id),
                                    Record {
                                        value: t@,
                                        expires_at: (now + self.sessions.ttl()) as u64,
                                    },
                                ),
                            None => false,
                        },
                        _ => false,
                    },
                    Some(false) => r == Ok::<Option<SessionToken>, StoredHashUnreadable>(
                        None::<SessionToken>,
                    ) && final(store)@ == old(store)@,
                    None => r == Err::<Option<SessionToken>, StoredHashUnreadable>(
                        StoredHashUnreadable,
                    ) && final(store)@ == old(store)@,
                },
            },
    {
        match found {
            Some(credentials) => {
                match self.check_password(password, credentials.password_hash.as_str()) {
                    Some(true) => {
                        let token = self.sessions.create(credentials.user_id, store, now);
                        Ok(Some(token))
                    },
                    Some(false) => Ok(None),
                    None => Err(StoredHashUnreadable),
                }
            },
            None => Ok(None),
        }
    }

    /// Check a submitted password against a stored hash — the credential
    /// decision of a login. `None` stands for a stored hash the checker
    /// cannot read.
    pub fn check_password(&self, password: &str, password_hash: &str) -> (r: Option<bool>)
        ensures
            r == bcrypt_verdict(password@, password_hash@),
    {
        bcrypt_check(password, password_hash)
    }

    /// Hash a new user's password with the configured cost. `None` stands
    /// for a refusal of the hasher — a cost out of range or no randomness —
    /// and never for a property of the password.
    pub fn hash_password(&self, password: &str) -> (r: Option<String>)
        ensures
            match r {
                Some(h) => bcrypt_verdict(password@, h@) == Some(true)
                    && 4 <= self.password_hash_cost <= 31,
                None => true,
            },
    {
        bcrypt_hash(password, self.password_hash_cost)
    }

    /// Issue a fresh verification code for a newly created user: generate
    /// it and put it into the store under the (user, email) pair's key with
    /// a fresh time-to-live. Returns the code, which the caller is to send
    /// to the user's email address; a failure to send it must not undo the
    /// registration.
    pub fn issue_verification_code(
        &self,
        user_id: u128,
        email: &str,
        store: &mut TtlStore,
        now: u64,
    ) -> (code: String)
        requires
            old(store).wf(),
            now + self.codes.ttl() <= u64::MAX,
        ensures
            final(store).wf(),
            is_verification_code(code@),
            final(store)@ == old(store)@.insert(
                verification_key(user_id, email@),
                Record { value: code@, expires_at: (now + self.codes.ttl()) as u64 },
            ),
    {
        let code = self.codes.generate_code();
        self.codes.register(user_id, email, code.as_str(), store, now);
        code
    }

    /// Attempt to verify a user's email address: `found` is what the user
    /// lookup returned for the submitted user id — their id and recorded
    /// email. The check succeeds, consuming the stored code, exactly when
    /// the user exists and the submitted code equals the live stored code
    /// for the (user, email) pair; any other outcome changes nothing.
    pub fn verify_user_email_address(
        &self,
        found: Option<(u128, &str)>,
        verification_code: &str,
        store: &mut TtlStore,
        now: u64,
    ) -> (r: bool)
        requires
            old(store).wf(),
        ensures
            final(store).wf(),
            match found {
                None => r == false && final(store)@ == old(store)@,
                Some(user) => {
                    r == crate::verification::check_accepts(
                        old(store)@,
                        user.0,
                        user.1@,
                        verification_code@,
                        now,
                    )
                    && (r ==> final(store)@ == old(store)@.remove(
                        verification_key(user.0, user.1@),
                    ))
                    && (!r ==> final(store)@ == old(store)@)
                },
            },
    {
        match found {
            Some((user_id, email)) => {
                self.codes.check(user_id, email, verification_code, store, now)
            },
            None => false,
        }
    }
}

} // verus!
