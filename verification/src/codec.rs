//! Signing and verification of compact, tamper-evident session-token strings
//! under a shared symmetric secret.
//!
//! A token is the signed form of [`SessionTokenData`]. Freshness is not part
//! of the token itself: liveness of a session is decided by the store, not by
//! the signature.

use vstd::prelude::*;
use vstd::slice::slice_to_vec;
use vstd::string::StringSliceAdditionalSpecFns;

verus! {

/// Data carried inside a session token. Each identifier is the 128-bit value
/// of a UUID.
#[derive(Clone, Copy, PartialEq, Eq, Structural, Debug)]
pub struct SessionTokenData {
    /// The session this token belongs to; its text form is the store key of
    /// the session record.
    pub session_id: u128,
    /// Distinguishes tokens issued for the same session: every issuance and
    /// every refresh mints a fresh one, so only the most recently issued
    /// token can match the stored record.
    pub session_token_id: u128,
    /// The user the session authenticates.
    pub user_id: u128,
}

/// The symmetric secret under which session tokens are signed and verified.
/// Its mathematical identity is the byte sequence it was built from.
pub struct SessionTokenSecret {
    bytes: Vec<u8>,
}

impl Clone for SessionTokenSecret {
    fn clone(&self) -> (r: Self)
        ensures
            r@ == self@,
    {
        SessionTokenSecret { bytes: self.bytes.clone() }
    }
}

impl View for SessionTokenSecret {
    type V = Seq<u8>;

    closed spec fn view(&self) -> Seq<u8> {
        self.bytes@
    }
}

/// The signed token string produced for given claims under a given secret.
/// The signing routine is deterministic, so the result is a function of the
/// claims and the secret bytes alone.
pub uninterp spec fn token_chars(data: SessionTokenData, key: Seq<u8>) -> Seq<char>;

/// The claims recovered when a candidate token string is verified under a
/// secret: `Some` exactly when the string is structurally well formed and its
/// signature matches, `None` otherwise. Verification is deterministic, so the
/// result is a function of the string and the secret bytes alone.
pub uninterp spec fn token_claims(token: Seq<char>, key: Seq<u8>) -> Option<SessionTokenData>;

/// Relies on jwt's `SignWithKey` with an `Hmac<Sha256>` key: signing is a
/// deterministic function of the claims and the key bytes; a signed token
/// verifies back to the same claims under the same key; and, because the
/// signature is an HMAC, a token signed under one key fails verification
/// under any different key of the same length. The length restriction is
/// there because HMAC pads a short key with zero bytes, so keys that differ
/// only by trailing zero bytes sign alike; for keys longer than the hash
/// block size, which HMAC first digests, the clause rests on the usual
/// collision-freedom of SHA-256, as all use of HMAC does.
#[verifier::external_body]
fn jwt_sign(data: &SessionTokenData, key: &[u8]) -> (r: String)
    ensures
        r@ == token_chars(*data, key@),
        token_claims(r@, key@) == Some(*data),
        forall|other: Seq<u8>| other.len() == key@.len() && other != key@
            ==> token_claims(r@, other) is None,
{
    let key = <hmac::Hmac<sha2::Sha256> as hmac::Mac>::new_from_slice(key).unwrap();
    let mut claims = std::collections::BTreeMap::new();
    claims.insert("session_id", uuid::Uuid::from_u128(data.session_id).to_string());
    claims.insert("session_token_id", uuid::Uuid::from_u128(data.session_token_id).to_string());
    claims.insert("user_id", uuid::Uuid::from_u128(data.user_id).to_string());
    jwt::SignWithKey::sign_with_key(claims, &key).unwrap()
}

/// Relies on jwt's `VerifyWithKey` with an `Hmac<Sha256>` key: verification
/// is a deterministic function of the candidate string and the key bytes,
/// and returns the claims only when the signature matches.
#[verifier::external_body]
fn jwt_verify(token: &str, key: &[u8]) -> (r: Option<SessionTokenData>)
    ensures
        r == token_claims(token@, key@),
{
    let key = <hmac::Hmac<sha2::Sha256> as hmac::Mac>::new_from_slice(key).ok()?;
    let claims: std::collections::BTreeMap<String, String> =
        jwt::VerifyWithKey::verify_with_key(token, &key).ok()?;
    let session_id = uuid::Uuid::try_parse(claims.get("session_id")?).ok()?;
    let session_token_id = uuid::Uuid::try_parse(claims.get("session_token_id")?).ok()?;
    let user_id = uuid::Uuid::try_parse(claims.get("user_id")?).ok()?;
    Some(SessionTokenData {
        session_id: session_id.as_u128(),
        session_token_id: session_token_id.as_u128(),
        user_id: user_id.as_u128(),
    })
}

/// An encoded session token: an opaque string, safe to send as a bearer
/// credential. Possession of a token that verifies and matches the stored
/// session record is what authenticates a caller.
#[derive(Debug)]
pub struct SessionToken {
    text: String,
}

impl View for SessionToken {
    type V = Seq<char>;

    closed spec fn view(&self) -> Seq<char> {
        self.text@
    }
}

impl Clone for SessionToken {
    fn clone(&self) -> (r: Self)
        ensures
            r@ == self@,
    {
        SessionToken { text: self.text.clone() }
    }
}

impl PartialEq for SessionToken {
    fn eq(&self, other: &Self) -> (r: bool)
        ensures
            r == (self@ == other@),
    {
        self.text == other.text
    }
}

impl vstd::std_specs::cmp::PartialEqSpecImpl for SessionToken {
    open spec fn obeys_eq_spec() -> bool {
        true
    }

    open spec fn eq_spec(&self, other: &Self) -> bool {
        self@ == other@
    }
}

impl SessionToken {
    /// Encode session token data as a signed session token using a specified
    /// secret.
    ///
    /// The last two clauses are the codec's two laws: a token decodes back to
    /// exactly the claims it was built from under the same secret (round
    /// trip), and decodes to nothing under any different secret of the same
    /// length (wrong-key rejection).
    pub fn encode(data: SessionTokenData, secret: &SessionTokenSecret) -> (r: Self)
        ensures
            r@ == token_chars(data, secret@),
            token_claims(r@, secret@) == Some(data),
            forall|other: Seq<u8>| other.len() == secret@.len() && other != secret@
                ==> token_claims(r@, other) is None,
    {
        SessionToken { text: jwt_sign(&data, self::slice_of(&secret.bytes)) }
    }

    /// Attempt to decode a candidate session token using a specified secret,
    /// returning its data exactly when the string verifies. Every failure —
    /// bad signature, malformed string, wrong secret — collapses to `None`.
    pub fn decode(token: &str, secret: &SessionTokenSecret) -> (r: Option<SessionTokenData>)
        ensures
            r == token_claims(token@, secret@),
    {
        jwt_verify(token, self::slice_of(&secret.bytes))
    }

    /// Verify a possible session token, returning its canonical re-signed
    /// form when it validates and `None` otherwise. Same claims in, same
    /// claims out: this is defensive re-validation, not a transformation.
    pub fn verify(token: &str, secret: &SessionTokenSecret) -> (r: Option<SessionToken>)
        ensures
            match r {
                Some(t) => token_claims(token@, secret@) matches Some(d)
                    && t@ == token_chars(d, secret@)
                    && token_claims(t@, secret@) == Some(d),
                None => token_claims(token@, secret@) is None,
            },
    {
        match Self::decode(token, secret) {
            Some(data) => Some(Self::encode(data, secret)),
            None => None,
        }
    }

    /// Convert a string into a session token secret; the secret's bytes are
    /// the UTF-8 bytes of the string.
    pub fn secret(string: &str) -> (r: SessionTokenSecret)
        ensures
            r@ == string.spec_bytes(),
    {
        SessionTokenSecret { bytes: slice_to_vec(string.as_bytes()) }
    }

    /// The token's text, as placed in a bearer-authorization header.
    pub fn as_str(&self) -> (r: &str)
        ensures
            r@ == self@,
    {
        self.text.as_str()
    }

    /// The token's text as an owned string.
    pub fn into_string(self) -> (r: String)
        ensures
            r@ == self@,
    {
        self.text
    }
}

/// View a byte vector as a slice.
fn slice_of(bytes: &Vec<u8>) -> (r: &[u8])
    ensures
        r@ == bytes@,
{
    bytes.as_slice()
}

} // verus!
