//! Session lifecycle against the shared store: creation, rotate-on-use
//! refresh, logout, and lookup.
//!
//! The store, not the signature, is the source of truth for liveness: for a
//! given session at most one token string — the stored one — is canonical,
//! and a signed but superseded token is rejected at the comparison in
//! [`SessionManager::refresh`], not at decode time.

use vstd::prelude::*;
use crate::codec::{SessionToken, SessionTokenData, SessionTokenSecret, token_chars, token_claims};
use crate::store::{live_at, Record, TtlStore};
use crate::text::{uuid_str, uuid_string};

verus! {

/// Relies on `uuid::Uuid::new_v4`: a freshly drawn random 128-bit UUID
/// value. Nothing is assumed of the draw — every contract downstream holds
/// whatever value comes back.
#[verifier::external_body]
fn fresh_uuid() -> u128 {
    uuid::Uuid::new_v4().as_u128()
}

/// Orchestrates session creation, refresh, lookup and termination using the
/// token codec and the shared store.
pub struct SessionManager {
    secret: SessionTokenSecret,
    expiration_seconds: u32,
}

impl SessionManager {
    /// The bytes of the signing secret.
    pub closed spec fn key(self) -> Seq<u8> {
        self.secret@
    }

    /// The time-to-live of a session record, in seconds.
    pub closed spec fn ttl(self) -> u32 {
        self.expiration_seconds
    }

    /// A session manager signing with `secret`, whose session records live
    /// for `expiration_seconds` from their last issuance or refresh.
    pub fn new(secret: SessionTokenSecret, expiration_seconds: u32) -> (r: SessionManager)
        ensures
            r.key() == secret@,
            r.ttl() == expiration_seconds,
    {
        SessionManager { secret, expiration_seconds }
    }

    /// Whether a presented token string would be accepted for refresh
    /// against store contents `m` at time `now`: it must decode under the
    /// manager's secret, its session record must be live, and it must equal
    /// the stored canonical token exactly.
    pub open spec fn refresh_accepts(self, m: Map<Seq<char>, Record>, presented: Seq<char>, now: u64) -> bool {
        match token_claims(presented, self.key()) {
            Some(d) => {
                let k = uuid_str(d.session_id);
                live_at(m, k, now) && m[k].value == presented
            },
            None => false,
        }
    }

    /// Mint the signed token of a new or refreshed session together with
    /// the store key of its session record. The caller makes the token
    /// canonical by writing its text under the key with the manager's
    /// time-to-live.
    pub fn issue(&self, session_id: u128, session_token_id: u128, user_id: u128) -> (r: (
        SessionToken,
        String,
    ))
        ensures
            ({
                let d = SessionTokenData { session_id, session_token_id, user_id };
                r.0@ == token_chars(d, self.key()) && token_claims(r.0@, self.key()) == Some(d)
            }),
            r.1@ == uuid_str(session_id),
    {
        let data = SessionTokenData { session_id, session_token_id, user_id };
        let token = SessionToken::encode(data, &self.secret);
        let key_text = uuid_string(session_id);
        (token, key_text)
    }

    /// The store key of the session a presented token speaks of: the text
    /// form of its session identifier, exactly when the token decodes under
    /// the manager's secret.
    pub fn token_session_key(&self, presented: &str) -> (r: Option<String>)
        ensures
            match (r, token_claims(presented@, self.key())) {
                (Some(k), Some(d)) => k@ == uuid_str(d.session_id),
                (None, None) => true,
                _ => false,
            },
    {
        match SessionToken::decode(presented, &self.secret) {
            Some(data) => Some(uuid_string(data.session_id)),
            None => None,
        }
    }

    /// The decision at the heart of a refresh, from the presented token and
    /// the stored canonical token of its session as fetched from the store:
    /// exactly when the presented token decodes and equals the stored
    /// string, a token with the same session and user but the fresh token
    /// identifier is minted. The caller writes the minted token back under
    /// the session's key, which makes the presented one stale.
    pub fn rotate_decision(
        &self,
        presented: &str,
        stored: Option<String>,
        new_token_id: u128,
    ) -> (r: Option<SessionToken>)
        ensures
            r is Some <==> (token_claims(presented@, self.key()) is Some
                && (stored matches Some(s) && s@ == presented@)),
            match r {
                Some(t) => match (token_claims(presented@, self.key()), token_claims(
                    t@,
                    self.key(),
                )) {
                    (Some(d), Some(d2)) => d2 == (SessionTokenData {
                        session_id: d.session_id,
                        session_token_id: new_token_id,
                        user_id: d.user_id,
                    }) && t@ == token_chars(d2, self.key()),
                    _ => false,
                },
                None => true,
            },
    {
        match SessionToken::decode(presented, &self.secret) {
            Some(data) => match stored {
                Some(stored_text) => {
                    if stored_text == presented.to_owned() {
                        let rotated = SessionTokenData {
                            session_id: data.session_id,
                            session_token_id: new_token_id,
                            user_id: data.user_id,
                        };
                        Some(SessionToken::encode(rotated, &self.secret))
                    } else {
                        None
                    }
                },
                None => None,
            },
            None => None,
        }
    }

    /// Create a session for `user_id` with the given fresh identifiers:
    /// build the claims, sign them, and write the token into the store under
    /// the session's key with a fresh time-to-live.
    pub fn create_with_ids(
        &self,
        session_id: u128,
        session_token_id: u128,
        user_id: u128,
        store: &mut TtlStore,
        now: u64,
    ) -> (r: SessionToken)
        requires
            old(store).wf(),
            now + self.ttl() <= u64::MAX,
        ensures
            final(store).wf(),
            r@ == token_chars(
                SessionTokenData { session_id, session_token_id, user_id },
                self.key(),
            ),
            token_claims(r@, self.key())
                == Some(SessionTokenData { session_id, session_token_id, user_id }),
            final(store)@ == old(store)@.insert(
                uuid_str(session_id),
                Record { value: r@, expires_at: (now + self.ttl()) as u64 },
            ),
    {
        let (token, key_text) = self.issue(session_id, session_token_id, user_id);
        store.set_ex(key_text, token.as_str().to_owned(), self.expiration_seconds, now);
        token
    }

    /// Create a session for `user_id`: two fresh random identifiers are
    /// drawn, the claims are signed, and the token is written into the store
    /// under the new session's key. Returns the token.
    pub fn create(&self, user_id: u128, store: &mut TtlStore, now: u64) -> (r: SessionToken)
        requires
            old(store).wf(),
            now + self.ttl() <= u64::MAX,
        ensures
            final(store).wf(),
            match token_claims(r@, self.key()) {
                Some(d) => d.user_id == user_id
                    && r@ == token_chars(d, self.key())
                    && final(store)@ == old(store)@.insert(
                        uuid_str(d.session_id),
                        Record { value: r@, expires_at: (now + self.ttl()) as u64 },
                    ),
                None => false,
            },
    {
        let session_id = fresh_uuid();
        let session_token_id = fresh_uuid();
        self.create_with_ids(session_id, session_token_id, user_id, store, now)
    }

    /// Refresh a presented token using the given fresh token identifier.
    /// Acceptance is exactly [`SessionManager::refresh_accepts`]: the token
    /// must decode, its session record must be live, and the token must
    /// equal the stored canonical string. On acceptance a new token with the
    /// same session and user but the fresh token identifier replaces the
    /// stored one under a fresh time-to-live; the superseded token is no
    /// longer the stored value from that instant on. On rejection nothing
    /// changes.
    pub fn refresh_with_id(
        &self,
        presented: &str,
        new_token_id: u128,
        store: &mut TtlStore,
        now: u64,
    ) -> (r: Option<SessionToken>)
        requires
            old(store).wf(),
            now + self.ttl() <= u64::MAX,
        ensures
            final(store).wf(),
            r is Some <==> self.refresh_accepts(old(store)@, presented@, now),
            match r {
                Some(t) => match token_claims(presented@, self.key()) {
                    Some(d) => {
                        let d2 = SessionTokenData {
                            session_id: d.session_id,
                            session_token_id: new_token_id,
                            user_id: d.user_id,
                        };
                        t@ == token_chars(d2, self.key())
                        && token_claims(t@, self.key()) == Some(d2)
                        && final(store)@ == old(store)@.insert(
                            uuid_str(d.session_id),
                            Record { value: t@, expires_at: (now + self.ttl()) as u64 },
                        )
                    },
                    None => false,
                },
                None => final(store)@ == old(store)@,
            },
    {
        match self.token_session_key(presented) {
            Some(key_text) => {
                let stored = store.get(key_text.as_str(), now);
                match self.rotate_decision(presented, stored, new_token_id) {
                    Some(token) => {
                        store.set_ex(
                            key_text,
                            token.as_str().to_owned(),
                            self.expiration_seconds,
                            now,
                        );
                        Some(token)
                    },
                    None => None,
                }
            },
            None => None,
        }
    }

    /// Refresh a presented token: rotate-on-use. A fresh token identifier is
    /// drawn; acceptance and the effect on the store are exactly those of
    /// [`SessionManager::refresh_with_id`]. The store is held exclusively
    /// for the whole read-compare-write, so of two refreshes of the same
    /// token one sees the other's rotated value and is rejected; a caller
    /// binding these decisions to an outside cache must keep the sequence
    /// conditional in the same way.
    pub fn refresh(&self, presented: &str, store: &mut TtlStore, now: u64) -> (r: Option<
        SessionToken,
    >)
        requires
            old(store).wf(),
            now + self.ttl() <= u64::MAX,
        ensures
            final(store).wf(),
            r is Some <==> self.refresh_accepts(old(store)@, presented@, now),
            match r {
                Some(t) => match (token_claims(presented@, self.key()), token_claims(t@, self.key())) {
                    (Some(d), Some(d2)) => rotated_claims(d, d2)
                        && t@ == token_chars(d2, self.key())
                        && final(store)@ == old(store)@.insert(
                            uuid_str(d.session_id),
                            Record { value: t@, expires_at: (now + self.ttl()) as u64 },
                        ),
                    _ => false,
                },
                None => final(store)@ == old(store)@,
            },
    {
        let new_token_id = fresh_uuid();
        self.refresh_with_id(presented, new_token_id, store, now)
    }

    /// Terminate the session a presented token speaks of. The token need
    /// only decode — no equality check: any validly signed token of a
    /// session suffices to identify and kill it. Returns whether a live
    /// session record existed and was removed.
    pub fn logout(&self, presented: &str, store: &mut TtlStore, now: u64) -> (r: bool)
        requires
            old(store).wf(),
        ensures
            final(store).wf(),
            match token_claims(presented@, self.key()) {
                Some(d) => r == live_at(old(store)@, uuid_str(d.session_id), now)
                    && final(store)@ == old(store)@.remove(uuid_str(d.session_id)),
                None => r == false && final(store)@ == old(store)@,
            },
    {
        match self.token_session_key(presented) {
            Some(key_text) => store.del(key_text.as_str(), now),
            None => false,
        }
    }

    /// Find a session by identifier and return its stored token,
    /// defensively re-signed. `None` when the record is absent, expired, or
    /// holds a string that does not verify.
    pub fn find_session(&self, session_id: u128, store: &TtlStore, now: u64) -> (r: Option<
        SessionToken,
    >)
        requires
            store.wf(),
        ensures
            match r {
                Some(t) => live_at(store@, uuid_str(session_id), now)
                    && match token_claims(store@[uuid_str(session_id)].value, self.key()) {
                        Some(d) => t@ == token_chars(d, self.key())
                            && token_claims(t@, self.key()) == Some(d),
                        None => false,
                    },
                None => !live_at(store@, uuid_str(session_id), now)
                    || token_claims(store@[uuid_str(session_id)].value, self.key()) is None,
            },
    {
        let key_text = uuid_string(session_id);
        match store.get(key_text.as_str(), now) {
            Some(stored) => SessionToken::verify(stored.as_str(), &self.secret),
            None => None,
        }
    }

    /// Rotation invalidation: when a refresh of `t1` has been accepted and
    /// has stored the fresh token `t2` in its place, the superseded `t1` is
    /// rejected by any later refresh while the record lives, and `t2` is
    /// accepted.
    pub proof fn lemma_rotation_invalidation(
        self,
        m0: Map<Seq<char>, Record>,
        m1: Map<Seq<char>, Record>,
        t1: Seq<char>,
        t2: Seq<char>,
        d1: SessionTokenData,
        d2: SessionTokenData,
        expires_at: u64,
        now: u64,
        now2: u64,
    )
        requires
            token_claims(t1, self.key()) == Some(d1),
            self.refresh_accepts(m0, t1, now),
            d2.session_id == d1.session_id,
            d2.user_id == d1.user_id,
            d2.session_token_id != d1.session_token_id,
            t2 == token_chars(d2, self.key()),
            token_claims(t2, self.key()) == Some(d2),
            m1 == m0.insert(uuid_str(d1.session_id), Record { value: t2, expires_at }),
            now2 < expires_at,
        ensures
            !self.refresh_accepts(m1, t1, now2),
            self.refresh_accepts(m1, t2, now2),
    {
        let k = uuid_str(d1.session_id);
        assert(m1[k].value == t2);
        if t1 == t2 {
            assert(Some(d1) == Some(d2));
            assert(false);
        }
    }

    /// Logout finality: once the session record of a token's session has
    /// been removed, neither that token nor any other token of the same
    /// session is accepted for refresh, and a second logout finds no live
    /// record.
    pub proof fn lemma_logout_finality(
        self,
        m1: Map<Seq<char>, Record>,
        m2: Map<Seq<char>, Record>,
        t1: Seq<char>,
        t2: Seq<char>,
        d1: SessionTokenData,
        d2: SessionTokenData,
        now: u64,
    )
        requires
            token_claims(t1, self.key()) == Some(d1),
            token_claims(t2, self.key()) == Some(d2),
            d1.session_id == d2.session_id,
            m2 == m1.remove(uuid_str(d2.session_id)),
        ensures
            !self.refresh_accepts(m2, t1, now),
            !self.refresh_accepts(m2, t2, now),
            !live_at(m2, uuid_str(d2.session_id), now),
    {
    }

}

/// The claims relation a single accepted refresh establishes between the
/// presented token's claims and the freshly issued token's claims: the
/// session and user identity carry over; only the token identifier may
/// differ.
pub open spec fn rotated_claims(d: SessionTokenData, d2: SessionTokenData) -> bool {
    d2.session_id == d.session_id && d2.user_id == d.user_id
}

/// Refresh identity preservation, along a chain: across any chain of
/// refreshes starting from a created session, the session and user identity
/// in the claims never change; only the token identifier changes from link
/// to link.
pub proof fn lemma_refresh_chain_preserves_identity(chain: Seq<SessionTokenData>)
    requires
        chain.len() >= 1,
        forall|i: int| 0 <= i < chain.len() - 1
            ==> rotated_claims(#[trigger] chain[i], chain[i + 1]),
    ensures
        forall|i: int| 0 <= i < chain.len()
            ==> (#[trigger] chain[i]).session_id == chain[0].session_id
                && chain[i].user_id == chain[0].user_id,
{
    assert forall|i: int| 0 <= i < chain.len()
        implies (#[trigger] chain[i]).session_id == chain[0].session_id
            && chain[i].user_id == chain[0].user_id by {
        lemma_chain_link(chain, i);
    }
}

proof fn lemma_chain_link(chain: Seq<SessionTokenData>, i: int)
    requires
        forall|j: int| 0 <= j < chain.len() - 1
            ==> rotated_claims(#[trigger] chain[j], chain[j + 1]),
        0 <= i < chain.len(),
    ensures
        chain[i].session_id == chain[0].session_id,
        chain[i].user_id == chain[0].user_id,
    decreases i,
{
    if i > 0 {
        lemma_chain_link(chain, i - 1);
        assert(rotated_claims(chain[i - 1], chain[i]));
    }
}

} // verus!
