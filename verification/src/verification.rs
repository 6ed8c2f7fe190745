//! Time-boxed, single-use email-verification codes, stored per
//! (user, email) pair in the shared store.

use vstd::prelude::*;
use crate::store::{live_at, Record, TtlStore};
use crate::text::{
    lemma_store_keys_disjoint, make_verification_key, push_char, uuid_str, verification_key,
};

verus! {

/// Relies on rand's `Rng::gen_range` over a `thread_rng`: a uniformly drawn
/// value below the bound. Nothing more is assumed of the draw than its
/// bound; the range must be non-empty, else the call panics.
#[verifier::external_body]
fn sample_below(bound: u8) -> (r: u8)
    requires
        0 < bound,
    ensures
        r < bound,
{
    rand::Rng::gen_range(&mut rand::thread_rng(), 0..bound)
}

/// A verification code as generated: six upper-case ASCII letters, each
/// drawn from `A` up to but not including `Z`.
pub open spec fn is_verification_code(s: Seq<char>) -> bool {
    s.len() == 6 && forall|i: int| 0 <= i < 6 ==> 'A' <= #[trigger] s[i] && s[i] < 'Z'
}

/// Whether a submitted code would be accepted for (user, email) against
/// store contents `m` at time `now`: the pair's record must be live and
/// hold exactly the submitted code.
pub open spec fn check_accepts(
    m: Map<Seq<char>, Record>,
    user_id: u128,
    email: Seq<char>,
    submitted: Seq<char>,
    now: u64,
) -> bool {
    live_at(m, verification_key(user_id, email), now)
        && m[verification_key(user_id, email)].value == submitted
}

/// Stores one short-lived, single-use verification code per (user, email)
/// pair.
pub struct VerificationCodeStore {
    expiration_seconds: u32,
}

impl VerificationCodeStore {
    /// The time-to-live of a verification record, in seconds.
    pub closed spec fn ttl(self) -> u32 {
        self.expiration_seconds
    }

    /// A code store whose records live for `expiration_seconds` from their
    /// registration.
    pub fn new(expiration_seconds: u32) -> (r: VerificationCodeStore)
        ensures
            r.ttl() == expiration_seconds,
    {
        VerificationCodeStore { expiration_seconds }
    }

    /// Create a new user-friendly verification code: six independently
    /// drawn upper-case letters.
    pub fn generate_code(&self) -> (r: String)
        ensures
            is_verification_code(r@),
    {
        let mut out = String::new();
        let mut i: usize = 0;
        while i < 6
            invariant
                i <= 6,
                out@.len() == i,
                forall|j: int| 0 <= j < i ==> 'A' <= #[trigger] out@[j] && out@[j] < 'Z',
            decreases 6 - i,
        {
            let offset = sample_below(25);
            let letter = upper_letter(offset);
            push_char(&mut out, letter);
            i += 1;
        }
        out
    }

    /// Put a new verification code for (user, email) into the store with a
    /// fresh time-to-live, overwriting any prior pending code for the pair.
    /// Session records share the store but their keys are never touched: a
    /// verification key begins with `verify/`, a session key with a hex
    /// digit.
    pub fn register(
        &self,
        user_id: u128,
        email: &str,
        verification_code: &str,
        store: &mut TtlStore,
        now: u64,
    )
        requires
            old(store).wf(),
            now + self.ttl() <= u64::MAX,
        ensures
            final(store).wf(),
            final(store)@ == old(store)@.insert(
                verification_key(user_id, email@),
                Record { value: verification_code@, expires_at: (now + self.ttl()) as u64 },
            ),
            forall|session_id: u128| final(store)@.contains_key(#[trigger] uuid_str(session_id))
                == old(store)@.contains_key(uuid_str(session_id))
                && (old(store)@.contains_key(uuid_str(session_id))
                    ==> final(store)@[uuid_str(session_id)]
                        == old(store)@[uuid_str(session_id)]),
    {
        let key_text = make_verification_key(user_id, email);
        store.set_ex(key_text, verification_code.to_owned(), self.expiration_seconds, now);
        proof {
            assert forall|session_id: u128|
                store@.contains_key(#[trigger] uuid_str(session_id))
                    == old(store)@.contains_key(uuid_str(session_id))
                    && (old(store)@.contains_key(uuid_str(session_id))
                        ==> store@[uuid_str(session_id)]
                            == old(store)@[uuid_str(session_id)]) by {
                lemma_store_keys_disjoint(session_id, user_id, email@);
            }
        }
    }

    /// Check a submitted code for (user, email): exactly when a live stored
    /// code equals it, the record is consumed (deleted) and the check
    /// succeeds; otherwise nothing changes, so the user may retry until the
    /// record expires.
    pub fn check(
        &self,
        user_id: u128,
        email: &str,
        submitted_code: &str,
        store: &mut TtlStore,
        now: u64,
    ) -> (r: bool)
        requires
            old(store).wf(),
        ensures
            final(store).wf(),
            r == check_accepts(old(store)@, user_id, email@, submitted_code@, now),
            r ==> final(store)@ == old(store)@.remove(verification_key(user_id, email@)),
            !r ==> final(store)@ == old(store)@,
    {
        let key_text = make_verification_key(user_id, email);
        let stored = store.get(key_text.as_str(), now);
        if code_matches(stored, submitted_code) {
            store.del(key_text.as_str(), now);
            true
        } else {
            false
        }
    }
}

/// The acceptance decision of a check, from the stored code of the
/// (user, email) pair as fetched from the store and the submitted one:
/// accepted exactly when a stored code exists and equals the submission.
/// On acceptance the caller consumes the record by deleting it.
pub fn code_matches(stored: Option<String>, submitted_code: &str) -> (r: bool)
    ensures
        r == (stored matches Some(c) && c@ == submitted_code@),
{
    match stored {
        Some(code) => code == submitted_code.to_owned(),
        None => false,
    }
}

fn upper_letter(offset: u8) -> (c: char)
    requires
        offset < 25,
    ensures
        'A' <= c && c < 'Z',
{
    let code: u8 = 65 + offset;
    let c = code as char;
    proof {
        assert(c as u8 == code);
    }
    c
}

/// Verification single-use: a correct check consumes the stored code, so
/// repeating the very same check right after fails.
pub proof fn lemma_check_single_use(
    m1: Map<Seq<char>, Record>,
    m2: Map<Seq<char>, Record>,
    user_id: u128,
    email: Seq<char>,
    code: Seq<char>,
    now: u64,
    now2: u64,
)
    requires
        check_accepts(m1, user_id, email, code, now),
        m2 == m1.remove(verification_key(user_id, email)),
    ensures
        !check_accepts(m2, user_id, email, code, now2),
{
}

/// Verification mismatch is non-consuming: a wrong submission is rejected,
/// and because rejection leaves the store unchanged, the correct code still
/// succeeds afterwards while its record lives.
pub proof fn lemma_check_mismatch_non_consuming(
    m: Map<Seq<char>, Record>,
    user_id: u128,
    email: Seq<char>,
    code: Seq<char>,
    submitted: Seq<char>,
    now: u64,
    now2: u64,
)
    requires
        check_accepts(m, user_id, email, code, now),
        submitted != code,
        now2 < m[verification_key(user_id, email)].expires_at,
    ensures
        !check_accepts(m, user_id, email, submitted, now),
        check_accepts(m, user_id, email, code, now2),
{
}

} // verus!
