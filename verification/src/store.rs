//! Model of the shared keyed cache that holds all session and verification
//! state: a string-keyed store whose records carry a time-to-live deadline.
//!
//! Every operation takes the current time; a record is live only while the
//! time is before its deadline, so an expired record behaves exactly as an
//! absent one.

use vstd::prelude::*;
use vstd::map::*;

verus! {

/// One stored record: its value and the instant at which it expires.
pub ghost struct Record {
    pub value: Seq<char>,
    pub expires_at: u64,
}

/// A record under `key` exists in `m` and has not expired at time `now`.
pub open spec fn live_at(m: Map<Seq<char>, Record>, key: Seq<char>, now: u64) -> bool {
    m.contains_key(key) && now < m[key].expires_at
}

struct StoreEntry {
    key: String,
    value: String,
    expires_at: u64,
}

spec fn record_of(e: StoreEntry) -> Record {
    Record { value: e.value@, expires_at: e.expires_at }
}

spec fn unique_keys(s: Seq<StoreEntry>) -> bool {
    forall|i: int, j: int| 0 <= i < j < s.len() ==> s[i].key@ != s[j].key@
}

spec fn has_key(s: Seq<StoreEntry>, k: Seq<char>) -> bool {
    exists|i: int| 0 <= i < s.len() && s[i].key@ == k
}

spec fn index_of(s: Seq<StoreEntry>, k: Seq<char>) -> int {
    choose|i: int| 0 <= i < s.len() && s[i].key@ == k
}

spec fn seq_view(s: Seq<StoreEntry>) -> Map<Seq<char>, Record> {
    Map::new(|k: Seq<char>| has_key(s, k), |k: Seq<char>| record_of(s[index_of(s, k)]))
}

proof fn lemma_index_of(s: Seq<StoreEntry>, k: Seq<char>, i: int)
    requires
        unique_keys(s),
        0 <= i < s.len(),
        s[i].key@ == k,
    ensures
        has_key(s, k),
        index_of(s, k) == i,
        seq_view(s).contains_key(k),
        seq_view(s)[k] == record_of(s[i]),
{
    assert(has_key(s, k));
    let j = index_of(s, k);
    assert(0 <= j < s.len() && s[j].key@ == k);
    if j != i {
        if i < j {
            assert(s[i].key@ != s[j].key@);
        } else {
            assert(s[j].key@ != s[i].key@);
        }
        assert(false);
    }
}

proof fn lemma_view_remove(s: Seq<StoreEntry>, i: int)
    requires
        unique_keys(s),
        0 <= i < s.len(),
    ensures
        unique_keys(s.remove(i)),
        seq_view(s.remove(i)) == seq_view(s).remove(s[i].key@),
{
    let s2 = s.remove(i);
    let k0 = s[i].key@;
    assert forall|p: int, q: int| 0 <= p < q < s2.len() implies s2[p].key@ != s2[q].key@ by {
        let p0: int = if p < i { p } else { p + 1 };
        let q0: int = if q < i { q } else { q + 1 };
        assert(s2[p] == s[p0]);
        assert(s2[q] == s[q0]);
    }
    assert forall|k: Seq<char>| #[trigger] has_key(s2, k) implies has_key(s, k) && k != k0 by {
        let j = choose|j: int| 0 <= j < s2.len() && s2[j].key@ == k;
        let j0: int = if j < i { j } else { j + 1 };
        assert(s2[j] == s[j0]);
        lemma_index_of(s, k, j0);
        lemma_index_of(s, k0, i);
    }
    assert forall|k: Seq<char>| has_key(s, k) && k != k0 implies #[trigger] has_key(s2, k) by {
        let j0 = choose|j: int| 0 <= j < s.len() && s[j].key@ == k;
        lemma_index_of(s, k, j0);
        if j0 < i {
            assert(s2[j0] == s[j0]);
            assert(s2[j0].key@ == k);
        } else {
            assert(j0 != i);
            assert(s2[j0 - 1] == s[j0]);
            assert(s2[j0 - 1].key@ == k);
        }
    }
    assert forall|k: Seq<char>| #[trigger] has_key(s2, k) implies seq_view(s2)[k] == seq_view(s)[k] by {
        let j = index_of(s2, k);
        assert(0 <= j < s2.len() && s2[j].key@ == k);
        let j0: int = if j < i { j } else { j + 1 };
        assert(s2[j] == s[j0]);
        lemma_index_of(s, k, j0);
        lemma_index_of(s2, k, j);
    }
    assert(seq_view(s2) =~= seq_view(s).remove(k0));
}

proof fn lemma_view_push(s: Seq<StoreEntry>, e: StoreEntry)
    requires
        unique_keys(s),
        !has_key(s, e.key@),
    ensures
        unique_keys(s.push(e)),
        seq_view(s.push(e)) == seq_view(s).insert(e.key@, record_of(e)),
{
    let s2 = s.push(e);
    let k0 = e.key@;
    let n = s.len() as int;
    assert(s2[n] == e);
    assert forall|p: int, q: int| 0 <= p < q < s2.len() implies s2[p].key@ != s2[q].key@ by {
        assert(s2[p] == s[p]);
        if q == n {
            if s[p].key@ == k0 {
                assert(has_key(s, k0));
            }
        } else {
            assert(s2[q] == s[q]);
        }
    }
    assert forall|k: Seq<char>| #[trigger] has_key(s2, k) implies has_key(s, k) || k == k0 by {
        let j = choose|j: int| 0 <= j < s2.len() && s2[j].key@ == k;
        if j < n {
            assert(s2[j] == s[j]);
            assert(s[j].key@ == k);
        }
    }
    assert(s2[n].key@ == k0);
    assert(has_key(s2, k0));
    assert forall|k: Seq<char>| #[trigger] has_key(s, k) implies has_key(s2, k) by {
        let j = choose|j: int| 0 <= j < s.len() && s[j].key@ == k;
        assert(s2[j] == s[j]);
        assert(s2[j].key@ == k);
    }
    assert forall|k: Seq<char>| #[trigger] has_key(s2, k) implies seq_view(s2)[k]
        == seq_view(s).insert(k0, record_of(e))[k] by {
        let j = index_of(s2, k);
        assert(0 <= j < s2.len() && s2[j].key@ == k);
        lemma_index_of(s2, k, j);
        if j == n {
            assert(seq_view(s2)[k] == record_of(e));
        } else {
            assert(s2[j] == s[j]);
            lemma_index_of(s, k, j);
            if k == k0 {
                assert(has_key(s, k0));
                assert(false);
            }
        }
    }
    assert(seq_view(s2) =~= seq_view(s).insert(k0, record_of(e)));
}

/// A string-keyed store with per-record time-to-live, modelled as a map from
/// key to record.
pub struct TtlStore {
    entries: Vec<StoreEntry>,
}

impl View for TtlStore {
    type V = Map<Seq<char>, Record>;

    closed spec fn view(&self) -> Map<Seq<char>, Record> {
        seq_view(self.entries@)
    }
}

impl TtlStore {
    /// No two entries share a key, so the map view determines the contents.
    pub closed spec fn wf(self) -> bool {
        unique_keys(self.entries@)
    }

    /// A record under `key` exists and has not expired at time `now`.
    pub open spec fn live(self, key: Seq<char>, now: u64) -> bool {
        live_at(self@, key, now)
    }

    /// Create an empty store.
    pub fn new() -> (r: TtlStore)
        ensures
            r.wf(),
            r@ == Map::<Seq<char>, Record>::empty(),
    {
        let r = TtlStore { entries: Vec::new() };
        proof {
            assert(r@ =~= Map::<Seq<char>, Record>::empty());
        }
        r
    }

    fn find(&self, key: &str) -> (r: Option<usize>)
        requires
            self.wf(),
        ensures
            match r {
                Some(i) => i < self.entries@.len()
                    && self.entries@[i as int].key@ == key@
                    && self@.contains_key(key@)
                    && self@[key@] == record_of(self.entries@[i as int]),
                None => !self@.contains_key(key@),
            },
    {
        let wanted: String = key.to_owned();
        let n = self.entries.len();
        let mut i: usize = 0;
        while i < n
            invariant
                n == self.entries@.len(),
                i <= n,
                self.wf(),
                wanted@ == key@,
                forall|j: int| 0 <= j < i ==> self.entries@[j].key@ != key@,
            decreases n - i,
        {
            if self.entries[i].key == wanted {
                proof {
                    lemma_index_of(self.entries@, key@, i as int);
                }
                return Some(i);
            }
            i += 1;
        }
        proof {
            assert(!has_key(self.entries@, key@));
        }
        None
    }

    fn remove_key(&mut self, key: &str)
        requires
            old(self).wf(),
        ensures
            final(self).wf(),
            final(self)@ == old(self)@.remove(key@),
    {
        let found = self.find(key);
        match found {
            Some(i) => {
                proof {
                    lemma_view_remove(self.entries@, i as int);
                }
                self.entries.remove(i);
            },
            None => {
                proof {
                    assert(self@ =~= old(self)@.remove(key@));
                }
            },
        }
    }

    /// Write `value` under `key` with a time-to-live of `ttl_seconds`,
    /// overwriting any prior record under that key.
    pub fn set_ex(&mut self, key: String, value: String, ttl_seconds: u32, now: u64)
        requires
            old(self).wf(),
            now + ttl_seconds <= u64::MAX,
        ensures
            final(self).wf(),
            final(self)@ == old(self)@.insert(
                key@,
                Record { value: value@, expires_at: (now + ttl_seconds) as u64 },
            ),
    {
        let deadline: u64 = now + ttl_seconds as u64;
        self.remove_key(key.as_str());
        let entry = StoreEntry { key, value, expires_at: deadline };
        let ghost gkey = entry.key@;
        let ghost grecord = record_of(entry);
        proof {
            assert(!self@.contains_key(gkey));
            assert(!has_key(self.entries@, gkey));
            lemma_view_push(self.entries@, entry);
        }
        self.entries.push(entry);
        proof {
            assert(self@ == old(self)@.remove(gkey).insert(gkey, grecord));
            assert(old(self)@.remove(gkey).insert(gkey, grecord)
                =~= old(self)@.insert(gkey, grecord));
        }
    }

    /// Read the record under `key`: its value exactly when it is present and
    /// unexpired at time `now`, and `None` otherwise.
    pub fn get(&self, key: &str, now: u64) -> (r: Option<String>)
        requires
            self.wf(),
        ensures
            match r {
                Some(v) => self.live(key@, now) && v@ == self@[key@].value,
                None => !self.live(key@, now),
            },
    {
        match self.find(key) {
            Some(i) => {
                if now < self.entries[i].expires_at {
                    Some(self.entries[i].value.clone())
                } else {
                    None
                }
            },
            None => None,
        }
    }

    /// Delete the record under `key`. Returns whether a live record was
    /// there to delete at time `now`.
    pub fn del(&mut self, key: &str, now: u64) -> (r: bool)
        requires
            old(self).wf(),
        ensures
            final(self).wf(),
            r == old(self).live(key@, now),
            final(self)@ == old(self)@.remove(key@),
    {
        let live = match self.find(key) {
            Some(i) => now < self.entries[i].expires_at,
            None => false,
        };
        self.remove_key(key);
        live
    }
}

} // verus!
