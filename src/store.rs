//! The proof store: records keyed by request id, each with an expiry, and the
//! set-if-absent protocol that makes repeated or concurrent requests for one
//! computation converge on a single record.

use vstd::prelude::*;
use vstd::string::*;

verus! {

/// What is stored for a request id.
#[derive(Debug)]
pub enum ProofRecord {
    /// The job is scheduled and has not finished.
    Pending,
    /// The job finished; the payload is the proof's transport text.
    Succeeded(String),
    /// The job failed; the payload says why.
    Failed(String),
}

impl ProofRecord {
    /// A copy of the record.
    pub fn duplicate(&self) -> (r: ProofRecord)
        ensures
            r == *self,
    {
        match self {
            ProofRecord::Pending => ProofRecord::Pending,
            ProofRecord::Succeeded(p) => ProofRecord::Succeeded(p.clone()),
            ProofRecord::Failed(e) => ProofRecord::Failed(e.clone()),
        }
    }

    /// Whether the job behind the record has finished.
    pub fn is_terminal(&self) -> (r: bool)
        ensures
            r == !(*self is Pending),
    {
        !matches!(self, ProofRecord::Pending)
    }
}

/// A stored record and the instant (in seconds) from which it is gone.
pub struct Slot {
    pub record: ProofRecord,
    pub expires_at: nat,
}

/// The record under `key` at instant `now`, if one is stored and has not expired.
pub open spec fn live_record(m: Map<Seq<char>, Slot>, key: Seq<char>, now: nat) -> Option<ProofRecord> {
    if m.contains_key(key) && now < m[key].expires_at {
        Some(m[key].record)
    } else {
        None
    }
}

/// Set-if-absent with expiry: where a live record is stored under `key` it is
/// returned and nothing changes; otherwise `record` is stored until `now + ttl`.
pub open spec fn set_if_absent_spec(
    m: Map<Seq<char>, Slot>,
    key: Seq<char>,
    record: ProofRecord,
    now: nat,
    ttl: nat,
) -> (Map<Seq<char>, Slot>, Option<ProofRecord>) {
    match live_record(m, key, now) {
        Some(r) => (m, Some(r)),
        None => (m.insert(key, Slot { record, expires_at: now + ttl }), None),
    }
}

/// Writing a job's outcome: it replaces a pending record or fills an empty
/// place; a finished record is kept and the outcome discarded. The result says
/// whether the outcome was written.
pub open spec fn complete_spec(
    m: Map<Seq<char>, Slot>,
    key: Seq<char>,
    outcome: ProofRecord,
    now: nat,
    ttl: nat,
) -> (Map<Seq<char>, Slot>, bool) {
    match live_record(m, key, now) {
        Some(r) => if r is Pending {
            (m.insert(key, Slot { record: outcome, expires_at: now + ttl }), true)
        } else {
            (m, false)
        },
        None => (m.insert(key, Slot { record: outcome, expires_at: now + ttl }), true),
    }
}

struct Entry {
    key: String,
    record: ProofRecord,
    expires_at: u64,
}

/// An expiring key/value store of proof records.
pub struct ProofStore {
    entries: Vec<Entry>,
}

impl View for ProofStore {
    type V = Map<Seq<char>, Slot>;

    closed spec fn view(&self) -> Map<Seq<char>, Slot> {
        Map::new(
            |k: Seq<char>| exists|i: int| 0 <= i < self.entries@.len() && #[trigger] self.entries@[i].key@ == k,
            |k: Seq<char>| {
                let i = choose|i: int| 0 <= i < self.entries@.len() && #[trigger] self.entries@[i].key@ == k;
                Slot { record: self.entries@[i].record, expires_at: self.entries@[i].expires_at as nat }
            },
        )
    }
}

impl ProofStore {
    /// No two entries share a key.
    pub closed spec fn wf(&self) -> bool {
        forall|i: int, j: int|
            0 <= i < j < self.entries@.len() ==> #[trigger] self.entries@[i].key@ != #[trigger] self.entries@[j].key@
    }

    proof fn lemma_view_at(&self, i: int)
        requires
            self.wf(),
            0 <= i < self.entries@.len(),
        ensures
            self@.contains_key(self.entries@[i].key@),
            self@[self.entries@[i].key@] == (Slot {
                record: self.entries@[i].record,
                expires_at: self.entries@[i].expires_at as nat,
            }),
    {
        let k = self.entries@[i].key@;
        assert(self.entries@[i].key@ == k);
        let j = choose|j: int| 0 <= j < self.entries@.len() && #[trigger] self.entries@[j].key@ == k;
        if j != i {
            if i < j {
                assert(self.entries@[i].key@ != self.entries@[j].key@);
            } else {
                assert(self.entries@[j].key@ != self.entries@[i].key@);
            }
        }
    }

    /// Writing entry `i` under `key` (over the entry with that key, or as a
    /// new last entry) and keeping every other entry inserts the written slot
    /// into the view.
    proof fn lemma_written(before: ProofStore, after: ProofStore, i: int, key: Seq<char>)
        requires
            before.wf(),
            after.wf(),
            0 <= i < after.entries@.len(),
            after.entries@.len() == before.entries@.len() || (after.entries@.len() == before.entries@.len() + 1
                && i == before.entries@.len()),
            after.entries@[i].key@ == key,
            i < before.entries@.len() ==> before.entries@[i].key@ == key,
            forall|j: int| 0 <= j < after.entries@.len() && j != i ==> after.entries@[j] == before.entries@[j],
        ensures
            after@ == before@.insert(
                key,
                Slot { record: after.entries@[i].record, expires_at: after.entries@[i].expires_at as nat },
            ),
    {
        let slot = Slot { record: after.entries@[i].record, expires_at: after.entries@[i].expires_at as nat };
        after.lemma_view_at(i);
        assert forall|k: Seq<char>| #[trigger] after@.contains_key(k) == before@.insert(key, slot).contains_key(k) by {
            if after@.contains_key(k) {
                let j = choose|j: int| 0 <= j < after.entries@.len() && #[trigger] after.entries@[j].key@ == k;
                if j != i {
                    assert(before.entries@[j].key@ == k);
                }
            }
            if before@.contains_key(k) {
                let j = choose|j: int| 0 <= j < before.entries@.len() && #[trigger] before.entries@[j].key@ == k;
                if j != i {
                    assert(after.entries@[j].key@ == k);
                }
            }
        }
        assert forall|k: Seq<char>| #[trigger] after@.contains_key(k) && k != key implies after@[k] == before@[k] by {
            let j = choose|j: int| 0 <= j < after.entries@.len() && #[trigger] after.entries@[j].key@ == k;
            after.lemma_view_at(j);
            before.lemma_view_at(j);
        }
        assert(after@ =~= before@.insert(key, slot));
    }

    /// An empty store.
    pub fn new() -> (r: ProofStore)
        ensures
            r.wf(),
            r@ == Map::<Seq<char>, Slot>::empty(),
    {
        let r = ProofStore { entries: Vec::new() };
        assert(r@ =~= Map::<Seq<char>, Slot>::empty());
        r
    }

    /// The index of the entry under `key`, if there is one.
    fn find(&self, key: &str) -> (r: Option<usize>)
        requires
            self.wf(),
        ensures
            match r {
                Some(i) => i < self.entries@.len() && self.entries@[i as int].key@ == key@,
                None => !self@.contains_key(key@),
            },
    {
        let wanted = String::from_str(key);
        let mut i: usize = 0;
        while i < self.entries.len()
            invariant
                i <= self.entries@.len(),
                wanted@ == key@,
                forall|j: int| 0 <= j < i ==> #[trigger] self.entries@[j].key@ != key@,
            decreases self.entries@.len() - i,
        {
            if self.entries[i].key.eq(&wanted) {
                return Some(i);
            }
            i = i + 1;
        }
        None
    }

    /// Stores `record` under `key` until `expires_at`, over whatever was there.
    fn put(&mut self, key: &str, record: ProofRecord, expires_at: u64)
        requires
            old(self).wf(),
        ensures
            final(self).wf(),
            final(self)@ == old(self)@.insert(key@, Slot { record, expires_at: expires_at as nat }),
    {
        let ghost before = *self;
        let found = self.find(key);
        let e = Entry { key: String::from_str(key), record, expires_at };
        match found {
            Some(i) => {
                self.entries.set(i, e);
                proof {
                    assert forall|a: int, b: int|
                        0 <= a < b < self.entries@.len() implies #[trigger] self.entries@[a].key@
                        != #[trigger] self.entries@[b].key@ by {
                        assert(before.entries@[a].key@ != before.entries@[b].key@);
                    }
                    ProofStore::lemma_written(before, *self, i as int, key@);
                }
            },
            None => {
                self.entries.push(e);
                proof {
                    let n = before.entries@.len() as int;
                    assert forall|a: int, b: int|
                        0 <= a < b < self.entries@.len() implies #[trigger] self.entries@[a].key@
                        != #[trigger] self.entries@[b].key@ by {
                        if b < n {
                            assert(before.entries@[a].key@ != before.entries@[b].key@);
                        } else {
                            assert(before.entries@[a].key@ == self.entries@[a].key@);
                            if self.entries@[a].key@ == key@ {
                                assert(before@.contains_key(key@));
                            }
                        }
                    }
                    ProofStore::lemma_written(before, *self, n, key@);
                }
            },
        }
    }

    /// The record under `key` at instant `now`, if one is stored and has not expired.
    pub fn get(&self, key: &str, now: u64) -> (r: Option<ProofRecord>)
        requires
            self.wf(),
        ensures
            r == live_record(self@, key@, now as nat),
    {
        match self.find(key) {
            None => None,
            Some(i) => {
                proof {
                    self.lemma_view_at(i as int);
                }
                if now < self.entries[i].expires_at {
                    Some(self.entries[i].record.duplicate())
                } else {
                    None
                }
            },
        }
    }

    /// Stores `record` under `key` for `ttl` seconds from `now`, unless a live
    /// record is stored there already: then that one is returned and kept.
    pub fn set_if_absent(&mut self, key: &str, record: ProofRecord, now: u64, ttl: u64) -> (r: Option<ProofRecord>)
        requires
            old(self).wf(),
            now + ttl <= u64::MAX,
        ensures
            final(self).wf(),
            (final(self)@, r) == set_if_absent_spec(old(self)@, key@, record, now as nat, ttl as nat),
    {
        match self.get(key, now) {
            Some(existing) => Some(existing),
            None => {
                self.put(key, record, now + ttl);
                None
            },
        }
    }

    /// Reserves `key` for a job about to be scheduled: a pending record is
    /// stored unless a live record exists, which is returned instead.
    pub fn try_reserve(&mut self, key: &str, now: u64, ttl: u64) -> (r: Option<ProofRecord>)
        requires
            old(self).wf(),
            now + ttl <= u64::MAX,
        ensures
            final(self).wf(),
            (final(self)@, r) == set_if_absent_spec(old(self)@, key@, ProofRecord::Pending, now as nat, ttl as nat),
    {
        self.set_if_absent(key, ProofRecord::Pending, now, ttl)
    }

    /// Writes the outcome of a finished job under `key`, unless a finished
    /// record is there already. Returns whether the outcome was written.
    pub fn complete(&mut self, key: &str, outcome: ProofRecord, now: u64, ttl: u64) -> (r: bool)
        requires
            old(self).wf(),
            now + ttl <= u64::MAX,
        ensures
            final(self).wf(),
            (final(self)@, r) == complete_spec(old(self)@, key@, outcome, now as nat, ttl as nat),
    {
        let existing = self.get(key, now);
        match crate::service::outcome_to_write(&existing, outcome) {
            Some(rec) => {
                self.put(key, rec, now + ttl);
                true
            },
            None => false,
        }
    }

}

/// A record written with a time to live is there until that time has passed,
/// and gone from then on.
pub proof fn lemma_expiry(
    m: Map<Seq<char>, Slot>,
    key: Seq<char>,
    record: ProofRecord,
    now: nat,
    ttl: nat,
    later: nat,
)
    requires
        live_record(m, key, now) is None,
        now <= later,
    ensures
        later < now + ttl ==> live_record(set_if_absent_spec(m, key, record, now, ttl).0, key, later) == Some(record),
        later >= now + ttl ==> live_record(set_if_absent_spec(m, key, record, now, ttl).0, key, later) is None,
{
}

/// Submitting one request id a second time while the first reservation lives
/// changes nothing and reports the record that is there: a job runs for the
/// first submission only.
pub proof fn lemma_idempotent_submission(
    m: Map<Seq<char>, Slot>,
    key: Seq<char>,
    first: nat,
    second: nat,
    ttl: nat,
)
    requires
        live_record(m, key, first) is None,
        first <= second < first + ttl,
    ensures
        ({
            let m1 = set_if_absent_spec(m, key, ProofRecord::Pending, first, ttl).0;
            &&& set_if_absent_spec(m, key, ProofRecord::Pending, first, ttl).1 is None
            &&& set_if_absent_spec(m1, key, ProofRecord::Pending, second, ttl) == (m1, Some(ProofRecord::Pending))
        }),
{
}

/// Once a finished record is stored, a later outcome for the same request id
/// is discarded while that record lives: one request id never holds two
/// different proofs.
pub proof fn lemma_outcome_kept(
    m: Map<Seq<char>, Slot>,
    key: Seq<char>,
    first: ProofRecord,
    second: ProofRecord,
    at: nat,
    later: nat,
    ttl: nat,
)
    requires
        !(first is Pending),
        at <= later,
        live_record(complete_spec(m, key, first, at, ttl).0, key, later) is Some,
    ensures
        ({
            let m1 = complete_spec(m, key, first, at, ttl).0;
            &&& live_record(m1, key, at) is Some
            &&& !(live_record(m1, key, at)->Some_0 is Pending)
            &&& complete_spec(m1, key, second, later, ttl) == (m1, false)
            &&& live_record(m1, key, later) == live_record(m1, key, at)
        }),
{
}

} // verus!
