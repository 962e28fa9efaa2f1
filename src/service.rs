//! The request protocol shared by every stage: validate, reserve the request
//! id, schedule the job, write its outcome once, and answer lookups.

use vstd::prelude::*;
use vstd::string::*;
use crate::store::{ProofRecord, ProofStore, Slot, set_if_absent_spec, complete_spec, live_record};
use crate::validator::WitnessError;
use crate::codec::{CodecError, decoded_text, encode_plonky2_proof};

verus! {

/// What became of a submitted witness.
#[derive(Debug)]
pub enum Submission {
    /// The witness failed validation; nothing was stored.
    Rejected(WitnessError),
    /// A live record exists for the request id; no job is scheduled.
    AlreadyRequested(ProofRecord),
    /// The request id is reserved and the job is to be scheduled.
    Scheduled,
}

/// The outcome of a submission with verdict `verdict` on store `m`.
pub open spec fn submission_spec(
    m: Map<Seq<char>, Slot>,
    key: Seq<char>,
    verdict: Result<(), WitnessError>,
    now: nat,
    ttl: nat,
) -> (Map<Seq<char>, Slot>, Submission) {
    match verdict {
        Err(e) => (m, Submission::Rejected(e)),
        Ok(()) => {
            let (m1, prev) = set_if_absent_spec(m, key, ProofRecord::Pending, now, ttl);
            match prev {
                Some(x) => (m1, Submission::AlreadyRequested(x)),
                None => (m1, Submission::Scheduled),
            }
        },
    }
}

/// What a submission comes to, given its verdict and what reserving its
/// request id returned (`existing`, the live record found there; a refused
/// witness reserves nothing, so `existing` is not read).
pub fn submission_from(verdict: Result<(), WitnessError>, existing: Option<ProofRecord>) -> (r: Submission)
    ensures
        r == match verdict {
            Err(e) => Submission::Rejected(e),
            Ok(()) => match existing {
                Some(x) => Submission::AlreadyRequested(x),
                None => Submission::Scheduled,
            },
        },
{
    match verdict {
        Err(e) => Submission::Rejected(e),
        Ok(()) => match existing {
            Some(x) => Submission::AlreadyRequested(x),
            None => Submission::Scheduled,
        },
    }
}

/// Submits a witness whose validation gave `verdict`: a refused witness
/// leaves the store untouched; an accepted one reserves `key` unless a live
/// record is there.
pub fn submit(store: &mut ProofStore, key: &str, verdict: Result<(), WitnessError>, now: u64, ttl: u64) -> (r: Submission)
    requires
        old(store).wf(),
        now + ttl <= u64::MAX,
    ensures
        final(store).wf(),
        (final(store)@, r) == submission_spec(old(store)@, key@, verdict, now as nat, ttl as nat),
{
    if verdict.is_err() {
        submission_from(verdict, None)
    } else {
        let existing = store.try_reserve(key, now, ttl);
        submission_from(verdict, existing)
    }
}

/// Submitting the same valid witness twice under one request id, the second
/// time before the reservation expires: the first submission schedules the
/// job, the second is answered as already requested and leaves the store as
/// it was, so no second job and no second proof come of it.
pub proof fn lemma_resubmission(
    m: Map<Seq<char>, Slot>,
    key: Seq<char>,
    first: nat,
    second: nat,
    ttl: nat,
)
    requires
        live_record(m, key, first) is None,
        first <= second < first + ttl,
    ensures
        ({
            let (m1, s1) = submission_spec(m, key, Ok(()), first, ttl);
            let (m2, s2) = submission_spec(m1, key, Ok(()), second, ttl);
            &&& s1 is Scheduled
            &&& s2 is AlreadyRequested
            &&& m2 == m1
        }),
{
    crate::store::lemma_idempotent_submission(m, key, first, second, ttl);
}

/// The message stored for a failed job.
pub open spec fn failure_message(e: Seq<char>) -> Seq<char> {
    "Failed to generate proof: "@ + e
}

/// The terminal record for a job's outcome.
pub fn job_outcome_record(outcome: Result<String, String>) -> (r: ProofRecord)
    ensures
        match outcome {
            Ok(p) => r == ProofRecord::Succeeded(p),
            Err(e) => r matches ProofRecord::Failed(m) && m@ == failure_message(e@),
        },
{
    match outcome {
        Ok(p) => ProofRecord::Succeeded(p),
        Err(e) => {
            let mut m = String::from_str("Failed to generate proof: ");
            m.append(e.as_str());
            ProofRecord::Failed(m)
        },
    }
}

/// What to write for a finished job's outcome, given what is stored: the
/// outcome over nothing or over a pending record, nothing over a finished one.
pub fn outcome_to_write(existing: &Option<ProofRecord>, outcome: ProofRecord) -> (r: Option<ProofRecord>)
    ensures
        r == (match *existing {
            Some(x) => if x is Pending { Some(outcome) } else { None },
            None => Some(outcome),
        }),
{
    match existing {
        Some(ProofRecord::Pending) => Some(outcome),
        Some(_) => None,
        None => Some(outcome),
    }
}

/// The terminal record of a proving job whose outcome is the compressed
/// proof's parts (public inputs and body) or a failure: the proof is stored
/// as its transport text, which decodes back to the same parts.
pub fn proof_outcome_record(outcome: Result<(Vec<u64>, Vec<u8>), String>) -> (r: ProofRecord)
    requires
        outcome matches Ok((p, b)) ==> p@.len() <= u32::MAX && 4 + 8 * p@.len() + b@.len() <= usize::MAX / 2,
    ensures
        match outcome {
            Ok((p, b)) => r matches ProofRecord::Succeeded(t)
                && decoded_text(t@) == Ok::<(Seq<u64>, Seq<u8>), CodecError>((p@, b@)),
            Err(e) => r matches ProofRecord::Failed(m) && m@ == failure_message(e@),
        },
{
    match outcome {
        Ok((p, b)) => ProofRecord::Succeeded(encode_plonky2_proof(&p, &b)),
        Err(e) => job_outcome_record(Err(e)),
    }
}

/// Writes a finished job's outcome under `key`, tagged as success or failure.
/// Returns whether it was written (a finished record already there is kept).
pub fn finish_job(store: &mut ProofStore, key: &str, outcome: Result<String, String>, now: u64, ttl: u64) -> (r: bool)
    requires
        old(store).wf(),
        now + ttl <= u64::MAX,
    ensures
        final(store).wf(),
        exists|rec: ProofRecord|
            #![trigger complete_spec(old(store)@, key@, rec, now as nat, ttl as nat)]
            !(rec is Pending) && (final(store)@, r) == complete_spec(old(store)@, key@, rec, now as nat, ttl as nat)
            && match outcome {
                Ok(p) => rec == ProofRecord::Succeeded(p),
                Err(e) => rec matches ProofRecord::Failed(m) && m@ == failure_message(e@),
            },
{
    let rec = job_outcome_record(outcome);
    let ghost g = rec;
    let r = store.complete(key, rec, now, ttl);
    assert(!(g is Pending) && (store@, r) == complete_spec(old(store)@, key@, g, now as nat, ttl as nat));
    r
}

/// A stage's entry in a batch answer: a request id and its proof text.
pub trait StageProofValue: Sized {
    spec fn id_of(&self) -> Seq<char>;

    spec fn proof_of(&self) -> Seq<char>;

    fn make(id: String, proof: String) -> (r: Self)
        ensures
            r.id_of() == id@,
            r.proof_of() == proof@;
}

/// The view of an optional text.
pub open spec fn opt_text(o: Option<String>) -> Option<Seq<char>> {
    match o {
        Some(s) => Some(s@),
        None => None,
    }
}

/// The answer to a batch lookup of the first `n` ids: finished proofs in
/// order, ids without a finished record skipped, and the first failed record
/// ending the batch with its message.
pub open spec fn batch_upto(
    ids: Seq<String>,
    records: Seq<Option<ProofRecord>>,
    n: nat,
) -> (bool, Seq<(Seq<char>, Seq<char>)>, Option<Seq<char>>)
    decreases n,
{
    if n == 0 {
        (true, Seq::empty(), None)
    } else {
        let prev = batch_upto(ids, records, (n - 1) as nat);
        if !prev.0 {
            prev
        } else {
            match records[n - 1] {
                Some(ProofRecord::Succeeded(p)) => (true, prev.1.push((ids[n - 1]@, p@)), None),
                Some(ProofRecord::Failed(e)) => (false, prev.1, Some(e@)),
                _ => prev,
            }
        }
    }
}

proof fn lemma_batch_stops(ids: Seq<String>, records: Seq<Option<ProofRecord>>, k: nat, n: nat)
    requires
        k <= n,
        !batch_upto(ids, records, k).0,
    ensures
        batch_upto(ids, records, n) == batch_upto(ids, records, k),
    decreases n - k,
{
    if n > k {
        lemma_batch_stops(ids, records, k, (n - 1) as nat);
    }
}

/// The pairs of a list of stage values.
pub open spec fn value_pairs<V: StageProofValue>(vs: Seq<V>) -> Seq<(Seq<char>, Seq<char>)> {
    vs.map_values(|v: V| (v.id_of(), v.proof_of()))
}

/// Answers a batch lookup: `records[i]` is what is stored for `ids[i]`.
pub fn collect_proofs<V: StageProofValue>(ids: &Vec<String>, records: &Vec<Option<ProofRecord>>) -> (r: (bool, Vec<V>, Option<String>))
    requires
        ids@.len() == records@.len(),
    ensures
        (r.0, value_pairs(r.1@), opt_text(r.2)) == batch_upto(ids@, records@, ids@.len()),
{
    let mut out: Vec<V> = Vec::new();
    let mut i: usize = 0;
    while i < ids.len()
        invariant
            ids@.len() == records@.len(),
            i <= ids@.len(),
            batch_upto(ids@, records@, i as nat) == (true, value_pairs(out@), None::<Seq<char>>),
        decreases ids@.len() - i,
    {
        match &records[i] {
            Some(ProofRecord::Succeeded(p)) => {
                let v = V::make(ids[i].clone(), p.clone());
                let ghost before = out@;
                out.push(v);
                proof {
                    assert(value_pairs(out@) =~= value_pairs(before).push((ids@[i as int]@, p@)));
                }
            },
            Some(ProofRecord::Failed(e)) => {
                proof {
                    lemma_batch_stops(ids@, records@, (i + 1) as nat, ids@.len());
                }
                return (false, out, Some(e.clone()));
            },
            _ => {},
        }
        i = i + 1;
    }
    (true, out, None)
}

} // verus!
