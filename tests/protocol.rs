use proof_service::balance::{
    health_status, ErrorResponse, ProofResponse, ProofsDepositResponse, ProofsSendResponse,
};
use proof_service::block::RedisResponse;
use proof_service::fraud::GenerateProofResponse;
use proof_service::request_id::{get_balance_transfer_request_id, get_receive_deposit_request_id};
use proof_service::service::{finish_job, job_outcome_record, submit, Submission};
use proof_service::store::{ProofRecord, ProofStore};
use proof_service::validator::{
    check_fixed_width, validate_send_witness, validate_spent_witness, BatchWidths, validate_transfer_witness, validate_witness,
    Predecessor, ReceiptEvidence, SendEvidence, TransitionClaim, Word256, WitnessError,
    NUM_TRANSFERS_IN_TX,
};

const TTL: u64 = 3600;

fn w(x: u128) -> Word256 {
    Word256 { hi: 0, lo: x }
}

fn genesis() -> Predecessor {
    Predecessor::Genesis { commitment: w(100) }
}

fn good_receipt() -> ReceiptEvidence {
    ReceiptEvidence {
        inclusion_holds: true,
        leaf_token_index: 3,
        leaf_amount: w(50),
        derived_nullifier: w(7),
        transition: TransitionClaim {
            token_index: 3,
            amount: w(50),
            nullifier: w(7),
            prev_commitment: w(100),
            well_formed: true,
        },
    }
}

fn is_succeeded(r: &Option<ProofRecord>, proof: &str) -> bool {
    matches!(r, Some(ProofRecord::Succeeded(p)) if p == proof)
}

#[test]
fn deposit_scenario_end_to_end() {
    let mut store = ProofStore::new();
    let key = get_receive_deposit_request_id("0xab", "req-1");
    let verdict = validate_witness(&genesis(), true, &good_receipt());
    assert_eq!(verdict, Ok(()));

    let first = submit(&mut store, &key, verdict, 1000, TTL);
    assert!(matches!(first, Submission::Scheduled));
    let ack = ProofResponse::from_submission("req-1", first).ok().unwrap();
    assert!(ack.success);
    assert_eq!(ack.proof, None);
    assert_eq!(ack.error_message.as_deref(), Some("balance proof (request ID: req-1) is generating"));

    // the same request again before the job finishes
    let second = submit(&mut store, &key, Ok(()), 1010, TTL);
    assert!(matches!(second, Submission::AlreadyRequested(ProofRecord::Pending)));
    let again = ProofResponse::from_submission("req-1", second).ok().unwrap();
    assert_eq!(again.error_message.as_deref(), Some("balance proof already requested"));
    assert_eq!(again.proof, None);

    assert!(finish_job(&mut store, &key, Ok("PROOF".to_string()), 1020, TTL));
    let answer = ProofResponse::from_lookup("req-1", store.get(&key, 1030));
    assert!(answer.success);
    assert_eq!(answer.proof.as_deref(), Some("PROOF"));
    assert_eq!(answer.error_message, None);
}

#[test]
fn invalid_transfer_creates_no_record() {
    let mut store = ProofStore::new();
    let key = get_balance_transfer_request_id("0xab", "c1");
    let mut e = good_receipt();
    e.derived_nullifier = w(8);
    let verdict = validate_transfer_witness(&genesis(), true, &e);
    assert_eq!(verdict, Err(WitnessError::NullifierMismatch));
    let s = submit(&mut store, &key, verdict, 5, TTL);
    assert!(matches!(s, Submission::Rejected(WitnessError::NullifierMismatch)));
    let err = ProofResponse::from_submission("c1", s).err().unwrap();
    assert_eq!(err.code, 400);
    assert_eq!(err.message, "nullifier not match");
    assert!(store.get(&key, 6).is_none());
}

#[test]
fn second_outcome_is_discarded() {
    let mut store = ProofStore::new();
    let key = "k";
    assert!(matches!(submit(&mut store, key, Ok(()), 0, TTL), Submission::Scheduled));
    assert!(finish_job(&mut store, key, Ok("A".to_string()), 1, TTL));
    assert!(!finish_job(&mut store, key, Ok("B".to_string()), 2, TTL));
    assert!(!finish_job(&mut store, key, Err("boom".to_string()), 3, TTL));
    assert!(is_succeeded(&store.get(key, 4), "A"));
}

#[test]
fn failed_job_is_recorded() {
    let mut store = ProofStore::new();
    assert!(matches!(submit(&mut store, "k", Ok(()), 0, TTL), Submission::Scheduled));
    assert!(finish_job(&mut store, "k", Err("bad witness".to_string()), 1, TTL));
    let found = store.get("k", 2);
    assert!(matches!(&found, Some(ProofRecord::Failed(m)) if m == "Failed to generate proof: bad witness"));
    let answer = ProofResponse::from_lookup("r", found);
    assert!(!answer.success);
    assert_eq!(answer.error_message.as_deref(), Some("Failed to generate proof: bad witness"));
    // a retry is told about the recorded failure instead of running again
    assert!(matches!(submit(&mut store, "k", Ok(()), 3, TTL), Submission::AlreadyRequested(ProofRecord::Failed(_))));
}

#[test]
fn record_expires_after_ttl() {
    let mut store = ProofStore::new();
    assert!(store.set_if_absent("k", ProofRecord::Succeeded("P".to_string()), 100, 10).is_none());
    assert!(is_succeeded(&store.get("k", 100), "P"));
    assert!(is_succeeded(&store.get("k", 109), "P"));
    assert!(store.get("k", 110).is_none());
    assert!(store.get("k", 500).is_none());
    // once expired, the place is free again
    assert!(store.set_if_absent("k", ProofRecord::Succeeded("Q".to_string()), 110, 10).is_none());
    assert!(is_succeeded(&store.get("k", 111), "Q"));
}

#[test]
fn set_if_absent_returns_existing() {
    let mut store = ProofStore::new();
    assert!(store.set_if_absent("a", ProofRecord::Succeeded("1".to_string()), 0, 10).is_none());
    let prev = store.set_if_absent("a", ProofRecord::Succeeded("2".to_string()), 5, 10);
    assert!(is_succeeded(&prev, "1"));
    assert!(is_succeeded(&store.get("a", 6), "1"));
    assert!(store.get("b", 6).is_none());
}

#[test]
fn reserve_then_lookup_is_pending() {
    let mut store = ProofStore::new();
    assert!(store.try_reserve("k", 0, 10).is_none());
    assert!(matches!(store.get("k", 1), Some(ProofRecord::Pending)));
    let answer = ProofResponse::from_lookup("r9", store.get("k", 1));
    assert!(answer.success);
    assert_eq!(answer.error_message.as_deref(), Some("balance proof (request ID: r9) is generating"));
}

#[test]
fn missing_proof_lookup() {
    let answer = ProofResponse::from_lookup("r", None);
    assert!(!answer.success);
    assert_eq!(answer.request_id, "r");
    assert_eq!(answer.error_message.as_deref(), Some("balance proof is not generated"));
}

#[test]
fn commitment_chaining_mismatch_is_refused() {
    let mut e = good_receipt();
    e.transition.prev_commitment = w(101);
    assert_eq!(validate_witness(&genesis(), true, &e), Err(WitnessError::PrevCommitmentMismatch));
    let pred = Predecessor::Proof { verified: true, commitment: w(101) };
    assert_eq!(validate_witness(&pred, true, &e), Ok(()));
}

#[test]
fn deposit_checks_in_order() {
    let unverified = Predecessor::Proof { verified: false, commitment: w(100) };
    assert_eq!(validate_witness(&unverified, true, &good_receipt()), Err(WitnessError::InvalidPredecessorProof));
    let mut e = good_receipt();
    e.inclusion_holds = false;
    assert_eq!(validate_witness(&genesis(), true, &e), Err(WitnessError::InvalidInclusionProof));
    assert_eq!(validate_witness(&genesis(), false, &good_receipt()), Err(WitnessError::PubkeySaltHashMismatch));
    let mut e = good_receipt();
    e.leaf_token_index = 4;
    assert_eq!(validate_witness(&genesis(), true, &e), Err(WitnessError::TokenIndexMismatch));
    let mut e = good_receipt();
    e.leaf_amount = w(51);
    assert_eq!(validate_witness(&genesis(), true, &e), Err(WitnessError::AmountMismatch));
    let mut e = good_receipt();
    e.transition.well_formed = false;
    assert_eq!(validate_witness(&genesis(), true, &e), Err(WitnessError::MalformedTransition));
    assert_eq!(validate_transfer_witness(&genesis(), false, &good_receipt()), Err(WitnessError::InvalidSubProof));
}

#[test]
fn fixed_width_boundaries() {
    let n = NUM_TRANSFERS_IN_TX;
    assert_eq!(check_fixed_width(n, n, n, n), Ok(()));
    assert_eq!(check_fixed_width(n - 1, n, n, n), Err(WitnessError::InvalidTransferCount));
    assert_eq!(check_fixed_width(n + 1, n, n, n), Err(WitnessError::InvalidTransferCount));
    assert_eq!(check_fixed_width(n, n - 1, n, n), Err(WitnessError::InvalidPrevBalanceCount));
    assert_eq!(check_fixed_width(n, n, n + 1, n), Err(WitnessError::InvalidAssetProofCount));
}

#[test]
fn send_witness_checks() {
    let n = NUM_TRANSFERS_IN_TX;
    let full = BatchWidths { transfers: n, prev_balances: n, asset_proofs: n };
    let ok = SendEvidence {
        batch: Some(full),
        validity_verified: true,
        validity_inputs_match: true,
        spent_proof_verified: None,
    };
    assert_eq!(validate_send_witness(&genesis(), &ok), Ok(()));
    let mut e = ok;
    e.batch = Some(BatchWidths { transfers: n + 1, ..full });
    assert_eq!(validate_send_witness(&genesis(), &e), Err(WitnessError::InvalidTransferCount));
    let mut e = ok;
    e.validity_inputs_match = false;
    assert_eq!(validate_send_witness(&genesis(), &e), Err(WitnessError::ValidityInputsMismatch));
    let mut e = ok;
    e.spent_proof_verified = Some(false);
    assert_eq!(validate_send_witness(&genesis(), &e), Err(WitnessError::InvalidSubProof));
    // a verified spent sub-proof stands for the batch
    let mut e = ok;
    e.batch = None;
    e.spent_proof_verified = Some(true);
    assert_eq!(validate_send_witness(&genesis(), &e), Ok(()));
    e.spent_proof_verified = None;
    assert_eq!(validate_send_witness(&genesis(), &e), Err(WitnessError::InvalidTransferCount));
}

#[test]
fn spent_witness_width() {
    let n = NUM_TRANSFERS_IN_TX;
    assert_eq!(validate_spent_witness(n, n, n), Ok(()));
    assert_eq!(validate_spent_witness(n, n, n - 1), Err(WitnessError::InvalidAssetProofCount));
    assert_eq!(validate_spent_witness(0, n, n), Err(WitnessError::InvalidTransferCount));
}

#[test]
fn batch_lookup_skips_missing_and_stops_at_failure() {
    let ids = vec!["a".to_string(), "b".to_string(), "c".to_string(), "d".to_string()];
    let recs = vec![
        Some(ProofRecord::Succeeded("PA".to_string())),
        None,
        Some(ProofRecord::Pending),
        Some(ProofRecord::Succeeded("PD".to_string())),
    ];
    let r = ProofsDepositResponse::from_lookups(&ids, &recs);
    assert!(r.success);
    assert_eq!(r.proofs.len(), 2);
    assert_eq!(r.proofs[0].request_id, "a");
    assert_eq!(r.proofs[1].proof, "PD");
    assert_eq!(r.error_message, None);

    let recs = vec![
        Some(ProofRecord::Succeeded("PA".to_string())),
        Some(ProofRecord::Failed("oops".to_string())),
        None,
        Some(ProofRecord::Succeeded("PD".to_string())),
    ];
    let r = ProofsSendResponse::from_lookups(&ids, &recs);
    assert!(!r.success);
    assert_eq!(r.proofs.len(), 1);
    assert_eq!(r.error_message.as_deref(), Some("oops"));
}

#[test]
fn health_and_readiness() {
    assert!(health_status(true, true).is_ok());
    let e: ErrorResponse = health_status(false, true).err().unwrap();
    assert_eq!(e.code, 500);
    let e = health_status(true, false).err().unwrap();
    assert_eq!(e.code, 500);
    assert_eq!(e.message, "circuits not initialized");
}

#[test]
fn stored_outcome_forms() {
    let r = RedisResponse::from_record(&ProofRecord::Succeeded("P".to_string())).unwrap();
    assert!(r.success);
    assert_eq!(r.message, "P");
    assert!(RedisResponse::from_record(&ProofRecord::Pending).is_none());
    let failed = job_outcome_record(Err("x".to_string()));
    let r = RedisResponse::from_record(&failed).unwrap();
    assert!(!r.success);
    assert_eq!(r.message, "Failed to generate proof: x");
    assert!(matches!(r.to_record(), ProofRecord::Failed(m) if m == "Failed to generate proof: x"));
}

#[test]
fn fraud_acknowledgement() {
    let r = GenerateProofResponse::generating("0xaa");
    assert!(r.success);
    assert_eq!(r.message, "fraud proof (block hash: 0xaa) is generating");
}
