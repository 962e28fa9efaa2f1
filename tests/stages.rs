use proof_service::balance::{
    ensure_ready, ProofsSpentResponse, ProofsTransferResponse, ProofsUpdateResponse,
    ProofsWithdrawalResponse,
};
use proof_service::block::{ProofResponse as BlockProofResponse, ProofsResponse as BlockProofsResponse};
use proof_service::codec::{decode_plonky2_proof, encode_plonky2_proof};
use proof_service::fraud::ProofResponse as FraudProofResponse;
use proof_service::service::{outcome_to_write, proof_outcome_record, submission_from, Submission};
use proof_service::store::ProofRecord;
use proof_service::validator::{
    validate_block_witness, validate_update_witness, validate_withdrawal_witness, Predecessor,
    ValidityRoots, Word256, WitnessError,
};
use proof_service::withdrawal::{
    GenerateProofResponse as WithdrawalAck, ProofsResponse as WithdrawalProofsResponse,
};

fn w(x: u128) -> Word256 {
    Word256 { hi: x, lo: 0 }
}

fn roots(a: u128, b: u128) -> ValidityRoots {
    ValidityRoots { account_tree_root: w(a), block_tree_root: w(b) }
}

#[test]
fn block_chaining_checks() {
    assert_eq!(validate_block_witness(true, &roots(1, 2), &roots(1, 2)), Ok(()));
    assert_eq!(validate_block_witness(false, &roots(1, 2), &roots(1, 2)), Err(WitnessError::InvalidPredecessorProof));
    assert_eq!(validate_block_witness(true, &roots(1, 2), &roots(9, 2)), Err(WitnessError::AccountTreeRootMismatch));
    assert_eq!(validate_block_witness(true, &roots(1, 2), &roots(1, 9)), Err(WitnessError::BlockTreeRootMismatch));
}

#[test]
fn update_checks() {
    let pred = Predecessor::Proof { verified: true, commitment: w(1) };
    assert_eq!(validate_update_witness(&pred, 10, true, true, 10), Ok(()));
    assert_eq!(validate_update_witness(&pred, 10, true, true, 3), Ok(()));
    assert_eq!(validate_update_witness(&pred, 10, true, true, 11), Err(WitnessError::PriorBlockAhead));
    assert_eq!(validate_update_witness(&pred, 10, false, true, 3), Err(WitnessError::InvalidSubProof));
    assert_eq!(validate_update_witness(&pred, 10, true, false, 3), Err(WitnessError::InvalidMembershipProof));
    let bad = Predecessor::Proof { verified: false, commitment: w(1) };
    assert_eq!(validate_update_witness(&bad, 10, true, true, 3), Err(WitnessError::InvalidPredecessorProof));
}

#[test]
fn withdrawal_checks() {
    assert_eq!(validate_withdrawal_witness(true, true), Ok(()));
    assert_eq!(validate_withdrawal_witness(false, true), Err(WitnessError::InvalidPredecessorProof));
    assert_eq!(validate_withdrawal_witness(true, false), Err(WitnessError::InvalidSubProof));
}

#[test]
fn error_messages() {
    assert_eq!(WitnessError::InvalidTransferCount.message(), "Invalid number of transfers");
    assert_eq!(WitnessError::PrevCommitmentMismatch.message(), "prev_private_commitment not match");
    assert_eq!(WitnessError::ValidityInputsMismatch.message(), "validity proof pis mismatch");
    assert_eq!(WitnessError::AmountMismatch.message(), "amount not match");
}

#[test]
fn readiness_gate_fails_closed() {
    assert!(ensure_ready(true, "balance processor").is_ok());
    let e = ensure_ready(false, "balance processor").err().unwrap();
    assert_eq!(e.code, 500);
    assert!(!e.success);
    assert_eq!(e.message, "balance processor not initialized");
}

#[test]
fn outcome_replaces_only_pending() {
    let out = || ProofRecord::Succeeded("new".to_string());
    assert!(matches!(outcome_to_write(&None, out()), Some(ProofRecord::Succeeded(p)) if p == "new"));
    assert!(matches!(outcome_to_write(&Some(ProofRecord::Pending), out()), Some(ProofRecord::Succeeded(p)) if p == "new"));
    assert!(outcome_to_write(&Some(ProofRecord::Succeeded("p".to_string())), out()).is_none());
    assert!(outcome_to_write(&Some(ProofRecord::Failed("e".to_string())), out()).is_none());
}

#[test]
fn proof_outcome_is_stored_as_decodable_text() {
    let rec = proof_outcome_record(Ok((vec![1, 2, 3], vec![4, 5])));
    match rec {
        ProofRecord::Succeeded(text) => {
            assert_eq!(decode_plonky2_proof(&text), Ok((vec![1u64, 2, 3], vec![4u8, 5])));
        }
        other => panic!("unexpected record {other:?}"),
    }
    let rec = proof_outcome_record(Err("circuit panicked".to_string()));
    assert!(matches!(rec, ProofRecord::Failed(m) if m == "Failed to generate proof: circuit panicked"));
}

#[test]
fn record_copy_and_terminal() {
    let r = ProofRecord::Failed("x".to_string());
    assert!(matches!(r.duplicate(), ProofRecord::Failed(m) if m == "x"));
    assert!(r.is_terminal());
    assert!(!ProofRecord::Pending.is_terminal());
}

#[test]
fn block_answers() {
    let r = BlockProofResponse::generating();
    assert_eq!(r.error_message.as_deref(), Some("validity proof is generating"));
    let r = BlockProofResponse::already_exists(&ProofRecord::Succeeded("P".to_string()));
    assert_eq!(r.proof.as_deref(), Some("P"));
    assert_eq!(r.error_message.as_deref(), Some("validity proof already exists"));
    let r = BlockProofResponse::from_lookup(None);
    assert!(r.success);
    assert_eq!(r.proof, None);
    let r = BlockProofResponse::from_lookup(Some(ProofRecord::Failed("bad".to_string())));
    assert!(!r.success);
    let ids = vec!["0x1".to_string(), "0x2".to_string()];
    let recs = vec![None, Some(ProofRecord::Succeeded("second".to_string()))];
    let r = BlockProofsResponse::from_lookups(&ids, &recs);
    assert!(r.success);
    assert_eq!(r.proofs.len(), 1);
    assert_eq!(r.proofs[0].block_hash, "0x2");
}

#[test]
fn fraud_and_withdrawal_answers() {
    let r = FraudProofResponse::already_exists(&ProofRecord::Pending);
    assert_eq!(r.proof, None);
    assert_eq!(r.error_message.as_deref(), Some("Fraud proof already exists"));
    let r = FraudProofResponse::from_lookup(Some(ProofRecord::Succeeded("F".to_string())));
    assert_eq!(r.proof.as_deref(), Some("F"));
    assert_eq!(WithdrawalAck::withdrawal_generating().message, "withdrawal proof is generating");
    assert_eq!(WithdrawalAck::wrapper_generating().message, "withdrawal wrapper proof is generating");
    let ids = vec!["1".to_string()];
    let recs = vec![Some(ProofRecord::Failed("no".to_string()))];
    let r = WithdrawalProofsResponse::from_lookups(&ids, &recs);
    assert!(!r.success);
    assert!(r.proofs.is_empty());
    assert_eq!(r.error_message.as_deref(), Some("no"));
}

#[test]
fn every_balance_stage_batches_alike() {
    let ids = vec!["a".to_string(), "b".to_string()];
    let recs = vec![Some(ProofRecord::Succeeded("PA".to_string())), Some(ProofRecord::Succeeded("PB".to_string()))];
    assert_eq!(ProofsUpdateResponse::from_lookups(&ids, &recs).proofs.len(), 2);
    assert_eq!(ProofsTransferResponse::from_lookups(&ids, &recs).proofs[1].proof, "PB");
    assert_eq!(ProofsSpentResponse::from_lookups(&ids, &recs).proofs[0].request_id, "a");
    assert!(ProofsWithdrawalResponse::from_lookups(&ids, &recs).success);
    let empty: Vec<String> = vec![];
    let r = ProofsUpdateResponse::from_lookups(&empty, &vec![]);
    assert!(r.success && r.proofs.is_empty() && r.error_message.is_none());
}

#[test]
fn submission_from_store_answer() {
    assert!(matches!(submission_from(Err(WitnessError::AmountMismatch), None), Submission::Rejected(WitnessError::AmountMismatch)));
    assert!(matches!(submission_from(Ok(()), None), Submission::Scheduled));
    assert!(matches!(submission_from(Ok(()), Some(ProofRecord::Pending)), Submission::AlreadyRequested(ProofRecord::Pending)));
}

#[test]
fn proof_text_shape() {
    let text = encode_plonky2_proof(&vec![1, 2], &vec![3, 4, 5]);
    // frame of 4 + 16 + 3 = 23 bytes: 8 groups of 4 characters
    assert_eq!(text.len(), 32);
    assert!(text.chars().all(|c| c.is_ascii_alphanumeric() || c == '+' || c == '/' || c == '='));
    assert_eq!(text, encode_plonky2_proof(&vec![1, 2], &vec![3, 4, 5]));
}
