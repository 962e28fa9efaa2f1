use proof_service::block::{check_block_hash, normalize_block_hash, BlockHashError};
use proof_service::codec::{
    compressed_proof_from_bytes, compressed_proof_to_bytes, decode_plonky2_proof,
    encode_plonky2_proof, CodecError,
};
use proof_service::request_id::{
    get_balance_send_request_id, get_balance_spent_request_id, get_balance_transfer_request_id,
    get_balance_update_request_id, get_fraud_request_id, get_receive_deposit_request_id,
    get_request_id, get_withdrawal_request_id, get_withdrawal_wrapper_request_id,
    spent_token_proof_request_id, withdrawal_token_proof_request_id,
};

#[test]
fn keys_of_scoped_stages() {
    assert_eq!(get_receive_deposit_request_id("0xab", "r1"), "balance-validity/0xab/deposit/r1");
    assert_eq!(get_balance_send_request_id("0xab", "r2"), "balance-validity/0xab/send/r2");
    assert_eq!(get_balance_transfer_request_id("0xab", "c3"), "balance-validity/0xab/transfer/c3");
    assert_eq!(get_balance_update_request_id("0xab", "h4"), "balance-validity/0xab/update/h4");
}

#[test]
fn keys_of_flat_stages() {
    assert_eq!(spent_token_proof_request_id("x"), "balance-validity/spend/x");
    assert_eq!(get_balance_spent_request_id("x"), "balance-validity/spent/x");
    assert_eq!(withdrawal_token_proof_request_id("x"), "balance-validity/withdrawal/x");
    assert_eq!(get_request_id("0xff"), "block-validity/0xff");
    assert_eq!(get_fraud_request_id("0xff"), "fraud/0xff");
    assert_eq!(get_withdrawal_request_id("7"), "withdrawal/7");
    assert_eq!(get_withdrawal_wrapper_request_id("7"), "withdrawal-wrapper/7");
}

#[test]
fn keys_of_different_stages_differ() {
    assert_ne!(
        get_receive_deposit_request_id("0xab", "same"),
        get_balance_transfer_request_id("0xab", "same")
    );
}

#[test]
fn frame_layout_is_little_endian() {
    let bytes = compressed_proof_to_bytes(&vec![0x0102030405060708u64], &vec![9u8, 10]);
    assert_eq!(bytes, vec![1, 0, 0, 0, 8, 7, 6, 5, 4, 3, 2, 1, 9, 10]);
}

#[test]
fn frame_round_trip() {
    let pis = vec![0u64, 1, u64::MAX, 0xdead_beef];
    let body = vec![1u8, 2, 3, 4, 5];
    let bytes = compressed_proof_to_bytes(&pis, &body);
    assert_eq!(compressed_proof_from_bytes(&bytes), Some((pis, body)));
}

#[test]
fn frame_too_short_is_refused() {
    assert_eq!(compressed_proof_from_bytes(&vec![1, 0, 0]), None);
    // announces two public inputs but carries one
    assert_eq!(compressed_proof_from_bytes(&vec![2, 0, 0, 0, 1, 2, 3, 4, 5, 6, 7, 8]), None);
}

#[test]
fn empty_frame() {
    let bytes = compressed_proof_to_bytes(&vec![], &vec![]);
    assert_eq!(bytes, vec![0, 0, 0, 0]);
    assert_eq!(compressed_proof_from_bytes(&bytes), Some((vec![], vec![])));
}

#[test]
fn text_round_trip() {
    let pis = vec![5u64, 6, 7];
    let body = vec![0xffu8, 0, 0x80];
    let text = encode_plonky2_proof(&pis, &body);
    assert_eq!(decode_plonky2_proof(&text), Ok((pis, body)));
}

#[test]
fn text_is_standard_base64_of_frame() {
    // frame of no public inputs and body [0xff]: 00 00 00 00 ff
    assert_eq!(encode_plonky2_proof(&vec![], &vec![0xff]), "AAAAAP8=");
}

#[test]
fn text_that_is_not_base64_is_refused() {
    assert_eq!(decode_plonky2_proof("not base64!"), Err(CodecError::InvalidText));
}

#[test]
fn text_with_truncated_frame_is_refused() {
    // "AQAAAA==" is the frame header announcing one public input, and nothing else
    assert_eq!(decode_plonky2_proof("AQAAAA=="), Err(CodecError::TruncatedFrame));
}

#[test]
fn block_hash_is_lowered_and_checked() {
    assert_eq!(normalize_block_hash("0xABcd01"), Ok("0xabcd01".to_string()));
    assert_eq!(normalize_block_hash("ABCDEF"), Ok("abcdef".to_string()));
    assert_eq!(normalize_block_hash(""), Err(BlockHashError::Empty));
    assert_eq!(normalize_block_hash("0xabcg"), Err(BlockHashError::NotHex));
    assert_eq!(normalize_block_hash("0X12"), Ok("0x12".to_string()));
}

#[test]
fn lowered_block_hash_check() {
    assert_eq!(check_block_hash("0x"), Ok("0x".to_string()));
    assert_eq!(check_block_hash("x0"), Err(BlockHashError::NotHex));
    assert_eq!(check_block_hash("0123456789abcdef"), Ok("0123456789abcdef".to_string()));
}
