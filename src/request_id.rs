//! Cache keys. Every stored proof lives under `<domain>/<subject>/<stage>/<id>`
//! (or a shorter form for services with a single stage), so that keys of
//! different stages never meet.

use vstd::prelude::*;
use vstd::string::*;

verus! {

/// The key of a stage that is scoped by a public key: `<domain>/<subject>/<stage>/<id>`.
pub open spec fn scoped_key(domain: Seq<char>, subject: Seq<char>, stage: Seq<char>, id: Seq<char>) -> Seq<char> {
    domain + "/"@ + subject + "/"@ + stage + "/"@ + id
}

/// The key of a stage that is not scoped by a subject: `<prefix>/<id>`.
pub open spec fn flat_key(prefix: Seq<char>, id: Seq<char>) -> Seq<char> {
    prefix + "/"@ + id
}

fn compose_scoped(domain: &str, subject: &str, stage: &str, id: &str) -> (r: String)
    ensures
        r@ == scoped_key(domain@, subject@, stage@, id@),
{
    let mut r = String::from_str(domain);
    r.append("/");
    r.append(subject);
    r.append("/");
    r.append(stage);
    r.append("/");
    r.append(id);
    r
}

fn compose_flat(prefix: &str, id: &str) -> (r: String)
    ensures
        r@ == flat_key(prefix@, id@),
{
    let mut r = String::from_str(prefix);
    r.append("/");
    r.append(id);
    r
}

/// Key of a deposit-receipt balance proof of `public_key`.
pub fn get_receive_deposit_request_id(public_key: &str, deposit_hash: &str) -> (r: String)
    ensures
        r@ == scoped_key("balance-validity"@, public_key@, "deposit"@, deposit_hash@),
{
    compose_scoped("balance-validity", public_key, "deposit", deposit_hash)
}

/// Key of a send balance proof of `public_key`.
pub fn get_balance_send_request_id(public_key: &str, block_hash: &str) -> (r: String)
    ensures
        r@ == scoped_key("balance-validity"@, public_key@, "send"@, block_hash@),
{
    compose_scoped("balance-validity", public_key, "send", block_hash)
}

/// Key of a transfer-receipt balance proof of `public_key`.
pub fn get_balance_transfer_request_id(public_key: &str, private_commitment: &str) -> (r: String)
    ensures
        r@ == scoped_key("balance-validity"@, public_key@, "transfer"@, private_commitment@),
{
    compose_scoped("balance-validity", public_key, "transfer", private_commitment)
}

/// Key of a block update balance proof of `public_key`.
pub fn get_balance_update_request_id(public_key: &str, block_hash: &str) -> (r: String)
    ensures
        r@ == scoped_key("balance-validity"@, public_key@, "update"@, block_hash@),
{
    compose_scoped("balance-validity", public_key, "update", block_hash)
}

/// Key of a spend proof.
pub fn spent_token_proof_request_id(request_id: &str) -> (r: String)
    ensures
        r@ == flat_key("balance-validity/spend"@, request_id@),
{
    compose_flat("balance-validity/spend", request_id)
}

/// Key of a spent sub-proof.
pub fn get_balance_spent_request_id(request_id: &str) -> (r: String)
    ensures
        r@ == flat_key("balance-validity/spent"@, request_id@),
{
    compose_flat("balance-validity/spent", request_id)
}

/// Key of a single-withdrawal proof.
pub fn withdrawal_token_proof_request_id(request_id: &str) -> (r: String)
    ensures
        r@ == flat_key("balance-validity/withdrawal"@, request_id@),
{
    compose_flat("balance-validity/withdrawal", request_id)
}

/// Key of a block validity proof.
pub fn get_request_id(block_hash: &str) -> (r: String)
    ensures
        r@ == flat_key("block-validity"@, block_hash@),
{
    compose_flat("block-validity", block_hash)
}

/// Key of a fraud proof.
pub fn get_fraud_request_id(block_hash: &str) -> (r: String)
    ensures
        r@ == flat_key("fraud"@, block_hash@),
{
    compose_flat("fraud", block_hash)
}

/// Key of an aggregated withdrawal proof.
pub fn get_withdrawal_request_id(id: &str) -> (r: String)
    ensures
        r@ == flat_key("withdrawal"@, id@),
{
    compose_flat("withdrawal", id)
}

/// Key of a wrapped withdrawal proof.
pub fn get_withdrawal_wrapper_request_id(id: &str) -> (r: String)
    ensures
        r@ == flat_key("withdrawal-wrapper"@, id@),
{
    compose_flat("withdrawal-wrapper", id)
}

} // verus!
