//! Witness validation. Each check runs before any job is scheduled and is a
//! pure function of what the proving engine computed from the witness (hashes,
//! merkle-proof results) and of the public state the witness claims to extend.
//! A failed check is a client error and is never corrected silently.

use vstd::prelude::*;
use vstd::string::*;

verus! {

/// Number of transfers in one transaction: the width of every transfer batch.
pub const NUM_TRANSFERS_IN_TX: usize = 64;

/// A 256-bit value (a hash, a tree root, a commitment or an amount).
#[derive(Debug, Clone, Copy, PartialEq, Eq, Structural)]
pub struct Word256 {
    pub hi: u128,
    pub lo: u128,
}

/// Why a witness was refused.
#[derive(Debug, Clone, Copy, PartialEq, Eq, Structural)]
pub enum WitnessError {
    /// A predecessor proof did not verify against its verifying key.
    InvalidPredecessorProof,
    /// The transfer list does not have the width of a transaction.
    InvalidTransferCount,
    /// The previous-balance list does not have the width of a transaction.
    InvalidPrevBalanceCount,
    /// The asset merkle-proof list does not have the width of a transaction.
    InvalidAssetProofCount,
    /// The merkle proof of the leaf does not verify against the claimed root.
    InvalidInclusionProof,
    /// The deposit does not belong to the public key and salt of the witness.
    PubkeySaltHashMismatch,
    /// The nullifier of the leaf differs from the one of the state transition.
    NullifierMismatch,
    /// The token index of the leaf differs from the one of the state transition.
    TokenIndexMismatch,
    /// The amount of the leaf differs from the one of the state transition.
    AmountMismatch,
    /// The private state transition could not be formed from the witness.
    MalformedTransition,
    /// The transition starts from another private commitment than the predecessor's.
    PrevCommitmentMismatch,
    /// The witness's previous account tree root is not the predecessor's.
    AccountTreeRootMismatch,
    /// The witness's previous block tree root is not the predecessor's.
    BlockTreeRootMismatch,
    /// The witness claims a prior block beyond the predecessor's block number.
    PriorBlockAhead,
    /// The account membership proof does not verify.
    InvalidMembershipProof,
    /// The validity proof attests to other public inputs than the transaction's.
    ValidityInputsMismatch,
    /// A sub-proof that the stage consumes did not verify.
    InvalidSubProof,
}

/// The message of a refused witness.
pub open spec fn error_text(e: WitnessError) -> Seq<char> {
    match e {
        WitnessError::InvalidPredecessorProof => "invalid predecessor proof"@,
        WitnessError::InvalidTransferCount => "Invalid number of transfers"@,
        WitnessError::InvalidPrevBalanceCount => "Invalid number of prev_balances"@,
        WitnessError::InvalidAssetProofCount => "Invalid number of asset_merkle_proofs"@,
        WitnessError::InvalidInclusionProof => "invalid inclusion proof"@,
        WitnessError::PubkeySaltHashMismatch => "pubkey_salt_hash not match"@,
        WitnessError::NullifierMismatch => "nullifier not match"@,
        WitnessError::TokenIndexMismatch => "token_index not match"@,
        WitnessError::AmountMismatch => "amount not match"@,
        WitnessError::MalformedTransition => "Failed to create private state transition value"@,
        WitnessError::PrevCommitmentMismatch => "prev_private_commitment not match"@,
        WitnessError::AccountTreeRootMismatch => "account tree root is mismatch"@,
        WitnessError::BlockTreeRootMismatch => "block tree root is mismatch"@,
        WitnessError::PriorBlockAhead => "prior block is ahead of the predecessor"@,
        WitnessError::InvalidMembershipProof => "invalid account membership proof"@,
        WitnessError::ValidityInputsMismatch => "validity proof pis mismatch"@,
        WitnessError::InvalidSubProof => "invalid sub-proof"@,
    }
}

impl WitnessError {
    /// The message of the error.
    pub fn message(&self) -> (r: String)
        ensures
            r@ == error_text(*self),
    {
        match self {
            WitnessError::InvalidPredecessorProof => String::from_str("invalid predecessor proof"),
            WitnessError::InvalidTransferCount => String::from_str("Invalid number of transfers"),
            WitnessError::InvalidPrevBalanceCount => String::from_str("Invalid number of prev_balances"),
            WitnessError::InvalidAssetProofCount => String::from_str("Invalid number of asset_merkle_proofs"),
            WitnessError::InvalidInclusionProof => String::from_str("invalid inclusion proof"),
            WitnessError::PubkeySaltHashMismatch => String::from_str("pubkey_salt_hash not match"),
            WitnessError::NullifierMismatch => String::from_str("nullifier not match"),
            WitnessError::TokenIndexMismatch => String::from_str("token_index not match"),
            WitnessError::AmountMismatch => String::from_str("amount not match"),
            WitnessError::MalformedTransition => String::from_str("Failed to create private state transition value"),
            WitnessError::PrevCommitmentMismatch => String::from_str("prev_private_commitment not match"),
            WitnessError::AccountTreeRootMismatch => String::from_str("account tree root is mismatch"),
            WitnessError::BlockTreeRootMismatch => String::from_str("block tree root is mismatch"),
            WitnessError::PriorBlockAhead => String::from_str("prior block is ahead of the predecessor"),
            WitnessError::InvalidMembershipProof => String::from_str("invalid account membership proof"),
            WitnessError::ValidityInputsMismatch => String::from_str("validity proof pis mismatch"),
            WitnessError::InvalidSubProof => String::from_str("invalid sub-proof"),
        }
    }
}

/// The previous state a witness extends: the genesis state (with its
/// private commitment) or a balance proof (whether it verified, and the
/// private commitment it records).
#[derive(Debug, Clone, Copy, PartialEq, Eq, Structural)]
pub enum Predecessor {
    Genesis { commitment: Word256 },
    Proof { verified: bool, commitment: Word256 },
}

/// The private commitment the predecessor records.
pub open spec fn recorded_commitment(p: Predecessor) -> Word256 {
    match p {
        Predecessor::Genesis { commitment } => commitment,
        Predecessor::Proof { commitment, .. } => commitment,
    }
}

/// Whether the predecessor can be built on: genesis always, a proof if it verified.
pub open spec fn predecessor_ok(p: Predecessor) -> bool {
    match p {
        Predecessor::Genesis { .. } => true,
        Predecessor::Proof { verified, .. } => verified,
    }
}

/// The private state transition asserted by a witness.
#[derive(Debug, Clone, Copy, PartialEq, Eq, Structural)]
pub struct TransitionClaim {
    pub token_index: u32,
    pub amount: Word256,
    pub nullifier: Word256,
    /// The private commitment the transition starts from.
    pub prev_commitment: Word256,
    /// Whether the transition could be formed from the witness at all.
    pub well_formed: bool,
}

/// What the proving engine computed from a receipt witness (a deposit or a
/// transfer being received) about the leaf it consumes.
#[derive(Debug, Clone, Copy, PartialEq, Eq, Structural)]
pub struct ReceiptEvidence {
    /// Whether the leaf's merkle proof verifies against the root of the claimed state.
    pub inclusion_holds: bool,
    pub leaf_token_index: u32,
    pub leaf_amount: Word256,
    /// The nullifier derived from the leaf's identifying fields.
    pub derived_nullifier: Word256,
    pub transition: TransitionClaim,
}

/// The verdict on a receipt, once the stage's own checks have passed:
/// inclusion, then the consistency of nullifier, token index and amount,
/// then the form of the transition, then commitment chaining.
pub open spec fn receipt_verdict(e: ReceiptEvidence, recorded: Word256) -> Result<(), WitnessError> {
    if !e.inclusion_holds {
        Err(WitnessError::InvalidInclusionProof)
    } else if e.derived_nullifier != e.transition.nullifier {
        Err(WitnessError::NullifierMismatch)
    } else if e.leaf_token_index != e.transition.token_index {
        Err(WitnessError::TokenIndexMismatch)
    } else if e.leaf_amount != e.transition.amount {
        Err(WitnessError::AmountMismatch)
    } else if !e.transition.well_formed {
        Err(WitnessError::MalformedTransition)
    } else if e.transition.prev_commitment != recorded {
        Err(WitnessError::PrevCommitmentMismatch)
    } else {
        Ok(())
    }
}

/// The verdict on a deposit receipt. `owner_matches` says whether the hash of
/// the receiver's public key and deposit salt is the deposit's.
pub open spec fn deposit_verdict(pred: Predecessor, owner_matches: bool, e: ReceiptEvidence) -> Result<(), WitnessError> {
    if !predecessor_ok(pred) {
        Err(WitnessError::InvalidPredecessorProof)
    } else if !e.inclusion_holds {
        Err(WitnessError::InvalidInclusionProof)
    } else if !owner_matches {
        Err(WitnessError::PubkeySaltHashMismatch)
    } else {
        receipt_verdict(e, recorded_commitment(pred))
    }
}

/// The verdict on a transfer receipt. `sender_proof_verified` says whether the
/// sender's balance proof verified.
pub open spec fn transfer_verdict(pred: Predecessor, sender_proof_verified: bool, e: ReceiptEvidence) -> Result<(), WitnessError> {
    if !predecessor_ok(pred) {
        Err(WitnessError::InvalidPredecessorProof)
    } else if !sender_proof_verified {
        Err(WitnessError::InvalidSubProof)
    } else {
        receipt_verdict(e, recorded_commitment(pred))
    }
}

/// The verdict on the widths of a transaction's lists.
pub open spec fn width_verdict(transfers: nat, prev_balances: nat, asset_proofs: nat, width: nat) -> Result<(), WitnessError> {
    if transfers != width {
        Err(WitnessError::InvalidTransferCount)
    } else if prev_balances != width {
        Err(WitnessError::InvalidPrevBalanceCount)
    } else if asset_proofs != width {
        Err(WitnessError::InvalidAssetProofCount)
    } else {
        Ok(())
    }
}

fn check_receipt(e: &ReceiptEvidence, recorded: Word256) -> (r: Result<(), WitnessError>)
    ensures
        r == receipt_verdict(*e, recorded),
{
    if !e.inclusion_holds {
        Err(WitnessError::InvalidInclusionProof)
    } else if e.derived_nullifier != e.transition.nullifier {
        Err(WitnessError::NullifierMismatch)
    } else if e.leaf_token_index != e.transition.token_index {
        Err(WitnessError::TokenIndexMismatch)
    } else if e.leaf_amount != e.transition.amount {
        Err(WitnessError::AmountMismatch)
    } else if !e.transition.well_formed {
        Err(WitnessError::MalformedTransition)
    } else if e.transition.prev_commitment != recorded {
        Err(WitnessError::PrevCommitmentMismatch)
    } else {
        Ok(())
    }
}

impl Predecessor {
    /// The private commitment the predecessor records.
    pub fn commitment(&self) -> (r: Word256)
        ensures
            r == recorded_commitment(*self),
    {
        match self {
            Predecessor::Genesis { commitment } => *commitment,
            Predecessor::Proof { commitment, .. } => *commitment,
        }
    }

    /// Whether the predecessor can be built on.
    pub fn usable(&self) -> (r: bool)
        ensures
            r == predecessor_ok(*self),
    {
        match self {
            Predecessor::Genesis { .. } => true,
            Predecessor::Proof { verified, .. } => *verified,
        }
    }
}

/// Validates a deposit-receipt witness against its predecessor.
pub fn validate_witness(pred: &Predecessor, owner_matches: bool, evidence: &ReceiptEvidence) -> (r: Result<(), WitnessError>)
    ensures
        r == deposit_verdict(*pred, owner_matches, *evidence),
{
    if !pred.usable() {
        Err(WitnessError::InvalidPredecessorProof)
    } else if !evidence.inclusion_holds {
        Err(WitnessError::InvalidInclusionProof)
    } else if !owner_matches {
        Err(WitnessError::PubkeySaltHashMismatch)
    } else {
        check_receipt(evidence, pred.commitment())
    }
}

/// Validates a transfer-receipt witness against its predecessor.
pub fn validate_transfer_witness(pred: &Predecessor, sender_proof_verified: bool, evidence: &ReceiptEvidence) -> (r: Result<(), WitnessError>)
    ensures
        r == transfer_verdict(*pred, sender_proof_verified, *evidence),
{
    if !pred.usable() {
        Err(WitnessError::InvalidPredecessorProof)
    } else if !sender_proof_verified {
        Err(WitnessError::InvalidSubProof)
    } else {
        check_receipt(evidence, pred.commitment())
    }
}

/// Checks that each list of a transaction has exactly `width` elements.
pub fn check_fixed_width(transfers: usize, prev_balances: usize, asset_proofs: usize, width: usize) -> (r: Result<(), WitnessError>)
    ensures
        r == width_verdict(transfers as nat, prev_balances as nat, asset_proofs as nat, width as nat),
{
    if transfers != width {
        Err(WitnessError::InvalidTransferCount)
    } else if prev_balances != width {
        Err(WitnessError::InvalidPrevBalanceCount)
    } else if asset_proofs != width {
        Err(WitnessError::InvalidAssetProofCount)
    } else {
        Ok(())
    }
}

/// The roots a validity proof records and a block witness claims to extend.
#[derive(Debug, Clone, Copy, PartialEq, Eq, Structural)]
pub struct ValidityRoots {
    pub account_tree_root: Word256,
    pub block_tree_root: Word256,
}

/// The verdict on a block witness: the previous validity proof (if any)
/// verified, and its roots are the ones the witness extends.
pub open spec fn block_verdict(prev_verified: bool, prev: ValidityRoots, claimed: ValidityRoots) -> Result<(), WitnessError> {
    if !prev_verified {
        Err(WitnessError::InvalidPredecessorProof)
    } else if prev.account_tree_root != claimed.account_tree_root {
        Err(WitnessError::AccountTreeRootMismatch)
    } else if prev.block_tree_root != claimed.block_tree_root {
        Err(WitnessError::BlockTreeRootMismatch)
    } else {
        Ok(())
    }
}

/// Validates a block witness against the previous validity proof's roots
/// (the genesis roots where there is no previous proof).
pub fn validate_block_witness(prev_verified: bool, prev: &ValidityRoots, claimed: &ValidityRoots) -> (r: Result<(), WitnessError>)
    ensures
        r == block_verdict(prev_verified, *prev, *claimed),
{
    if !prev_verified {
        Err(WitnessError::InvalidPredecessorProof)
    } else if prev.account_tree_root != claimed.account_tree_root {
        Err(WitnessError::AccountTreeRootMismatch)
    } else if prev.block_tree_root != claimed.block_tree_root {
        Err(WitnessError::BlockTreeRootMismatch)
    } else {
        Ok(())
    }
}

/// The verdict on an update witness: the predecessor is usable, the block's
/// validity proof verified, the account membership proof holds, and the prior
/// block the witness claims is not beyond the predecessor's block number.
pub open spec fn update_verdict(
    pred: Predecessor,
    pred_block_number: u32,
    validity_verified: bool,
    membership_holds: bool,
    claimed_prior_block: u32,
) -> Result<(), WitnessError> {
    if !predecessor_ok(pred) {
        Err(WitnessError::InvalidPredecessorProof)
    } else if !validity_verified {
        Err(WitnessError::InvalidSubProof)
    } else if !membership_holds {
        Err(WitnessError::InvalidMembershipProof)
    } else if claimed_prior_block > pred_block_number {
        Err(WitnessError::PriorBlockAhead)
    } else {
        Ok(())
    }
}

/// Validates an update witness.
pub fn validate_update_witness(
    pred: &Predecessor,
    pred_block_number: u32,
    validity_verified: bool,
    membership_holds: bool,
    claimed_prior_block: u32,
) -> (r: Result<(), WitnessError>)
    ensures
        r == update_verdict(*pred, pred_block_number, validity_verified, membership_holds, claimed_prior_block),
{
    if !pred.usable() {
        Err(WitnessError::InvalidPredecessorProof)
    } else if !validity_verified {
        Err(WitnessError::InvalidSubProof)
    } else if !membership_holds {
        Err(WitnessError::InvalidMembershipProof)
    } else if claimed_prior_block > pred_block_number {
        Err(WitnessError::PriorBlockAhead)
    } else {
        Ok(())
    }
}

/// The lengths of a transaction's transfer, previous-balance and asset-proof lists.
#[derive(Debug, Clone, Copy, PartialEq, Eq, Structural)]
pub struct BatchWidths {
    pub transfers: usize,
    pub prev_balances: usize,
    pub asset_proofs: usize,
}

/// What the engine found about a send witness. The transfer batch either
/// travels in the witness (its lists, by their lengths) or was checked when
/// a separately supplied spent sub-proof was made.
#[derive(Debug, Clone, Copy, PartialEq, Eq, Structural)]
pub struct SendEvidence {
    /// Lengths of the transfer, previous-balance and asset-proof lists, where the witness carries them.
    pub batch: Option<BatchWidths>,
    /// Whether the validity proof of the containing block verified.
    pub validity_verified: bool,
    /// Whether that proof's public inputs are the transaction's.
    pub validity_inputs_match: bool,
    /// Whether a separately supplied spent sub-proof verified (`None` where none is supplied).
    pub spent_proof_verified: Option<bool>,
}

/// The verdict on a send witness: a usable predecessor, a batch of the
/// mandated width (or a spent sub-proof standing for it), a verified validity
/// proof for the transaction's block, and a verified spent sub-proof if one
/// is supplied.
pub open spec fn send_verdict(pred: Predecessor, e: SendEvidence) -> Result<(), WitnessError> {
    let widths = match e.batch {
        Some(b) => width_verdict(b.transfers as nat, b.prev_balances as nat, b.asset_proofs as nat, NUM_TRANSFERS_IN_TX as nat),
        None => if e.spent_proof_verified is None { Err(WitnessError::InvalidTransferCount) } else { Ok(()) },
    };
    if !predecessor_ok(pred) {
        Err(WitnessError::InvalidPredecessorProof)
    } else if widths is Err {
        widths
    } else if !e.validity_verified {
        Err(WitnessError::InvalidSubProof)
    } else if !e.validity_inputs_match {
        Err(WitnessError::ValidityInputsMismatch)
    } else if e.spent_proof_verified == Some(false) {
        Err(WitnessError::InvalidSubProof)
    } else {
        Ok(())
    }
}

/// Validates a send witness.
pub fn validate_send_witness(pred: &Predecessor, e: &SendEvidence) -> (r: Result<(), WitnessError>)
    ensures
        r == send_verdict(*pred, *e),
{
    if !pred.usable() {
        return Err(WitnessError::InvalidPredecessorProof);
    }
    match e.batch {
        Some(b) => {
            let w = check_fixed_width(b.transfers, b.prev_balances, b.asset_proofs, NUM_TRANSFERS_IN_TX);
            if w.is_err() {
                return w;
            }
        },
        None => {
            if e.spent_proof_verified.is_none() {
                return Err(WitnessError::InvalidTransferCount);
            }
        },
    }
    if !e.validity_verified {
        Err(WitnessError::InvalidSubProof)
    } else if !e.validity_inputs_match {
        Err(WitnessError::ValidityInputsMismatch)
    } else {
        match e.spent_proof_verified {
            Some(false) => Err(WitnessError::InvalidSubProof),
            _ => Ok(()),
        }
    }
}

/// Validates a spent witness: its transfer batch has the mandated width.
pub fn validate_spent_witness(transfers: usize, prev_balances: usize, asset_proofs: usize) -> (r: Result<(), WitnessError>)
    ensures
        r == width_verdict(transfers as nat, prev_balances as nat, asset_proofs as nat, NUM_TRANSFERS_IN_TX as nat),
{
    check_fixed_width(transfers, prev_balances, asset_proofs, NUM_TRANSFERS_IN_TX)
}

/// Validates a withdrawal: the proof it builds on (a balance proof, or the
/// previous aggregated withdrawal proof) verified, and so did its
/// single-withdrawal part (for a balance withdrawal: the transfer's inclusion
/// in the balance proof could be formed).
pub fn validate_withdrawal_witness(balance_proof_verified: bool, single_withdrawal_verified: bool) -> (r: Result<(), WitnessError>)
    ensures
        r == (if !balance_proof_verified {
            Err::<(), WitnessError>(WitnessError::InvalidPredecessorProof)
        } else if !single_withdrawal_verified {
            Err(WitnessError::InvalidSubProof)
        } else {
            Ok(())
        }),
{
    if !balance_proof_verified {
        Err(WitnessError::InvalidPredecessorProof)
    } else if !single_withdrawal_verified {
        Err(WitnessError::InvalidSubProof)
    } else {
        Ok(())
    }
}

/// Validates a wrapping request: the aggregated withdrawal proof verified.
pub fn validate_wrap_request(withdrawal_proof_verified: bool) -> (r: Result<(), WitnessError>)
    ensures
        r == (if withdrawal_proof_verified {
            Ok::<(), WitnessError>(())
        } else {
            Err(WitnessError::InvalidPredecessorProof)
        }),
{
    if withdrawal_proof_verified {
        Ok(())
    } else {
        Err(WitnessError::InvalidPredecessorProof)
    }
}

/// A witness whose receipt is accepted starts from exactly the commitment its
/// predecessor records; one that starts elsewhere is refused.
pub proof fn lemma_commitment_chaining(pred: Predecessor, owner_matches: bool, sender_proof_verified: bool, e: ReceiptEvidence)
    ensures
        deposit_verdict(pred, owner_matches, e) is Ok ==> e.transition.prev_commitment == recorded_commitment(pred),
        transfer_verdict(pred, sender_proof_verified, e) is Ok ==> e.transition.prev_commitment == recorded_commitment(pred),
        e.transition.prev_commitment != recorded_commitment(pred) ==> deposit_verdict(pred, owner_matches, e) is Err,
        e.transition.prev_commitment != recorded_commitment(pred) ==> transfer_verdict(pred, sender_proof_verified, e) is Err,
{
}

/// A transaction is accepted exactly when every list has the mandated width;
/// one element fewer or more in any list is refused.
pub proof fn lemma_fixed_width(transfers: nat, prev_balances: nat, asset_proofs: nat, width: nat)
    ensures
        width_verdict(transfers, prev_balances, asset_proofs, width) is Ok <==> (transfers == width
            && prev_balances == width && asset_proofs == width),
        width > 0 ==> width_verdict((width - 1) as nat, width, width, width) == Err::<(), WitnessError>(WitnessError::InvalidTransferCount),
        width_verdict(width + 1, width, width, width) == Err::<(), WitnessError>(WitnessError::InvalidTransferCount),
{
}

} // verus!
