//! Requests and answers of the balance service, whose stages are deposit,
//! update, transfer, send, spent and withdrawal.

use vstd::prelude::*;
use vstd::string::*;
use crate::service::{StageProofValue, Submission, batch_upto, collect_proofs, opt_text, value_pairs};
use crate::store::ProofRecord;
use crate::validator::{WitnessError, error_text};

verus! {

/// The text of an acknowledgement that the proof for `id` is being computed.
pub open spec fn generating_text(id: Seq<char>) -> Seq<char> {
    "balance proof (request ID: "@ + id + ") is generating"@
}

/// A bare success flag.
pub struct SimpleResponse {
    pub success: bool,
}

/// An error answer with its HTTP status code.
pub struct ErrorResponse {
    pub success: bool,
    pub code: u16,
    pub message: String,
}

impl ErrorResponse {
    /// A refused witness: a client error.
    pub fn client_error(e: WitnessError) -> (r: ErrorResponse)
        ensures
            !r.success,
            r.code == 400,
            r.message@ == error_text(e),
    {
        ErrorResponse { success: false, code: 400, message: e.message() }
    }

    /// A part of the circuit registry (`component`) is not built yet: a
    /// transient server error.
    pub fn not_initialized(component: &str) -> (r: ErrorResponse)
        ensures
            !r.success,
            r.code == 500,
            r.message@ == component@ + " not initialized"@,
    {
        let mut m = String::from_str(component);
        m.append(" not initialized");
        ErrorResponse { success: false, code: 500, message: m }
    }

    /// The proof store cannot be reached: a server error.
    pub fn store_unavailable() -> (r: ErrorResponse)
        ensures
            !r.success,
            r.code == 500,
            r.message@ == "proof store is unavailable"@,
    {
        ErrorResponse { success: false, code: 500, message: String::from_str("proof store is unavailable") }
    }
}

/// The health of a service: the store answers, and the circuits are built.
/// Either failure is a server error (500).
pub fn health_status(store_ok: bool, circuits_ready: bool) -> (r: Result<(), ErrorResponse>)
    ensures
        store_ok && circuits_ready <==> r is Ok,
        !store_ok ==> (r matches Err(e) && !e.success && e.code == 500 && e.message@ == "proof store is unavailable"@),
        store_ok && !circuits_ready ==> (r matches Err(e) && !e.success && e.code == 500
            && e.message@ == "circuits"@ + " not initialized"@),
{
    if !store_ok {
        Err(ErrorResponse::store_unavailable())
    } else if !circuits_ready {
        Err(ErrorResponse::not_initialized("circuits"))
    } else {
        Ok(())
    }
}

/// Work is accepted only once the circuit registry part `component` is
/// built; until then requests are refused at once (500) rather than made to
/// wait.
pub fn ensure_ready(ready: bool, component: &str) -> (r: Result<(), ErrorResponse>)
    ensures
        ready <==> r is Ok,
        !ready ==> (r matches Err(e) && !e.success && e.code == 500 && e.message@ == component@ + " not initialized"@),
{
    if ready {
        Ok(())
    } else {
        Err(ErrorResponse::not_initialized(component))
    }
}

/// The answer about one request id.
pub struct ProofResponse {
    pub success: bool,
    pub request_id: String,
    pub proof: Option<String>,
    pub error_message: Option<String>,
}

impl ProofResponse {
    /// The acknowledgement of a scheduled job.
    pub fn generating(request_id: &str) -> (r: ProofResponse)
        ensures
            r.success,
            r.request_id@ == request_id@,
            r.proof is None,
            opt_text(r.error_message) == Some(generating_text(request_id@)),
    {
        let mut m = String::from_str("balance proof (request ID: ");
        m.append(request_id);
        m.append(") is generating");
        ProofResponse { success: true, request_id: String::from_str(request_id), proof: None, error_message: Some(m) }
    }

    /// The answer to a submission whose request id already holds a record:
    /// the proof where one is stored, and no new job.
    pub fn already_requested(request_id: &str, existing: &ProofRecord) -> (r: ProofResponse)
        ensures
            r.success,
            r.request_id@ == request_id@,
            opt_text(r.proof) == (match *existing {
                ProofRecord::Succeeded(p) => Some(p@),
                _ => None,
            }),
            opt_text(r.error_message) == Some("balance proof already requested"@),
    {
        let proof = match existing {
            ProofRecord::Succeeded(p) => Some(p.clone()),
            _ => None,
        };
        ProofResponse {
            success: true,
            request_id: String::from_str(request_id),
            proof,
            error_message: Some(String::from_str("balance proof already requested")),
        }
    }

    /// The answer to a lookup of `request_id`, given what is stored for it.
    pub fn from_lookup(request_id: &str, found: Option<ProofRecord>) -> (r: ProofResponse)
        ensures
            r.request_id@ == request_id@,
            match found {
                None => !r.success && r.proof is None
                    && opt_text(r.error_message) == Some("balance proof is not generated"@),
                Some(ProofRecord::Pending) => r.success && r.proof is None
                    && opt_text(r.error_message) == Some(generating_text(request_id@)),
                Some(ProofRecord::Succeeded(p)) => r.success && opt_text(r.proof) == Some(p@)
                    && r.error_message is None,
                Some(ProofRecord::Failed(e)) => !r.success && r.proof is None
                    && opt_text(r.error_message) == Some(e@),
            },
    {
        match found {
            None => ProofResponse {
                success: false,
                request_id: String::from_str(request_id),
                proof: None,
                error_message: Some(String::from_str("balance proof is not generated")),
            },
            Some(ProofRecord::Pending) => ProofResponse::generating(request_id),
            Some(ProofRecord::Succeeded(p)) => ProofResponse {
                success: true,
                request_id: String::from_str(request_id),
                proof: Some(p),
                error_message: None,
            },
            Some(ProofRecord::Failed(e)) => ProofResponse {
                success: false,
                request_id: String::from_str(request_id),
                proof: None,
                error_message: Some(e),
            },
        }
    }

    /// The answer to a submission: a refused witness is a client error; a
    /// request id that already holds a record is reported as already
    /// requested; a scheduled job is acknowledged as generating.
    pub fn from_submission(request_id: &str, s: Submission) -> (r: Result<ProofResponse, ErrorResponse>)
        ensures
            match s {
                Submission::Rejected(e) => r matches Err(x) && x.code == 400 && x.message@ == error_text(e),
                Submission::AlreadyRequested(existing) => r matches Ok(x) && x.success
                    && x.request_id@ == request_id@
                    && opt_text(x.proof) == (match existing {
                        ProofRecord::Succeeded(p) => Some(p@),
                        _ => None,
                    })
                    && opt_text(x.error_message) == Some("balance proof already requested"@),
                Submission::Scheduled => r matches Ok(x) && x.success && x.request_id@ == request_id@
                    && x.proof is None && opt_text(x.error_message) == Some(generating_text(request_id@)),
            },
{
        match s {
            Submission::Rejected(e) => Err(ErrorResponse::client_error(e)),
            Submission::AlreadyRequested(x) => Ok(ProofResponse::already_requested(request_id, &x)),
            Submission::Scheduled => Ok(ProofResponse::generating(request_id)),
        }
    }
}

/// The request ids of a batch lookup of deposit proofs.
pub struct DepositHashQuery {
    pub request_ids: Vec<String>,
}

/// A finished deposit proof in a batch answer.
pub struct ProofDepositValue {
    pub request_id: String,
    pub proof: String,
}

impl StageProofValue for ProofDepositValue {
    open spec fn id_of(&self) -> Seq<char> {
        self.request_id@
    }

    open spec fn proof_of(&self) -> Seq<char> {
        self.proof@
    }

    fn make(id: String, proof: String) -> (r: Self) {
        ProofDepositValue { request_id: id, proof }
    }
}

/// The answer to a batch lookup of deposit proofs.
pub struct ProofsDepositResponse {
    pub success: bool,
    pub proofs: Vec<ProofDepositValue>,
    pub error_message: Option<String>,
}

impl ProofsDepositResponse {
    /// Builds the answer from what is stored for each id (`records[i]` for `ids[i]`).
    pub fn from_lookups(ids: &Vec<String>, records: &Vec<Option<ProofRecord>>) -> (r: Self)
        requires
            ids@.len() == records@.len(),
        ensures
            (r.success, value_pairs(r.proofs@), opt_text(r.error_message)) == batch_upto(ids@, records@, ids@.len()),
    {
        let (success, proofs, error_message) = collect_proofs::<ProofDepositValue>(ids, records);
        ProofsDepositResponse { success, proofs, error_message }
    }
}

/// The request ids of a batch lookup of withdrawal proofs.
pub struct WithdrawalIdQuery {
    pub request_ids: Vec<String>,
}

/// A finished withdrawal proof in a batch answer.
pub struct ProofWithdrawalValue {
    pub request_id: String,
    pub proof: String,
}

impl StageProofValue for ProofWithdrawalValue {
    open spec fn id_of(&self) -> Seq<char> {
        self.request_id@
    }

    open spec fn proof_of(&self) -> Seq<char> {
        self.proof@
    }

    fn make(id: String, proof: String) -> (r: Self) {
        ProofWithdrawalValue { request_id: id, proof }
    }
}

/// The answer to a batch lookup of withdrawal proofs.
pub struct ProofsWithdrawalResponse {
    pub success: bool,
    pub proofs: Vec<ProofWithdrawalValue>,
    pub error_message: Option<String>,
}

impl ProofsWithdrawalResponse {
    /// Builds the answer from what is stored for each id (`records[i]` for `ids[i]`).
    pub fn from_lookups(ids: &Vec<String>, records: &Vec<Option<ProofRecord>>) -> (r: Self)
        requires
            ids@.len() == records@.len(),
        ensures
            (r.success, value_pairs(r.proofs@), opt_text(r.error_message)) == batch_upto(ids@, records@, ids@.len()),
    {
        let (success, proofs, error_message) = collect_proofs::<ProofWithdrawalValue>(ids, records);
        ProofsWithdrawalResponse { success, proofs, error_message }
    }
}

/// The request ids of a batch lookup of update proofs.
pub struct UpdateIdQuery {
    pub request_ids: Vec<String>,
}

/// A finished update proof in a batch answer.
pub struct ProofUpdateValue {
    pub request_id: String,
    pub proof: String,
}

impl StageProofValue for ProofUpdateValue {
    open spec fn id_of(&self) -> Seq<char> {
        self.request_id@
    }

    open spec fn proof_of(&self) -> Seq<char> {
        self.proof@
    }

    fn make(id: String, proof: String) -> (r: Self) {
        ProofUpdateValue { request_id: id, proof }
    }
}

/// The answer to a batch lookup of update proofs.
pub struct ProofsUpdateResponse {
    pub success: bool,
    pub proofs: Vec<ProofUpdateValue>,
    pub error_message: Option<String>,
}

impl ProofsUpdateResponse {
    /// Builds the answer from what is stored for each id (`records[i]` for `ids[i]`).
    pub fn from_lookups(ids: &Vec<String>, records: &Vec<Option<ProofRecord>>) -> (r: Self)
        requires
            ids@.len() == records@.len(),
        ensures
            (r.success, value_pairs(r.proofs@), opt_text(r.error_message)) == batch_upto(ids@, records@, ids@.len()),
    {
        let (success, proofs, error_message) = collect_proofs::<ProofUpdateValue>(ids, records);
        ProofsUpdateResponse { success, proofs, error_message }
    }
}

/// The request ids of a batch lookup of transfer proofs.
pub struct TransferIdQuery {
    pub request_ids: Vec<String>,
}

/// A finished transfer proof in a batch answer.
pub struct ProofTransferValue {
    pub request_id: String,
    pub proof: String,
}

impl StageProofValue for ProofTransferValue {
    open spec fn id_of(&self) -> Seq<char> {
        self.request_id@
    }

    open spec fn proof_of(&self) -> Seq<char> {
        self.proof@
    }

    fn make(id: String, proof: String) -> (r: Self) {
        ProofTransferValue { request_id: id, proof }
    }
}

/// The answer to a batch lookup of transfer proofs.
pub struct ProofsTransferResponse {
    pub success: bool,
    pub proofs: Vec<ProofTransferValue>,
    pub error_message: Option<String>,
}

impl ProofsTransferResponse {
    /// Builds the answer from what is stored for each id (`records[i]` for `ids[i]`).
    pub fn from_lookups(ids: &Vec<String>, records: &Vec<Option<ProofRecord>>) -> (r: Self)
        requires
            ids@.len() == records@.len(),
        ensures
            (r.success, value_pairs(r.proofs@), opt_text(r.error_message)) == batch_upto(ids@, records@, ids@.len()),
    {
        let (success, proofs, error_message) = collect_proofs::<ProofTransferValue>(ids, records);
        ProofsTransferResponse { success, proofs, error_message }
    }
}

/// The request ids of a batch lookup of send proofs.
pub struct SendIdQuery {
    pub request_ids: Vec<String>,
}

/// A finished send proof in a batch answer.
pub struct ProofSendValue {
    pub request_id: String,
    pub proof: String,
}

impl StageProofValue for ProofSendValue {
    open spec fn id_of(&self) -> Seq<char> {
        self.request_id@
    }

    open spec fn proof_of(&self) -> Seq<char> {
        self.proof@
    }

    fn make(id: String, proof: String) -> (r: Self) {
        ProofSendValue { request_id: id, proof }
    }
}

/// The answer to a batch lookup of send proofs.
pub struct ProofsSendResponse {
    pub success: bool,
    pub proofs: Vec<ProofSendValue>,
    pub error_message: Option<String>,
}

impl ProofsSendResponse {
    /// Builds the answer from what is stored for each id (`records[i]` for `ids[i]`).
    pub fn from_lookups(ids: &Vec<String>, records: &Vec<Option<ProofRecord>>) -> (r: Self)
        requires
            ids@.len() == records@.len(),
        ensures
            (r.success, value_pairs(r.proofs@), opt_text(r.error_message)) == batch_upto(ids@, records@, ids@.len()),
    {
        let (success, proofs, error_message) = collect_proofs::<ProofSendValue>(ids, records);
        ProofsSendResponse { success, proofs, error_message }
    }
}

/// The request ids of a batch lookup of spent proofs.
pub struct SpentIdQuery {
    pub request_ids: Vec<String>,
}

/// A finished spent proof in a batch answer.
pub struct ProofSpendValue {
    pub request_id: String,
    pub proof: String,
}

impl StageProofValue for ProofSpendValue {
    open spec fn id_of(&self) -> Seq<char> {
        self.request_id@
    }

    open spec fn proof_of(&self) -> Seq<char> {
        self.proof@
    }

    fn make(id: String, proof: String) -> (r: Self) {
        ProofSpendValue { request_id: id, proof }
    }
}

/// The answer to a batch lookup of spent proofs.
pub struct ProofsSpentResponse {
    pub success: bool,
    pub proofs: Vec<ProofSpendValue>,
    pub error_message: Option<String>,
}

impl ProofsSpentResponse {
    /// Builds the answer from what is stored for each id (`records[i]` for `ids[i]`).
    pub fn from_lookups(ids: &Vec<String>, records: &Vec<Option<ProofRecord>>) -> (r: Self)
        requires
            ids@.len() == records@.len(),
        ensures
            (r.success, value_pairs(r.proofs@), opt_text(r.error_message)) == batch_upto(ids@, records@, ids@.len()),
    {
        let (success, proofs, error_message) = collect_proofs::<ProofSpendValue>(ids, records);
        ProofsSpentResponse { success, proofs, error_message }
    }
}

/// A proof to verify.
pub struct VerifyProofRequest {
    pub proof: String,
}

/// Whether a proof verified.
pub struct VerifyProofResponse {
    pub success: bool,
}

} // verus!
