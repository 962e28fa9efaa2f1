//! Requests and answers of the fraud service, whose proofs are keyed by the
//! hash of the block they challenge.

use vstd::prelude::*;
use vstd::string::*;
use crate::service::{StageProofValue, batch_upto, collect_proofs, opt_text, value_pairs};
use crate::store::ProofRecord;

verus! {

/// A fraud proof request: the validity proof of the challenged block and the
/// challenger's address.
pub struct FraudProofRequest {
    pub validity_proof: String,
    pub challenger: String,
}

/// The ids of a batch lookup.
pub struct FraudIdQuery {
    pub ids: Vec<String>,
}

/// The answer about one fraud proof.
pub struct ProofResponse {
    pub success: bool,
    pub proof: Option<String>,
    pub error_message: Option<String>,
}

impl ProofResponse {
    /// The answer to a submission whose id already holds a record.
    pub fn already_exists(existing: &ProofRecord) -> (r: ProofResponse)
        ensures
            r.success,
            opt_text(r.proof) == (match *existing {
                ProofRecord::Succeeded(p) => Some(p@),
                _ => None,
            }),
            opt_text(r.error_message) == Some("Fraud proof already exists"@),
    {
        let proof = match existing {
            ProofRecord::Succeeded(p) => Some(p.clone()),
            _ => None,
        };
        ProofResponse { success: true, proof, error_message: Some(String::from_str("Fraud proof already exists")) }
    }

    /// The answer to a lookup, given what is stored for the id.
    pub fn from_lookup(found: Option<ProofRecord>) -> (r: ProofResponse)
        ensures
            match found {
                Some(ProofRecord::Succeeded(p)) => r.success && opt_text(r.proof) == Some(p@) && r.error_message is None,
                Some(ProofRecord::Failed(e)) => !r.success && r.proof is None && opt_text(r.error_message) == Some(e@),
                _ => r.success && r.proof is None && r.error_message is None,
            },
    {
        match found {
            Some(ProofRecord::Succeeded(p)) => ProofResponse { success: true, proof: Some(p), error_message: None },
            Some(ProofRecord::Failed(e)) => ProofResponse { success: false, proof: None, error_message: Some(e) },
            _ => ProofResponse { success: true, proof: None, error_message: None },
        }
    }
}

/// A finished fraud proof in a batch answer.
pub struct ProofValue {
    pub id: String,
    pub proof: String,
}

impl StageProofValue for ProofValue {
    open spec fn id_of(&self) -> Seq<char> {
        self.id@
    }

    open spec fn proof_of(&self) -> Seq<char> {
        self.proof@
    }

    fn make(id: String, proof: String) -> (r: Self) {
        ProofValue { id, proof }
    }
}

/// The answer to a batch lookup of fraud proofs.
pub struct ProofsResponse {
    pub success: bool,
    pub proofs: Vec<ProofValue>,
    pub error_message: Option<String>,
}

impl ProofsResponse {
    /// Builds the answer from what is stored for each id (`records[i]` for `ids[i]`).
    pub fn from_lookups(ids: &Vec<String>, records: &Vec<Option<ProofRecord>>) -> (r: Self)
        requires
            ids@.len() == records@.len(),
        ensures
            (r.success, value_pairs(r.proofs@), opt_text(r.error_message)) == batch_upto(ids@, records@, ids@.len()),
    {
        let (success, proofs, error_message) = collect_proofs::<ProofValue>(ids, records);
        ProofsResponse { success, proofs, error_message }
    }
}

/// The acknowledgement of a submission.
pub struct GenerateProofResponse {
    pub success: bool,
    pub message: String,
}

impl GenerateProofResponse {
    /// The acknowledgement of a scheduled fraud proof for `block_hash`.
    pub fn generating(block_hash: &str) -> (r: GenerateProofResponse)
        ensures
            r.success,
            r.message@ == "fraud proof (block hash: "@ + block_hash@ + ") is generating"@,
    {
        let mut m = String::from_str("fraud proof (block hash: ");
        m.append(block_hash);
        m.append(") is generating");
        GenerateProofResponse { success: true, message: m }
    }
}

} // verus!
