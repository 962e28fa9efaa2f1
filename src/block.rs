//! Requests and answers of the block validity service, and the check of the
//! block hash that names each of its proofs.

use vstd::prelude::*;
use vstd::string::*;
use crate::service::{StageProofValue, batch_upto, collect_proofs, opt_text, value_pairs};
use crate::store::ProofRecord;

verus! {

/// What `str::to_lowercase` gives for a text.
pub uninterp spec fn lower_of(s: Seq<char>) -> Seq<char>;

/// Relies on `str::to_lowercase`: the result depends on the characters alone.
#[verifier::external_body]
fn lowercase(s: &str) -> (r: String)
    ensures
        r@ == lower_of(s@),
{
    s.to_lowercase()
}

/// A hexadecimal digit, as `char::is_digit(16)` takes it.
pub open spec fn is_hex_digit(c: char) -> bool {
    ('0' <= c && c <= '9') || ('a' <= c && c <= 'f') || ('A' <= c && c <= 'F')
}

/// Where the digits of a hash start: after a leading `0x`, if there is one.
pub open spec fn digits_start(s: Seq<char>) -> int {
    if s.len() >= 2 && s[0] == '0' && s[1] == 'x' {
        2
    } else {
        0
    }
}

/// A block hash: hexadecimal digits, with or without a leading `0x`.
pub open spec fn is_hex_hash(s: Seq<char>) -> bool {
    forall|i: int| digits_start(s) <= i < s.len() ==> is_hex_digit(#[trigger] s[i])
}

/// Why a block hash was refused.
#[derive(Debug, Clone, Copy, PartialEq, Eq, Structural)]
pub enum BlockHashError {
    /// No block hash was given.
    Empty,
    /// The hash holds a character that is not a hexadecimal digit.
    NotHex,
}

fn hex_digit(c: char) -> (r: bool)
    ensures
        r == is_hex_digit(c),
{
    ('0' <= c && c <= '9') || ('a' <= c && c <= 'f') || ('A' <= c && c <= 'F')
}

/// Checks a block hash that is already in lower case; on success it is the
/// request id of the block's proof.
pub fn check_block_hash(lowered: &str) -> (r: Result<String, BlockHashError>)
    ensures
        r is Ok <==> is_hex_hash(lowered@),
        match r {
            Ok(v) => v@ == lowered@,
            Err(e) => e == BlockHashError::NotHex,
        },
{
    let n = lowered.unicode_len();
    let start: usize = if n >= 2 && lowered.get_char(0) == '0' && lowered.get_char(1) == 'x' {
        2
    } else {
        0
    };
    let mut i: usize = start;
    while i < n
        invariant
            n == lowered@.len(),
            start == digits_start(lowered@),
            start <= i <= n,
            forall|j: int| start <= j < i ==> is_hex_digit(#[trigger] lowered@[j]),
        decreases n - i,
    {
        if !hex_digit(lowered.get_char(i)) {
            return Err(BlockHashError::NotHex);
        }
        i = i + 1;
    }
    Ok(String::from_str(lowered))
}

/// Checks the block hash of a request and brings it to lower case, the form
/// under which its proof is stored.
pub fn normalize_block_hash(raw: &str) -> (r: Result<String, BlockHashError>)
    ensures
        raw@.len() == 0 ==> r == Err::<String, BlockHashError>(BlockHashError::Empty),
        raw@.len() > 0 ==> (r is Ok <==> is_hex_hash(lower_of(raw@))),
        raw@.len() > 0 ==> match r {
            Ok(v) => v@ == lower_of(raw@),
            Err(e) => e == BlockHashError::NotHex,
        },
{
    if raw.unicode_len() == 0 {
        return Err(BlockHashError::Empty);
    }
    let lowered = lowercase(raw);
    check_block_hash(lowered.as_str())
}

/// The block hashes of a batch lookup.
pub struct BlockHashQuery {
    pub block_hashes: Vec<String>,
}

/// The answer about one block.
pub struct ProofResponse {
    pub success: bool,
    pub proof: Option<String>,
    pub error_message: Option<String>,
}

impl ProofResponse {
    /// The acknowledgement of a scheduled job.
    pub fn generating() -> (r: ProofResponse)
        ensures
            r.success,
            r.proof is None,
            opt_text(r.error_message) == Some("validity proof is generating"@),
    {
        ProofResponse {
            success: true,
            proof: None,
            error_message: Some(String::from_str("validity proof is generating")),
        }
    }

    /// The answer to a submission for a block that already holds a record.
    pub fn already_exists(existing: &ProofRecord) -> (r: ProofResponse)
        ensures
            r.success,
            opt_text(r.proof) == (match *existing {
                ProofRecord::Succeeded(p) => Some(p@),
                _ => None,
            }),
            opt_text(r.error_message) == Some("validity proof already exists"@),
    {
        let proof = match existing {
            ProofRecord::Succeeded(p) => Some(p.clone()),
            _ => None,
        };
        ProofResponse { success: true, proof, error_message: Some(String::from_str("validity proof already exists")) }
    }

    /// The answer to a lookup, given what is stored for the block.
    pub fn from_lookup(found: Option<ProofRecord>) -> (r: ProofResponse)
        ensures
            match found {
                Some(ProofRecord::Succeeded(p)) => r.success && opt_text(r.proof) == Some(p@) && r.error_message is None,
                Some(ProofRecord::Failed(e)) => !r.success && r.proof is None && opt_text(r.error_message) == Some(e@),
                _ => r.success && r.proof is None && r.error_message is None,
            },
    {
        match found {
            Some(ProofRecord::Succeeded(p)) => ProofResponse { success: true, proof: Some(p), error_message: None },
            Some(ProofRecord::Failed(e)) => ProofResponse { success: false, proof: None, error_message: Some(e) },
            _ => ProofResponse { success: true, proof: None, error_message: None },
        }
    }
}

/// A finished validity proof in a batch answer.
pub struct ProofValue {
    pub block_hash: String,
    pub proof: String,
}

impl StageProofValue for ProofValue {
    open spec fn id_of(&self) -> Seq<char> {
        self.block_hash@
    }

    open spec fn proof_of(&self) -> Seq<char> {
        self.proof@
    }

    fn make(id: String, proof: String) -> (r: Self) {
        ProofValue { block_hash: id, proof }
    }
}

/// The answer to a batch lookup of validity proofs.
pub struct ProofsResponse {
    pub success: bool,
    pub proofs: Vec<ProofValue>,
    pub error_message: Option<String>,
}

impl ProofsResponse {
    /// Builds the answer from what is stored for each block hash.
    pub fn from_lookups(block_hashes: &Vec<String>, records: &Vec<Option<ProofRecord>>) -> (r: Self)
        requires
            block_hashes@.len() == records@.len(),
        ensures
            (r.success, value_pairs(r.proofs@), opt_text(r.error_message)) == batch_upto(
                block_hashes@,
                records@,
                block_hashes@.len(),
            ),
    {
        let (success, proofs, error_message) = collect_proofs::<ProofValue>(block_hashes, records);
        ProofsResponse { success, proofs, error_message }
    }
}

/// A finished job's outcome as the store holds it: success with the proof
/// text, or failure with its message.
pub struct RedisResponse {
    pub success: bool,
    pub message: String,
}

impl RedisResponse {
    /// The stored form of a finished record; a pending record has none.
    pub fn from_record(rec: &ProofRecord) -> (r: Option<RedisResponse>)
        ensures
            match *rec {
                ProofRecord::Pending => r is None,
                ProofRecord::Succeeded(p) => r matches Some(x) && x.success && x.message@ == p@,
                ProofRecord::Failed(e) => r matches Some(x) && !x.success && x.message@ == e@,
            },
    {
        match rec {
            ProofRecord::Pending => None,
            ProofRecord::Succeeded(p) => Some(RedisResponse { success: true, message: p.clone() }),
            ProofRecord::Failed(e) => Some(RedisResponse { success: false, message: e.clone() }),
        }
    }

    /// The record a stored outcome stands for.
    pub fn to_record(&self) -> (r: ProofRecord)
        ensures
            self.success ==> r == ProofRecord::Succeeded(self.message),
            !self.success ==> r == ProofRecord::Failed(self.message),
    {
        if self.success {
            ProofRecord::Succeeded(self.message.clone())
        } else {
            ProofRecord::Failed(self.message.clone())
        }
    }
}

} // verus!
