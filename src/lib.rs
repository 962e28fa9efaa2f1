//! Orchestration layer of a family of proving services: cache keys, the
//! transport codec for proofs, the expiring proof store with its
//! set-if-absent protocol, witness validation and the per-stage response
//! logic.

pub mod balance;
pub mod block;
pub mod codec;
pub mod fraud;
pub mod request_id;
pub mod service;
pub mod store;
pub mod validator;
pub mod withdrawal;
