//! Consensus-validation core for a chain of zero-knowledge-settled blocks.
//!
//! The crate decides, for a candidate block and the header of its accepted
//! parent, whether the block extends the chain: it derives the canonical
//! header identity through a domain-separated transcript, checks the header
//! transition rules, admits every transaction structurally, hands each
//! transaction to the caller's verifier, and recomputes the Merkle root over
//! the transaction identities before accepting.

pub mod labels;
pub mod transcript;
pub mod types;
pub mod identity;
pub mod merkle;
pub mod errors;
pub mod validate;

pub use errors::{BCError, VerifierError};
pub use identity::{header_id, tx_id, tx_id_of};
pub use merkle::{merkle_root, merkle_root_of};
pub use transcript::HashTranscript;
pub use types::{Block, BlockHeader, BlockID, Tx, TxHeader, TxID, TxLog};
pub use validate::{transition_error, tx_admissible, TxVerifier};
