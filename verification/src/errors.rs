//! The rejection taxonomy: every way a candidate block can fail validation.
//! Each failure is terminal for the block under evaluation and is surfaced
//! to the caller; nothing is retried or silently tolerated at this layer.

use vstd::prelude::*;

verus! {

/// The error a transaction verifier reports when a proof does not verify.
/// This core never interprets the code; it forwards it verbatim, tagged
/// with the offending transaction's position.
#[derive(Debug, Clone, Copy, PartialEq, Eq, Structural)]
pub struct VerifierError {
    pub code: u64,
}

/// Why a candidate block was rejected. The header-transition variants carry
/// nothing; the per-transaction variants carry the index of the offending
/// transaction in block order.
#[derive(Debug, Clone, Copy, PartialEq, Eq, Structural)]
pub enum BCError {
    /// The candidate header's version is lower than the parent's.
    VersionReversion,
    /// A version-1 header carries non-empty extension data.
    IllegalExtension,
    /// The height is not exactly the parent's height plus one.
    BadHeight,
    /// The declared previous identifier does not equal the recomputed
    /// identity of the parent header.
    MismatchedPrev,
    /// The candidate timestamp is not strictly greater than the parent's.
    BadBlockTimestamp,
    /// The reference counter grew by more than one.
    BadRefscount,
    /// A transaction's validity window excludes the block timestamp.
    BadTxTimestamp(usize),
    /// A transaction's version is incompatible with a version-1 block.
    BadTxVersion(usize),
    /// The verifier rejected a transaction's proof; carries the position
    /// and the verifier's own error.
    TxVerification(usize, VerifierError),
    /// The recomputed Merkle root over the verified transaction identifiers
    /// does not equal the declared root.
    TxrootMismatch,
}

} // verus!
