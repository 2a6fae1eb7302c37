//! The block validator: a single-pass decision over one candidate block and
//! the header of its accepted parent. Cheap structural checks run first, in
//! a fixed order; the first failure terminates validation; cryptographic
//! verification and the Merkle-root check follow.

use vstd::prelude::*;

use crate::errors::{BCError, VerifierError};
use crate::identity::{header_id, tx_id, tx_id_of};
use crate::labels::DOMAIN_TXIDS;
use crate::merkle::{id_leaves, merkle_root, merkle_root_of};
use crate::types::{Block, BlockHeader, BlockHeaderV, Tx, TxID, TxLog, TxV};

verus! {

/// The transaction verifier this core consumes: the sole authority on
/// whether a transaction's cryptographic proof is valid. An implementation
/// carries its own verification parameters (generator sets and the like);
/// it is expected to be pure with respect to the transaction and those
/// parameters. Any error it returns is propagated verbatim as the block's
/// rejection cause.
pub trait TxVerifier {
    /// Verifies one transaction and returns its effect log, or the
    /// verification failure. A returned effect log must fit the identity
    /// transcript's framing: at most `u32::MAX` bytes.
    fn verify_tx(&self, tx: &Tx) -> (r: Result<TxLog, VerifierError>)
        ensures
            r matches Ok(log) ==> log@.len() <= 0xffff_ffff,
    ;
}

/// The block timestamp falls inside the transaction's validity window,
/// boundaries included.
pub open spec fn tx_window_ok(tx: TxV, timestamp_ms: u64) -> bool {
    tx.mintime_ms <= timestamp_ms && timestamp_ms <= tx.maxtime_ms
}

/// A version-1 block may only carry version-1 transactions.
pub open spec fn tx_version_ok(tx: TxV, block_version: u64) -> bool {
    block_version == 1 ==> tx.version == 1
}

/// The transaction passes both structural admission checks against the
/// candidate block's timestamp and version.
pub open spec fn tx_admissible(tx: TxV, timestamp_ms: u64, block_version: u64) -> bool {
    tx_window_ok(tx, timestamp_ms) && tx_version_ok(tx, block_version)
}

/// The first header-transition failure of a candidate header against its
/// parent, in the fixed check order; `None` when every transition rule
/// holds. Heights and the reference counter are compared as unbounded
/// integers: a parent at the numeric limit can never be extended, and its
/// counter bound can never be exceeded.
pub open spec fn transition_error(h: BlockHeaderV, p: BlockHeaderV) -> Option<BCError> {
    if h.version < p.version {
        Some(BCError::VersionReversion)
    } else if h.version == 1 && h.ext.len() != 0 {
        Some(BCError::IllegalExtension)
    } else if h.height != p.height + 1 {
        Some(BCError::BadHeight)
    } else if h.prev != header_id(p) {
        Some(BCError::MismatchedPrev)
    } else if h.timestamp_ms <= p.timestamp_ms {
        Some(BCError::BadBlockTimestamp)
    } else if h.refscount > p.refscount + 1 {
        Some(BCError::BadRefscount)
    } else {
        None
    }
}

/// A header that passes every transition check satisfies all the
/// chain-extension invariants against its parent: the version never
/// decreases, a version-1 header carries no extension, the height grows by
/// exactly one, the previous identifier is the parent's recomputed
/// identity, the timestamp strictly increases, and the reference counter
/// grows by at most one.
pub proof fn lemma_accepted_transition_invariants(h: BlockHeaderV, p: BlockHeaderV)
    requires
        transition_error(h, p) is None,
    ensures
        h.version >= p.version,
        h.version == 1 ==> h.ext.len() == 0,
        h.height == p.height + 1,
        h.prev == header_id(p),
        h.timestamp_ms > p.timestamp_ms,
        h.refscount <= p.refscount + 1,
{
}

/// The Merkle leaves of a block's transactions given one effect log per
/// transaction: the transaction identities, in block order.
pub open spec fn txid_leaves(txs: Seq<Tx>, logs: Seq<Seq<u8>>) -> Seq<Seq<u8>> {
    Seq::new(txs.len(), |j: int| tx_id_of(txs[j]@, logs[j]))
}

/// The byte values of a sequence of effect logs.
pub open spec fn log_views(logs: Seq<TxLog>) -> Seq<Seq<u8>> {
    logs.map(|j: int, l: TxLog| l@)
}

/// Byte equality of two 32-byte digests.
fn bytes32_eq(a: &[u8; 32], b: &[u8; 32]) -> (r: bool)
    ensures
        r <==> a@ == b@,
{
    let mut i: usize = 0;
    while i < 32
        invariant
            i <= 32,
            forall|j: int| 0 <= j < i ==> a@[j] == b@[j],
        decreases 32 - i,
    {
        if a[i] != b[i] {
            return false;
        }
        i = i + 1;
    }
    proof {
        assert(a@ =~= b@);
    }
    true
}

impl BlockHeader {
    /// Checks the header-transition rules against the parent header, in
    /// their fixed order, and reports the first failure: version
    /// monotonicity, version-gated extension emptiness, height increment,
    /// previous-hash linkage, strict timestamp ordering, and the reference
    /// counter bound.
    pub fn check_transition(&self, prev: &BlockHeader) -> (r: Result<(), BCError>)
        requires
            prev.ext@.len() <= 0xffff_ffff,
        ensures
            r is Ok <==> transition_error(self@, prev@) is None,
            r matches Err(e) ==> transition_error(self@, prev@) == Some(e),
    {
        if self.version < prev.version {
            return Err(BCError::VersionReversion);
        }
        if self.version == 1 && self.ext.len() != 0 {
            return Err(BCError::IllegalExtension);
        }
        if !(prev.height < u64::MAX && self.height == prev.height + 1) {
            return Err(BCError::BadHeight);
        }
        let previd = prev.id();
        if !bytes32_eq(&self.prev.0, &previd.0) {
            return Err(BCError::MismatchedPrev);
        }
        if self.timestamp_ms <= prev.timestamp_ms {
            return Err(BCError::BadBlockTimestamp);
        }
        if prev.refscount < u64::MAX && self.refscount > prev.refscount + 1 {
            return Err(BCError::BadRefscount);
        }
        Ok(())
    }
}

impl Tx {
    /// The structural admission check of one transaction against the
    /// candidate block's timestamp and version: no cryptography, no side
    /// effects. `index` is the transaction's position in the block, used
    /// only to tag a rejection.
    pub fn check_admission(&self, timestamp_ms: u64, block_version: u64, index: usize) -> (r:
        Result<(), BCError>)
        ensures
            r is Ok <==> tx_admissible(self@, timestamp_ms, block_version),
            r == Err::<(), BCError>(BCError::BadTxTimestamp(index)) <==> !tx_window_ok(
                self@,
                timestamp_ms,
            ),
            r == Err::<(), BCError>(BCError::BadTxVersion(index)) <==> (tx_window_ok(
                self@,
                timestamp_ms,
            ) && !tx_version_ok(self@, block_version)),
    {
        if self.mintime_ms > timestamp_ms || timestamp_ms > self.maxtime_ms {
            return Err(BCError::BadTxTimestamp(index));
        }
        if block_version == 1 && self.header.version != 1 {
            return Err(BCError::BadTxVersion(index));
        }
        Ok(())
    }
}

impl Block {
    /// Validates this block against the header of its accepted parent,
    /// consulting `verifier` once per transaction, in block order. On
    /// acceptance the ordered effect logs are returned for state
    /// application; the first failure, in the fixed check order, rejects
    /// the block.
    ///
    /// The contract pins every header-transition rejection exactly, ties
    /// each per-transaction rejection to the offending position with every
    /// earlier transaction admissible, and guarantees that an accepted
    /// block's declared root equals the recomputed root over the
    /// transaction identities derived from the returned logs, in order.
    /// Which transactions verify is the verifier's decision alone, so
    /// acceptance is promised outright only where no verification happens:
    /// a transactionless block with a sound transition and a matching
    /// empty root is accepted.
    pub fn validate<V: TxVerifier>(&self, prev: &BlockHeader, verifier: &V) -> (r: Result<
        Vec<TxLog>,
        BCError,
    >)
        requires
            prev.ext@.len() <= 0xffff_ffff,
            forall|j: int| 0 <= j < self.txs@.len() ==> self.txs@[j].payload@.len() <= 0xffff_ffff,
        ensures
            transition_error(self.header@, prev@) matches Some(e) ==> r == Err::<
                Vec<TxLog>,
                BCError,
            >(e),
            r matches Err(e) ==> match e {
                BCError::VersionReversion
                | BCError::IllegalExtension
                | BCError::BadHeight
                | BCError::MismatchedPrev
                | BCError::BadBlockTimestamp
                | BCError::BadRefscount => transition_error(self.header@, prev@) == Some(e),
                BCError::BadTxTimestamp(i) => transition_error(self.header@, prev@) is None
                    && 0 <= i < self.txs@.len() && !tx_window_ok(
                    self.txs@[i as int]@,
                    self.header@.timestamp_ms,
                ) && forall|j: int|
                    0 <= j < i ==> tx_admissible(
                        self.txs@[j]@,
                        self.header@.timestamp_ms,
                        self.header@.version,
                    ),
                BCError::BadTxVersion(i) => transition_error(self.header@, prev@) is None && 0 <= i
                    < self.txs@.len() && tx_window_ok(self.txs@[i as int]@, self.header@.timestamp_ms)
                    && !tx_version_ok(self.txs@[i as int]@, self.header@.version) && forall|j: int|
                    0 <= j < i ==> tx_admissible(
                        self.txs@[j]@,
                        self.header@.timestamp_ms,
                        self.header@.version,
                    ),
                BCError::TxVerification(i, _) => transition_error(self.header@, prev@) is None && 0
                    <= i < self.txs@.len() && forall|j: int|
                    0 <= j <= i ==> tx_admissible(
                        self.txs@[j]@,
                        self.header@.timestamp_ms,
                        self.header@.version,
                    ),
                BCError::TxrootMismatch => transition_error(self.header@, prev@) is None && (forall|
                    j: int,
                |
                    0 <= j < self.txs@.len() ==> tx_admissible(
                        self.txs@[j]@,
                        self.header@.timestamp_ms,
                        self.header@.version,
                    )) && exists|logs: Seq<Seq<u8>>|
                    logs.len() == self.txs@.len() && merkle_root_of(
                        DOMAIN_TXIDS@,
                        #[trigger] txid_leaves(self.txs@, logs),
                    ) != self.header@.txroot,
            },
            r matches Ok(logs) ==> transition_error(self.header@, prev@) is None && logs@.len()
                == self.txs@.len() && (forall|j: int|
                0 <= j < self.txs@.len() ==> tx_admissible(
                    self.txs@[j]@,
                    self.header@.timestamp_ms,
                    self.header@.version,
                )) && self.header@.txroot == merkle_root_of(
                DOMAIN_TXIDS@,
                txid_leaves(self.txs@, log_views(logs@)),
            ),
            self.txs@.len() == 0 && transition_error(self.header@, prev@) is None ==> (if self.header@.txroot
                == merkle_root_of(DOMAIN_TXIDS@, Seq::<Seq<u8>>::empty()) {
                r matches Ok(logs) && logs@.len() == 0
            } else {
                r == Err::<Vec<TxLog>, BCError>(BCError::TxrootMismatch)
            }),
    {
        let tr = self.header.check_transition(prev);
        match tr {
            Err(e) => {
                return Err(e);
            },
            Ok(()) => {},
        }

        let mut txlogs: Vec<TxLog> = Vec::new();
        let mut txids: Vec<TxID> = Vec::new();
        let n = self.txs.len();
        let mut i: usize = 0;
        while i < n
            invariant
                n == self.txs@.len(),
                i <= n,
                transition_error(self.header@, prev@) is None,
                forall|j: int| 0 <= j < n ==> self.txs@[j].payload@.len() <= 0xffff_ffff,
                txlogs@.len() == i as int,
                txids@.len() == i as int,
                forall|j: int|
                    0 <= j < i ==> tx_admissible(
                        self.txs@[j]@,
                        self.header@.timestamp_ms,
                        self.header@.version,
                    ),
                forall|j: int|
                    0 <= j < i ==> txids@[j]@ == tx_id_of(self.txs@[j]@, txlogs@[j]@),
            decreases n - i,
        {
            let tx = &self.txs[i];
            if let Err(e) = tx.check_admission(self.header.timestamp_ms, self.header.version, i) {
                return Err(e);
            }
            match verifier.verify_tx(tx) {
                Err(e) => {
                    return Err(BCError::TxVerification(i, e));
                },
                Ok(log) => {
                    let id = tx_id(tx, &log);
                    txids.push(id);
                    txlogs.push(log);
                },
            }
            i = i + 1;
        }
        let root = merkle_root(&DOMAIN_TXIDS, &txids);
        proof {
            assert(id_leaves(txids@) =~= txid_leaves(self.txs@, log_views(txlogs@)));
        }
        if !bytes32_eq(&root, &self.header.txroot) {
            proof {
                let logs_w = log_views(txlogs@);
                assert(logs_w.len() == self.txs@.len() && merkle_root_of(
                    DOMAIN_TXIDS@,
                    txid_leaves(self.txs@, logs_w),
                ) != self.header@.txroot);
                if self.txs@.len() == 0 {
                    assert(txid_leaves(self.txs@, logs_w) =~= Seq::<Seq<u8>>::empty());
                }
            }
            return Err(BCError::TxrootMismatch);
        }
        proof {
            if self.txs@.len() == 0 {
                assert(txid_leaves(self.txs@, log_views(txlogs@)) =~= Seq::<Seq<u8>>::empty());
            }
        }
        Ok(txlogs)
    }
}

} // verus!
