use zkvm_blocks::labels::DOMAIN_TXIDS;
use zkvm_blocks::{
    merkle_root, tx_id, BCError, Block, BlockHeader, BlockID, Tx, TxHeader, TxID, TxLog,
    TxVerifier, VerifierError,
};

/// Accepts every transaction, returning an effect log echoing the payload.
struct AcceptAll;

impl TxVerifier for AcceptAll {
    fn verify_tx(&self, tx: &Tx) -> Result<TxLog, VerifierError> {
        Ok(TxLog {
            bytes: tx.payload.clone(),
        })
    }
}

/// Rejects every transaction with a fixed code.
struct RejectAll;

impl TxVerifier for RejectAll {
    fn verify_tx(&self, _tx: &Tx) -> Result<TxLog, VerifierError> {
        Err(VerifierError { code: 42 })
    }
}

fn genesis() -> BlockHeader {
    BlockHeader::make_initial(1000, 0)
}

/// The log AcceptAll returns for `tx`.
fn log_of(tx: &Tx) -> TxLog {
    TxLog {
        bytes: tx.payload.clone(),
    }
}

fn tx_v1(mintime_ms: u64, maxtime_ms: u64, payload: Vec<u8>) -> Tx {
    Tx {
        header: TxHeader { version: 1 },
        mintime_ms,
        maxtime_ms,
        payload,
    }
}

/// The root the validator expects for these transactions under AcceptAll.
fn expected_root(txs: &[Tx]) -> [u8; 32] {
    let ids: Vec<TxID> = txs.iter().map(|tx| tx_id(tx, &log_of(tx))).collect();
    merkle_root(&DOMAIN_TXIDS, &ids)
}

/// A block that extends `parent` correctly, carrying `txs`.
fn block_over(parent: &BlockHeader, timestamp_ms: u64, txs: Vec<Tx>) -> Block {
    let txroot = expected_root(&txs);
    Block {
        header: BlockHeader {
            version: parent.version,
            height: parent.height + 1,
            prev: parent.id(),
            timestamp_ms,
            txroot,
            utxoroot: [0u8; 32],
            nonceroot: [0u8; 32],
            refscount: parent.refscount,
            ext: Vec::new(),
        },
        txs,
    }
}

#[test]
fn make_initial_fields() {
    let h = genesis();
    assert_eq!(h.version, 1);
    assert_eq!(h.height, 1);
    assert_eq!(h.prev.0, [0u8; 32]);
    assert_eq!(h.timestamp_ms, 1000);
    assert_eq!(h.txroot, [0u8; 32]);
    assert_eq!(h.utxoroot, [0u8; 32]);
    assert_eq!(h.nonceroot, [0u8; 32]);
    assert_eq!(h.refscount, 0);
    assert!(h.ext.is_empty());
}

#[test]
fn header_id_is_deterministic() {
    let a = genesis();
    let b = genesis();
    assert_eq!(a.id().0, a.id().0);
    assert_eq!(a.id().0, b.id().0);
}

#[test]
fn header_id_depends_on_every_field() {
    let base = block_over(&genesis(), 1001, Vec::new()).header;
    let base_id = base.id().0;

    let mut h = block_over(&genesis(), 1001, Vec::new()).header;
    h.version = 2;
    assert_ne!(h.id().0, base_id);

    let mut h = block_over(&genesis(), 1001, Vec::new()).header;
    h.height = 3;
    assert_ne!(h.id().0, base_id);

    let mut h = block_over(&genesis(), 1001, Vec::new()).header;
    h.prev = BlockID([7u8; 32]);
    assert_ne!(h.id().0, base_id);

    let mut h = block_over(&genesis(), 1001, Vec::new()).header;
    h.timestamp_ms = 1002;
    assert_ne!(h.id().0, base_id);

    let mut h = block_over(&genesis(), 1001, Vec::new()).header;
    h.txroot = [7u8; 32];
    assert_ne!(h.id().0, base_id);

    let mut h = block_over(&genesis(), 1001, Vec::new()).header;
    h.utxoroot = [7u8; 32];
    assert_ne!(h.id().0, base_id);

    let mut h = block_over(&genesis(), 1001, Vec::new()).header;
    h.nonceroot = [7u8; 32];
    assert_ne!(h.id().0, base_id);

    let mut h = block_over(&genesis(), 1001, Vec::new()).header;
    h.refscount = 1;
    assert_ne!(h.id().0, base_id);

    let mut h = block_over(&genesis(), 1001, Vec::new()).header;
    h.ext = vec![1];
    assert_ne!(h.id().0, base_id);
}

#[test]
fn accepts_empty_block_over_genesis() {
    let parent = genesis();
    let b = block_over(&parent, 1001, Vec::new());
    let logs = b.validate(&parent, &AcceptAll).unwrap();
    assert_eq!(logs.len(), 0);
}

#[test]
fn rejects_wrong_height() {
    let parent = genesis();
    let mut b = block_over(&parent, 1001, Vec::new());
    b.header.height = 3;
    assert_eq!(b.validate(&parent, &AcceptAll), Err(BCError::BadHeight));
    let mut b = block_over(&parent, 1001, Vec::new());
    b.header.height = 1;
    assert_eq!(b.validate(&parent, &AcceptAll), Err(BCError::BadHeight));
}

#[test]
fn rejects_version_reversion() {
    let mut parent = genesis();
    parent.version = 2;
    let mut b = block_over(&parent, 1001, Vec::new());
    b.header.version = 1;
    assert_eq!(
        b.validate(&parent, &AcceptAll),
        Err(BCError::VersionReversion)
    );
}

#[test]
fn rejects_nonempty_extension_on_version_one() {
    let parent = genesis();
    let mut b = block_over(&parent, 1001, Vec::new());
    b.header.ext = vec![1, 2, 3];
    assert_eq!(
        b.validate(&parent, &AcceptAll),
        Err(BCError::IllegalExtension)
    );
}

#[test]
fn rejects_mismatched_prev() {
    let parent = genesis();
    let mut b = block_over(&parent, 1001, Vec::new());
    b.header.prev = BlockID([0u8; 32]);
    assert_eq!(b.validate(&parent, &AcceptAll), Err(BCError::MismatchedPrev));
}

#[test]
fn rejects_non_increasing_timestamp() {
    let parent = genesis();
    let mut b = block_over(&parent, 1000, Vec::new());
    assert_eq!(
        b.validate(&parent, &AcceptAll),
        Err(BCError::BadBlockTimestamp)
    );
    b.header.timestamp_ms = 999;
    assert_eq!(
        b.validate(&parent, &AcceptAll),
        Err(BCError::BadBlockTimestamp)
    );
}

#[test]
fn refscount_may_fall_stay_or_rise_by_one() {
    let mut parent = genesis();
    parent.refscount = 5;
    for refscount in [0, 4, 5, 6] {
        let mut b = block_over(&parent, 1001, Vec::new());
        b.header.refscount = refscount;
        assert!(b.validate(&parent, &AcceptAll).is_ok());
    }
    let mut b = block_over(&parent, 1001, Vec::new());
    b.header.refscount = 7;
    assert_eq!(b.validate(&parent, &AcceptAll), Err(BCError::BadRefscount));
}

#[test]
fn parent_at_height_limit_cannot_be_extended() {
    let mut parent = genesis();
    parent.height = u64::MAX;
    let mut b = block_over(&parent, 1001, Vec::new());
    b.header.height = u64::MAX;
    assert_eq!(b.validate(&parent, &AcceptAll), Err(BCError::BadHeight));
}

#[test]
fn parent_refscount_at_limit_never_exceeds_bound() {
    let mut parent = genesis();
    parent.refscount = u64::MAX;
    let mut b = block_over(&parent, 1001, Vec::new());
    b.header.refscount = u64::MAX;
    assert!(b.validate(&parent, &AcceptAll).is_ok());
}

#[test]
fn block_timestamp_must_lie_in_tx_window() {
    let parent = BlockHeader::make_initial(400, 0);
    for (ts, ok) in [(499, false), (500, true), (600, true), (601, false)] {
        let tx = tx_v1(500, 600, vec![1, 2]);
        let b = block_over(&parent, ts, vec![tx]);
        let r = b.validate(&parent, &AcceptAll);
        if ok {
            assert!(r.is_ok());
        } else {
            assert_eq!(r, Err(BCError::BadTxTimestamp(0)));
        }
    }
}

#[test]
fn admission_check_reports_window_and_version() {
    let tx = tx_v1(500, 600, Vec::new());
    assert_eq!(tx.check_admission(550, 1, 9), Ok(()));
    assert_eq!(
        tx.check_admission(499, 1, 9),
        Err(BCError::BadTxTimestamp(9))
    );
    let tx2 = Tx {
        header: TxHeader { version: 2 },
        mintime_ms: 500,
        maxtime_ms: 600,
        payload: Vec::new(),
    };
    assert_eq!(
        tx2.check_admission(550, 1, 9),
        Err(BCError::BadTxVersion(9))
    );
    assert_eq!(tx2.check_admission(550, 2, 9), Ok(()));
}

#[test]
fn rejects_new_tx_version_in_legacy_block() {
    let parent = genesis();
    let tx = Tx {
        header: TxHeader { version: 2 },
        mintime_ms: 0,
        maxtime_ms: 2000,
        payload: Vec::new(),
    };
    let b = block_over(&parent, 1001, vec![tx]);
    assert_eq!(b.validate(&parent, &AcceptAll), Err(BCError::BadTxVersion(0)));
}

#[test]
fn propagates_verifier_failure_with_position() {
    let parent = genesis();
    let b = block_over(&parent, 1001, vec![tx_v1(0, 2000, vec![9])]);
    assert_eq!(
        b.validate(&parent, &RejectAll),
        Err(BCError::TxVerification(0, VerifierError { code: 42 }))
    );
}

#[test]
fn rejects_wrong_txroot() {
    let parent = genesis();
    let mut b = block_over(&parent, 1001, vec![tx_v1(0, 2000, vec![9])]);
    b.header.txroot = [1u8; 32];
    assert_eq!(b.validate(&parent, &AcceptAll), Err(BCError::TxrootMismatch));
}

#[test]
fn returns_logs_in_block_order() {
    let parent = genesis();
    let txs = vec![tx_v1(0, 2000, vec![1]), tx_v1(0, 2000, vec![2, 2])];
    let b = block_over(&parent, 1001, txs);
    let logs = b.validate(&parent, &AcceptAll).unwrap();
    assert_eq!(logs.len(), 2);
    assert_eq!(logs[0].bytes, vec![1]);
    assert_eq!(logs[1].bytes, vec![2, 2]);
}

#[test]
fn chained_blocks_validate_in_sequence() {
    let parent = genesis();
    let b1 = block_over(&parent, 1001, Vec::new());
    assert!(b1.validate(&parent, &AcceptAll).is_ok());
    let b2 = block_over(&b1.header, 1002, Vec::new());
    assert!(b2.validate(&b1.header, &AcceptAll).is_ok());
    assert_ne!(b2.header.prev.0, b1.header.prev.0);
}

#[test]
fn merkle_root_is_order_sensitive() {
    let a = TxID([1u8; 32]);
    let b = TxID([2u8; 32]);
    let ab = merkle_root(&DOMAIN_TXIDS, &vec![TxID(a.0), TxID(b.0)]);
    let ba = merkle_root(&DOMAIN_TXIDS, &vec![TxID(b.0), TxID(a.0)]);
    assert_ne!(ab, ba);
    let empty = merkle_root(&DOMAIN_TXIDS, &vec![]);
    let single = merkle_root(&DOMAIN_TXIDS, &vec![TxID(a.0)]);
    assert_ne!(empty, single);
    assert_ne!(single, ab);
}

#[test]
fn tx_id_depends_on_tx_and_log() {
    let tx = tx_v1(0, 2000, vec![5]);
    let log = TxLog { bytes: vec![7] };
    assert_eq!(tx_id(&tx, &log).0, tx_id(&tx, &log).0);
    let other_log = TxLog { bytes: vec![8] };
    assert_ne!(tx_id(&tx, &log).0, tx_id(&tx, &other_log).0);
    let other_tx = tx_v1(0, 2001, vec![5]);
    assert_ne!(tx_id(&tx, &log).0, tx_id(&other_tx, &log).0);
}

#[test]
fn first_failure_wins_in_check_order() {
    // Both the height and the timestamp are wrong: the height check comes
    // first in the fixed order.
    let parent = genesis();
    let mut b = block_over(&parent, 1000, Vec::new());
    b.header.height = 5;
    assert_eq!(b.validate(&parent, &AcceptAll), Err(BCError::BadHeight));
    // A window violation at one transaction is reported before a root
    // mismatch that would be found later.
    let mut b = block_over(&parent, 1001, vec![tx_v1(1500, 2000, Vec::new())]);
    b.header.txroot = [3u8; 32];
    assert_eq!(
        b.validate(&parent, &AcceptAll),
        Err(BCError::BadTxTimestamp(0))
    );
}

#[test]
fn version_two_block_may_carry_extension_and_new_txs() {
    let mut parent = genesis();
    parent.version = 2;
    let tx = Tx {
        header: TxHeader { version: 2 },
        mintime_ms: 0,
        maxtime_ms: 2000,
        payload: vec![4],
    };
    let mut b = block_over(&parent, 1001, vec![tx]);
    b.header.ext = vec![1, 2];
    assert!(b.validate(&parent, &AcceptAll).is_ok());
}

#[test]
fn version_may_increase_along_the_chain() {
    let parent = genesis();
    let mut b = block_over(&parent, 1001, Vec::new());
    b.header.version = 2;
    b.header.ext = vec![9];
    assert!(b.validate(&parent, &AcceptAll).is_ok());
}
