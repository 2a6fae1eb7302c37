//! The data model: block identifiers, headers, blocks, transactions, and the
//! per-transaction effect log.

use vstd::prelude::*;

verus! {

/// A canonical 32-byte block identifier. Opaque, compared by byte equality;
/// produced only by [`crate::identity`]'s header identity, except for the
/// all-zero sentinel that stands for the genesis parent.
pub struct BlockID(pub [u8; 32]);

impl View for BlockID {
    type V = Seq<u8>;

    open spec fn view(&self) -> Seq<u8> {
        self.0@
    }
}

/// The mathematical value of a [`BlockHeader`].
#[verifier::ext_equal]
pub struct BlockHeaderV {
    pub version: u64,
    pub height: u64,
    pub prev: Seq<u8>,
    pub timestamp_ms: u64,
    pub txroot: Seq<u8>,
    pub utxoroot: Seq<u8>,
    pub nonceroot: Seq<u8>,
    pub refscount: u64,
    pub ext: Seq<u8>,
}

/// A block header. Immutable once constructed; `ext` is an opaque
/// forward-compatibility payload, only ever non-empty when `version > 1`.
pub struct BlockHeader {
    pub version: u64,
    pub height: u64,
    pub prev: BlockID,
    pub timestamp_ms: u64,
    pub txroot: [u8; 32],
    pub utxoroot: [u8; 32],
    pub nonceroot: [u8; 32],
    pub refscount: u64,
    pub ext: Vec<u8>,
}

impl View for BlockHeader {
    type V = BlockHeaderV;

    open spec fn view(&self) -> BlockHeaderV {
        BlockHeaderV {
            version: self.version,
            height: self.height,
            prev: self.prev@,
            timestamp_ms: self.timestamp_ms,
            txroot: self.txroot@,
            utxoroot: self.utxoroot@,
            nonceroot: self.nonceroot@,
            refscount: self.refscount,
            ext: self.ext@,
        }
    }
}

impl BlockHeader {
    /// A synthetic genesis-parent header: version 1, height 1, all digests
    /// and the previous identifier zeroed, empty extension. It is never
    /// itself validated; it serves as the `prev` argument when validating
    /// the first real block, whose height must then be 2.
    pub fn make_initial(timestamp_ms: u64, refscount: u64) -> (h: BlockHeader)
        ensures
            h@.version == 1,
            h@.height == 1,
            h@.prev == Seq::new(32, |i: int| 0u8),
            h@.timestamp_ms == timestamp_ms,
            h@.txroot == Seq::new(32, |i: int| 0u8),
            h@.utxoroot == Seq::new(32, |i: int| 0u8),
            h@.nonceroot == Seq::new(32, |i: int| 0u8),
            h@.refscount == refscount,
            h@.ext == Seq::<u8>::empty(),
    {
        let h = BlockHeader {
            version: 1,
            height: 1,
            prev: BlockID([0u8; 32]),
            timestamp_ms,
            txroot: [0u8; 32],
            utxoroot: [0u8; 32],
            nonceroot: [0u8; 32],
            refscount,
            ext: Vec::new(),
        };
        proof {
            assert(h@.prev =~= Seq::new(32, |i: int| 0u8));
            assert(h@.txroot =~= Seq::new(32, |i: int| 0u8));
            assert(h@.utxoroot =~= Seq::new(32, |i: int| 0u8));
            assert(h@.nonceroot =~= Seq::new(32, |i: int| 0u8));
            assert(h@.ext =~= Seq::<u8>::empty());
        }
        h
    }
}

/// The mathematical value of a [`Tx`].
#[verifier::ext_equal]
pub struct TxV {
    pub version: u64,
    pub mintime_ms: u64,
    pub maxtime_ms: u64,
    pub payload: Seq<u8>,
}

/// The structural header of a transaction. Only the version is read here;
/// it gates admission into version-1 blocks.
pub struct TxHeader {
    pub version: u64,
}

/// A transaction. This core reads only its version and its validity window;
/// the payload (proof data, inputs, outputs) is interpreted solely by the
/// caller's transaction verifier.
pub struct Tx {
    pub header: TxHeader,
    pub mintime_ms: u64,
    pub maxtime_ms: u64,
    pub payload: Vec<u8>,
}

impl View for Tx {
    type V = TxV;

    open spec fn view(&self) -> TxV {
        TxV {
            version: self.header.version,
            mintime_ms: self.mintime_ms,
            maxtime_ms: self.maxtime_ms,
            payload: self.payload@,
        }
    }
}

/// The effect log a verifier returns for one transaction. Opaque to this
/// core: it is threaded into the transaction identity and handed back to
/// the caller for state application, never interpreted.
#[derive(Debug, Clone, PartialEq, Eq)]
pub struct TxLog {
    pub bytes: Vec<u8>,
}

impl View for TxLog {
    type V = Seq<u8>;

    open spec fn view(&self) -> Seq<u8> {
        self.bytes@
    }
}

/// A canonical 32-byte transaction identifier, derived deterministically
/// from a transaction and its verified effect log.
pub struct TxID(pub [u8; 32]);

impl View for TxID {
    type V = Seq<u8>;

    open spec fn view(&self) -> Seq<u8> {
        self.0@
    }
}

/// A block: a header and the ordered transactions it commits to. The order
/// is significant: it is the order of admission checks, of verification,
/// and of the Merkle leaves.
pub struct Block {
    pub header: BlockHeader,
    pub txs: Vec<Tx>,
}

} // verus!
