//! Canonical identities: the header identity that links blocks into a chain,
//! and the transaction identity that feeds the Merkle root.
//!
//! Field order and labels are part of the wire contract: reordering or
//! relabeling any absorption changes every downstream identifier.

use vstd::prelude::*;

use crate::transcript::{lemma_u64_le_bytes_injective, merlin_challenge, u64_le_bytes,
    HashTranscript};
use crate::labels::{DOMAIN_BLOCKHEADER, DOMAIN_TX, LABEL_VERSION, LABEL_HEIGHT, LABEL_PREVID,
    LABEL_TIMESTAMP_MS, LABEL_TXROOT, LABEL_UTXOROOT, LABEL_NONCEROOT, LABEL_REFSCOUNT,
    LABEL_EXT, LABEL_ID, LABEL_MINTIME_MS, LABEL_MAXTIME_MS, LABEL_PAYLOAD, LABEL_TXLOG};
use crate::types::{BlockHeader, BlockHeaderV, BlockID, Tx, TxID, TxLog, TxV};

verus! {

/// The ordered `(label, message)` pairs a header's fields are absorbed as.
pub open spec fn header_trace(h: BlockHeaderV) -> Seq<(Seq<u8>, Seq<u8>)> {
    seq![
        (LABEL_VERSION@, u64_le_bytes(h.version)),
        (LABEL_HEIGHT@, u64_le_bytes(h.height)),
        (LABEL_PREVID@, h.prev),
        (LABEL_TIMESTAMP_MS@, u64_le_bytes(h.timestamp_ms)),
        (LABEL_TXROOT@, h.txroot),
        (LABEL_UTXOROOT@, h.utxoroot),
        (LABEL_NONCEROOT@, h.nonceroot),
        (LABEL_REFSCOUNT@, u64_le_bytes(h.refscount)),
        (LABEL_EXT@, h.ext),
    ]
}

/// The canonical identity of a header: the 32 challenge bytes drawn under
/// label `id` from a transcript in domain `ZkVM.blockheader` that absorbed
/// the header's fields in their fixed order.
pub open spec fn header_id(h: BlockHeaderV) -> Seq<u8> {
    merlin_challenge(DOMAIN_BLOCKHEADER@, header_trace(h), LABEL_ID@)
}

impl BlockHeader {
    /// Computes the canonical identity of this header. Deterministic: the
    /// result is a pure function of the header's field values.
    pub fn id(&self) -> (r: BlockID)
        requires
            self.ext@.len() <= 0xffff_ffff,
        ensures
            r@ == header_id(self@),
            r@.len() == 32,
    {
        let mut t = HashTranscript::new(&DOMAIN_BLOCKHEADER);
        t.append_u64(&LABEL_VERSION, self.version);
        t.append_u64(&LABEL_HEIGHT, self.height);
        t.append_message(&LABEL_PREVID, self.prev.0.as_slice());
        t.append_u64(&LABEL_TIMESTAMP_MS, self.timestamp_ms);
        t.append_message(&LABEL_TXROOT, self.txroot.as_slice());
        t.append_message(&LABEL_UTXOROOT, self.utxoroot.as_slice());
        t.append_message(&LABEL_NONCEROOT, self.nonceroot.as_slice());
        t.append_u64(&LABEL_REFSCOUNT, self.refscount);
        t.append_message(&LABEL_EXT, self.ext.as_slice());
        proof {
            assert(t.absorbed() =~= header_trace(self@));
        }
        BlockID(t.challenge_bytes32(&LABEL_ID))
    }
}

/// The absorbed trace behind a header identity is injective in the header:
/// any change to any field changes what the transcript absorbs. Together
/// with [`header_id`] being a function of the trace alone, this is the
/// exact core of field-order and field-value sensitivity.
pub proof fn lemma_header_trace_injective(a: BlockHeaderV, b: BlockHeaderV)
    requires
        header_trace(a) == header_trace(b),
    ensures
        a == b,
{
    assert(header_trace(a)[0] == header_trace(b)[0]);
    assert(header_trace(a)[1] == header_trace(b)[1]);
    assert(header_trace(a)[2] == header_trace(b)[2]);
    assert(header_trace(a)[3] == header_trace(b)[3]);
    assert(header_trace(a)[4] == header_trace(b)[4]);
    assert(header_trace(a)[5] == header_trace(b)[5]);
    assert(header_trace(a)[6] == header_trace(b)[6]);
    assert(header_trace(a)[7] == header_trace(b)[7]);
    assert(header_trace(a)[8] == header_trace(b)[8]);
    lemma_u64_le_bytes_injective(a.version, b.version);
    lemma_u64_le_bytes_injective(a.height, b.height);
    lemma_u64_le_bytes_injective(a.timestamp_ms, b.timestamp_ms);
    lemma_u64_le_bytes_injective(a.refscount, b.refscount);
    assert(a =~= b);
}

/// Header identity is deterministic: headers with equal field values have
/// byte-identical identities, across repeated invocations and independent
/// computations.
pub proof fn lemma_header_id_deterministic(a: BlockHeaderV, b: BlockHeaderV)
    requires
        a == b,
    ensures
        header_id(a) == header_id(b),
{
}

/// The ordered `(label, message)` pairs a transaction and its effect log
/// are absorbed as.
pub open spec fn tx_trace(tx: TxV, log: Seq<u8>) -> Seq<(Seq<u8>, Seq<u8>)> {
    seq![
        (LABEL_VERSION@, u64_le_bytes(tx.version)),
        (LABEL_MINTIME_MS@, u64_le_bytes(tx.mintime_ms)),
        (LABEL_MAXTIME_MS@, u64_le_bytes(tx.maxtime_ms)),
        (LABEL_PAYLOAD@, tx.payload),
        (LABEL_TXLOG@, log),
    ]
}

/// The canonical identity of a transaction given its verified effect log:
/// the 32 challenge bytes drawn under label `id` from a transcript in
/// domain `ZkVM.tx` that absorbed the pair.
pub open spec fn tx_id_of(tx: TxV, log: Seq<u8>) -> Seq<u8> {
    merlin_challenge(DOMAIN_TX@, tx_trace(tx, log), LABEL_ID@)
}

/// Computes the canonical identity of a transaction from the transaction
/// and its verified effect log. Deterministic: a pure function of the pair.
pub fn tx_id(tx: &Tx, log: &TxLog) -> (r: TxID)
    requires
        tx.payload@.len() <= 0xffff_ffff,
        log@.len() <= 0xffff_ffff,
    ensures
        r@ == tx_id_of(tx@, log@),
        r@.len() == 32,
{
    let mut t = HashTranscript::new(&DOMAIN_TX);
    t.append_u64(&LABEL_VERSION, tx.header.version);
    t.append_u64(&LABEL_MINTIME_MS, tx.mintime_ms);
    t.append_u64(&LABEL_MAXTIME_MS, tx.maxtime_ms);
    t.append_message(&LABEL_PAYLOAD, tx.payload.as_slice());
    t.append_message(&LABEL_TXLOG, log.bytes.as_slice());
    proof {
        assert(t.absorbed() =~= tx_trace(tx@, log@));
    }
    TxID(t.challenge_bytes32(&LABEL_ID))
}

} // verus!
