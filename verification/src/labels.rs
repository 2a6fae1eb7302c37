//! The domain and field labels of the wire contract, as byte constants.
//!
//! Every absorption into a transcript happens under one of these labels;
//! they are part of the identity contract and must never change.

use vstd::prelude::*;

verus! {

/// The bytes of `ZkVM.blockheader`: the label of the header-identity transcript domain.
pub const DOMAIN_BLOCKHEADER: [u8; 16] = [90, 107, 86, 77, 46, 98, 108, 111, 99, 107, 104, 101, 97, 100, 101, 114];

/// The bytes of `ZkVM.tx`: the label of the transaction-identity transcript domain.
pub const DOMAIN_TX: [u8; 7] = [90, 107, 86, 77, 46, 116, 120];

/// The bytes of `transaction_ids`: the label of the Merkle domain for transaction identifiers.
pub const DOMAIN_TXIDS: [u8; 15] = [116, 114, 97, 110, 115, 97, 99, 116, 105, 111, 110, 95, 105, 100, 115];

/// The bytes of `version`: the label of a header's or transaction's version.
pub const LABEL_VERSION: [u8; 7] = [118, 101, 114, 115, 105, 111, 110];

/// The bytes of `height`: the label of a header's height.
pub const LABEL_HEIGHT: [u8; 6] = [104, 101, 105, 103, 104, 116];

/// The bytes of `previd`: the label of a header's previous-block identifier.
pub const LABEL_PREVID: [u8; 6] = [112, 114, 101, 118, 105, 100];

/// The bytes of `timestamp_ms`: the label of a header's timestamp.
pub const LABEL_TIMESTAMP_MS: [u8; 12] = [116, 105, 109, 101, 115, 116, 97, 109, 112, 95, 109, 115];

/// The bytes of `txroot`: the label of a header's transaction root.
pub const LABEL_TXROOT: [u8; 6] = [116, 120, 114, 111, 111, 116];

/// The bytes of `utxoroot`: the label of a header's UTXO root.
pub const LABEL_UTXOROOT: [u8; 8] = [117, 116, 120, 111, 114, 111, 111, 116];

/// The bytes of `nonceroot`: the label of a header's nonce root.
pub const LABEL_NONCEROOT: [u8; 9] = [110, 111, 110, 99, 101, 114, 111, 111, 116];

/// The bytes of `refscount`: the label of a header's reference counter.
pub const LABEL_REFSCOUNT: [u8; 9] = [114, 101, 102, 115, 99, 111, 117, 110, 116];

/// The bytes of `ext`: the label of a header's extension payload.
pub const LABEL_EXT: [u8; 3] = [101, 120, 116];

/// The bytes of `id`: the label of the identity challenge.
pub const LABEL_ID: [u8; 2] = [105, 100];

/// The bytes of `mintime_ms`: the label of a transaction's earliest admissible timestamp.
pub const LABEL_MINTIME_MS: [u8; 10] = [109, 105, 110, 116, 105, 109, 101, 95, 109, 115];

/// The bytes of `maxtime_ms`: the label of a transaction's latest admissible timestamp.
pub const LABEL_MAXTIME_MS: [u8; 10] = [109, 97, 120, 116, 105, 109, 101, 95, 109, 115];

/// The bytes of `payload`: the label of a transaction's opaque payload.
pub const LABEL_PAYLOAD: [u8; 7] = [112, 97, 121, 108, 111, 97, 100];

/// The bytes of `txlog`: the label of a transaction's verified effect log.
pub const LABEL_TXLOG: [u8; 5] = [116, 120, 108, 111, 103];

/// The bytes of `merkle.empty`: the label of the root of an empty Merkle leaf sequence.
pub const LABEL_MERKLE_EMPTY: [u8; 12] = [109, 101, 114, 107, 108, 101, 46, 101, 109, 112, 116, 121];

/// The bytes of `merkle.leaf`: the label of a Merkle leaf.
pub const LABEL_MERKLE_LEAF: [u8; 11] = [109, 101, 114, 107, 108, 101, 46, 108, 101, 97, 102];

/// The bytes of `merkle.left`: the label of the left input of a Merkle node.
pub const LABEL_MERKLE_LEFT: [u8; 11] = [109, 101, 114, 107, 108, 101, 46, 108, 101, 102, 116];

/// The bytes of `merkle.right`: the label of the right input of a Merkle node.
pub const LABEL_MERKLE_RIGHT: [u8; 12] = [109, 101, 114, 107, 108, 101, 46, 114, 105, 103, 104, 116];

/// The bytes of `merkle.hash`: the label of the Merkle node challenge.
pub const LABEL_MERKLE_HASH: [u8; 11] = [109, 101, 114, 107, 108, 101, 46, 104, 97, 115, 104];

} // verus!
