//! An order-sensitive Merkle commitment over an ordered sequence of 32-byte
//! transaction identifiers, under a caller-chosen domain label.
//!
//! The root is a left fold: the root of the empty sequence is a challenge of
//! the bare domain transcript, and each further leaf is hashed and combined
//! with the running root through a two-input node hash. Appending, removing
//! or reordering leaves changes the absorbed traces, so the root commits to
//! the exact leaf order.

use vstd::prelude::*;

use crate::labels::{LABEL_MERKLE_EMPTY, LABEL_MERKLE_HASH, LABEL_MERKLE_LEAF, LABEL_MERKLE_LEFT,
    LABEL_MERKLE_RIGHT};
use crate::transcript::{merlin_challenge, HashTranscript};
use crate::types::TxID;

verus! {

/// The root of the empty leaf sequence: a challenge of the bare domain.
pub open spec fn merkle_empty(domain: Seq<u8>) -> Seq<u8> {
    merlin_challenge(domain, Seq::empty(), LABEL_MERKLE_EMPTY@)
}

/// The hash of one leaf under the domain.
pub open spec fn merkle_leaf(domain: Seq<u8>, leaf: Seq<u8>) -> Seq<u8> {
    merlin_challenge(domain, seq![(LABEL_MERKLE_LEAF@, leaf)], LABEL_MERKLE_HASH@)
}

/// The hash of a node over its left and right inputs under the domain.
pub open spec fn merkle_node(domain: Seq<u8>, left: Seq<u8>, right: Seq<u8>) -> Seq<u8> {
    merlin_challenge(
        domain,
        seq![(LABEL_MERKLE_LEFT@, left), (LABEL_MERKLE_RIGHT@, right)],
        LABEL_MERKLE_HASH@,
    )
}

/// The root over an ordered sequence of leaves: the empty root extended by
/// one node per leaf, in leaf order.
pub open spec fn merkle_root_of(domain: Seq<u8>, leaves: Seq<Seq<u8>>) -> Seq<u8>
    decreases leaves.len(),
{
    if leaves.len() == 0 {
        merkle_empty(domain)
    } else {
        merkle_node(
            domain,
            merkle_root_of(domain, leaves.drop_last()),
            merkle_leaf(domain, leaves.last()),
        )
    }
}

/// The sequence of leaf values of a sequence of transaction identifiers.
pub open spec fn id_leaves(ids: Seq<TxID>) -> Seq<Seq<u8>> {
    ids.map(|i: int, id: TxID| id@)
}

/// Computes the Merkle root over the transaction identifiers, in order,
/// under the given domain label.
pub fn merkle_root<const N: usize>(domain: &'static [u8; N], ids: &Vec<TxID>) -> (r: [u8; 32])
    ensures
        r@ == merkle_root_of(domain@, id_leaves(ids@)),
        r@.len() == 32,
{
    let empty = HashTranscript::new(domain);
    let mut root: [u8; 32] = empty.challenge_bytes32(&LABEL_MERKLE_EMPTY);
    assert(root@ == merkle_root_of(domain@, id_leaves(ids@).take(0)));
    let n = ids.len();
    let mut k: usize = 0;
    while k < n
        invariant
            n == ids.len(),
            k <= n,
            root@ == merkle_root_of(domain@, id_leaves(ids@).take(k as int)),
        decreases n - k,
    {
        let mut leaf_t = HashTranscript::new(domain);
        leaf_t.append_message(&LABEL_MERKLE_LEAF, ids[k].0.as_slice());
        let leaf = leaf_t.challenge_bytes32(&LABEL_MERKLE_HASH);
        proof {
            assert(leaf_t.absorbed() =~= seq![(LABEL_MERKLE_LEAF@, ids@[k as int]@)]);
        }
        let mut node_t = HashTranscript::new(domain);
        node_t.append_message(&LABEL_MERKLE_LEFT, root.as_slice());
        node_t.append_message(&LABEL_MERKLE_RIGHT, leaf.as_slice());
        proof {
            assert(node_t.absorbed() =~= seq![
                (LABEL_MERKLE_LEFT@, root@),
                (LABEL_MERKLE_RIGHT@, leaf@),
            ]);
        }
        root = node_t.challenge_bytes32(&LABEL_MERKLE_HASH);
        proof {
            assert(id_leaves(ids@).take(k + 1).drop_last() =~= id_leaves(ids@).take(k as int));
            assert(id_leaves(ids@).take(k + 1).last() == ids@[k as int]@);
        }
        k = k + 1;
    }
    proof {
        assert(id_leaves(ids@).take(n as int) =~= id_leaves(ids@));
    }
    root
}

} // verus!
