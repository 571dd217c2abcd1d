//! The witness that a chunk's producer sends along with the chunk.
use vstd::prelude::*;
use crate::crypto::{transactions_view, SignedTransaction};
use crate::hash_index::HashIndex;
use crate::stateless_validation::receipts::ReceiptProof;
use crate::types::{CryptoHash, ShardChunkHeader, Signature};

verus! {

/// The part of a state that a transition reads: encoded nodes of the state's tree.
pub type PartialState = Vec<Vec<u8>>;

/// The bytes of each node of a partial state.
pub open spec fn nodes_view(nodes: Seq<Vec<u8>>) -> Seq<Seq<u8>> {
    nodes.map_values(|n: Vec<u8>| n@)
}

/// Copies a partial state.
pub fn clone_nodes(nodes: &PartialState) -> (r: PartialState)
    ensures
        nodes_view(r@) == nodes_view(nodes@),
        r@.len() == nodes@.len(),
        forall|i: int| 0 <= i < nodes@.len() ==> (#[trigger] r@[i])@ == nodes@[i]@,
{
    let mut r: PartialState = Vec::new();
    let mut i: usize = 0;
    while i < nodes.len()
        invariant
            i <= nodes@.len(),
            r@.len() == i,
            forall|j: int| 0 <= j < i ==> (#[trigger] r@[j])@ == nodes@[j]@,
        decreases nodes@.len() - i,
    {
        let node = nodes[i].clone();
        assert(node@ =~= nodes@[i as int]@);
        r.push(node);
        i += 1;
    }
    assert(nodes_view(r@) =~= nodes_view(nodes@));
    r
}

/// Copies a list of transactions.
pub fn clone_transactions(transactions: &Vec<SignedTransaction>) -> (r: Vec<SignedTransaction>)
    ensures
        transactions_view(r@) == transactions_view(transactions@),
        r@.len() == transactions@.len(),
        forall|i: int|
            0 <= i < transactions@.len() ==> (#[trigger] r@[i]).encoded@
                == transactions@[i].encoded@,
{
    let mut r: Vec<SignedTransaction> = Vec::new();
    let mut i: usize = 0;
    while i < transactions.len()
        invariant
            i <= transactions@.len(),
            r@.len() == i,
            forall|j: int| 0 <= j < i ==> (#[trigger] r@[j])@ == transactions@[j]@,
        decreases transactions@.len() - i,
    {
        r.push(transactions[i].clone());
        i += 1;
    }
    assert(transactions_view(r@) =~= transactions_view(transactions@));
    r
}

/// A step from one state to the next: the nodes that it reads, and the root that it leads to.
#[derive(Debug)]
pub struct ChunkStateTransition {
    pub base_state: PartialState,
    pub post_state_root: CryptoHash,
}

/// What a witness holds, apart from its signature.
#[derive(Debug)]
pub struct ChunkStateWitnessInner {
    /// The header of the chunk that the witness is for.
    pub chunk_header: ShardChunkHeader,
    /// The transition that applies the last new chunk of the shard.
    pub main_state_transition: ChunkStateTransition,
    /// For each chunk that sent receipts to the last new chunk, those receipts.
    pub source_receipt_proofs: HashIndex<ReceiptProof>,
    /// The hash of all receipts that the last new chunk applies.
    pub applied_receipts_hash: CryptoHash,
    /// The transactions of the last new chunk.
    pub transactions: Vec<SignedTransaction>,
    /// The transitions of the blocks after the last new chunk, oldest first.
    pub implicit_transitions: Vec<ChunkStateTransition>,
    /// The transactions of the chunk that the witness is for.
    pub new_transactions: Vec<SignedTransaction>,
    /// The nodes that checking these transactions reads.
    pub new_transactions_validation_state: PartialState,
}

/// A witness and its producer's signature.
#[derive(Debug)]
pub struct ChunkStateWitness {
    pub inner: ChunkStateWitnessInner,
    pub signature: Signature,
}

/// A partial state is seen as the bytes of each of its nodes, in order.
pub proof fn law_nodes_are_seen_as_their_bytes(nodes: Seq<Vec<u8>>, i: int)
    requires
        0 <= i < nodes.len(),
    ensures
        nodes_view(nodes).len() == nodes.len(),
        nodes_view(nodes)[i] == nodes[i]@,
{
}

} // verus!
