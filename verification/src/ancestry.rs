//! The way back from a block through its parents.
use vstd::prelude::*;
use crate::types::{Block, BlockHeader, CryptoHash};

verus! {

/// The hash reached from `start` after `n` steps from a block to its parent, among the headers
/// that a chain holds.
pub open spec fn ancestor(
    chain: Map<CryptoHash, BlockHeader>,
    start: CryptoHash,
    n: nat,
) -> CryptoHash
    decreases n,
{
    if n == 0 {
        start
    } else {
        chain[ancestor(chain, start, (n - 1) as nat)].prev_hash
    }
}

/// The headers of the blocks that a chain holds.
pub open spec fn headers_of(chain: Map<CryptoHash, Block>) -> Map<CryptoHash, BlockHeader> {
    chain.map_values(|block: Block| block.header)
}

/// A chain finds each header under its own hash, and the heights grow from a block to the next.
pub open spec fn is_chain(chain: Map<CryptoHash, BlockHeader>) -> bool {
    &&& forall|hash: CryptoHash|
        #[trigger] chain.contains_key(hash) ==> chain[hash].hash == hash
    &&& forall|hash: CryptoHash| #[trigger]
        chain.contains_key(hash) && chain.contains_key(chain[hash].prev_hash)
            ==> chain[chain[hash].prev_hash].height < chain[hash].height
}

/// Steps can be taken one after the other.
pub proof fn lemma_ancestor_from_parent(
    chain: Map<CryptoHash, BlockHeader>,
    start: CryptoHash,
    n: nat,
)
    ensures
        ancestor(chain, start, n + 1) == ancestor(chain, chain[start].prev_hash, n),
    decreases n,
{
    if n > 0 {
        lemma_ancestor_from_parent(chain, start, (n - 1) as nat);
        assert((n - 1) as nat + 1 == n);
    } else {
        assert(ancestor(chain, start, 0) == start);
        assert(ancestor(chain, start, 1) == chain[ancestor(chain, start, 0)].prev_hash);
    }
}

} // verus!
