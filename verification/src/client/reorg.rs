//! Where two branches of the chain part, and which blocks lie on either side.
use vstd::prelude::*;
use crate::ancestry::{ancestor, is_chain};
use crate::types::{BlockHeader, CryptoHash};

verus! {

/// A walk back from the heads of two branches to the block where they meet.
#[derive(Debug)]
pub struct Reorg {
    /// Where the walk along the new branch stands.
    pub remove_head: BlockHeader,
    /// Where the walk along the old branch stands.
    pub reintroduce_head: BlockHeader,
    /// Blocks of the new branch that were passed, newest first. Their transactions are done.
    pub to_remove: Vec<CryptoHash>,
    /// Blocks of the old branch that were passed, newest first. Their transactions are to do again.
    pub to_reintroduce: Vec<CryptoHash>,
}

/// A change to the pool of transactions.
#[derive(Clone, Copy, Debug, PartialEq, Eq)]
pub enum PoolStep {
    /// Put the transactions of this block back into the pool.
    Reintroduce(CryptoHash),
    /// Take the transactions of this block out of the pool.
    Remove(CryptoHash),
}

/// The changes that two branches call for: first the blocks of the old branch are undone, then
/// those of the new branch are done.
pub open spec fn pool_steps(
    to_reintroduce: Seq<CryptoHash>,
    to_remove: Seq<CryptoHash>,
) -> Seq<PoolStep> {
    to_reintroduce.map_values(|hash: CryptoHash| PoolStep::Reintroduce(hash))
        + to_remove.map_values(|hash: CryptoHash| PoolStep::Remove(hash))
}

/// The first `n` blocks on the way back from `start`.
pub open spec fn path(
    chain: Map<CryptoHash, BlockHeader>,
    start: CryptoHash,
    n: nat,
) -> Seq<CryptoHash> {
    Seq::new(n, |i: int| ancestor(chain, start, i as nat))
}

impl Reorg {
    /// The walks have met.
    pub open spec fn is_complete(self) -> bool {
        self.remove_head.hash == self.reintroduce_head.hash
    }

    /// The next step goes back along the new branch, not along the old one.
    pub open spec fn next_is_removed(self) -> bool {
        self.remove_head.height > self.reintroduce_head.height
    }

    /// The block whose header the next step needs.
    pub open spec fn next_block(self) -> CryptoHash {
        if self.next_is_removed() {
            self.remove_head.prev_hash
        } else {
            self.reintroduce_head.prev_hash
        }
    }

    /// The walks have gone back from the two heads along a chain, and none of the blocks passed on
    /// one side has been met on the other.
    pub open spec fn follows(
        self,
        chain: Map<CryptoHash, BlockHeader>,
        new_head: CryptoHash,
        old_head: CryptoHash,
    ) -> bool {
        let a = self.to_remove@.len();
        let b = self.to_reintroduce@.len();
        &&& is_chain(chain)
        &&& forall|i: nat| i <= a ==> chain.contains_key(#[trigger] ancestor(chain, new_head, i))
        &&& forall|j: nat| j <= b ==> chain.contains_key(#[trigger] ancestor(chain, old_head, j))
        &&& self.remove_head == chain[ancestor(chain, new_head, a)]
        &&& self.reintroduce_head == chain[ancestor(chain, old_head, b)]
        &&& self.to_remove@ == path(chain, new_head, a)
        &&& self.to_reintroduce@ == path(chain, old_head, b)
        &&& forall|i: nat|
            i < a ==> chain[#[trigger] ancestor(chain, new_head, i)].height
                > self.reintroduce_head.height
        &&& forall|j: nat|
            j < b ==> {
                let passed = #[trigger] ancestor(chain, old_head, j);
                &&& chain[passed].height >= self.remove_head.height
                &&& passed != self.remove_head.hash
            }
        &&& forall|i: nat, j: nat|
            i < a && j < b ==> #[trigger] ancestor(chain, new_head, i) != #[trigger] ancestor(
                chain,
                old_head,
                j,
            )
    }

    /// Starts at the heads of the two branches.
    pub fn new(new_head: BlockHeader, old_head: BlockHeader) -> (r: Reorg)
        requires
            new_head.hash != old_head.hash,
        ensures
            r.remove_head == new_head,
            r.reintroduce_head == old_head,
            r.to_remove@ == Seq::<CryptoHash>::empty(),
            r.to_reintroduce@ == Seq::<CryptoHash>::empty(),
            forall|chain: Map<CryptoHash, BlockHeader>|
                is_chain(chain) && #[trigger] chain.contains_key(new_head.hash)
                    && chain[new_head.hash] == new_head && chain.contains_key(old_head.hash)
                    && chain[old_head.hash] == old_head ==> r.follows(
                    chain,
                    new_head.hash,
                    old_head.hash,
                ),
    {
        let r = Reorg {
            remove_head: new_head,
            reintroduce_head: old_head,
            to_remove: Vec::new(),
            to_reintroduce: Vec::new(),
        };
        proof {
            assert forall|chain: Map<CryptoHash, BlockHeader>|
                is_chain(chain) && #[trigger] chain.contains_key(new_head.hash)
                    && chain[new_head.hash] == new_head && chain.contains_key(old_head.hash)
                    && chain[old_head.hash] == old_head implies r.follows(
                chain,
                new_head.hash,
                old_head.hash,
            ) by {
                assert(ancestor(chain, new_head.hash, 0) == new_head.hash);
                assert(ancestor(chain, old_head.hash, 0) == old_head.hash);
                assert(r.to_remove@ =~= path(chain, new_head.hash, 0));
                assert(r.to_reintroduce@ =~= path(chain, old_head.hash, 0));
            }
        }
        r
    }

    /// The block whose header is needed next, as long as the walks have not met.
    pub fn wanted(&self) -> (r: Option<CryptoHash>)
        ensures
            r == (if self.is_complete() {
                None
            } else {
                Some(self.next_block())
            }),
    {
        if self.remove_head.hash == self.reintroduce_head.hash {
            None
        } else if self.remove_head.height > self.reintroduce_head.height {
            Some(self.remove_head.prev_hash)
        } else {
            Some(self.reintroduce_head.prev_hash)
        }
    }

    /// Takes one step back: along the new branch where that stands higher, and along the old
    /// branch otherwise. `header` is that of the block that was wanted.
    pub fn push_header(&mut self, header: BlockHeader)
        requires
            !old(self).is_complete(),
        ensures
            old(self).next_is_removed() ==> {
                &&& final(self).remove_head == header
                &&& final(self).to_remove@ == old(self).to_remove@.push(old(self).remove_head.hash)
                &&& final(self).reintroduce_head == old(self).reintroduce_head
                &&& final(self).to_reintroduce == old(self).to_reintroduce
            },
            !old(self).next_is_removed() ==> {
                &&& final(self).remove_head == old(self).remove_head
                &&& final(self).to_remove == old(self).to_remove
                &&& final(self).reintroduce_head == header
                &&& final(self).to_reintroduce@ == old(self).to_reintroduce@.push(
                    old(self).reintroduce_head.hash,
                )
            },
            forall|chain: Map<CryptoHash, BlockHeader>, new_head: CryptoHash, old_head: CryptoHash|
                old(self).follows(chain, new_head, old_head) && chain.contains_key(
                    old(self).next_block(),
                ) && chain[old(self).next_block()] == header ==> #[trigger] final(self).follows(
                    chain,
                    new_head,
                    old_head,
                ),
    {
        let ghost before = *self;
        if self.remove_head.height > self.reintroduce_head.height {
            self.to_remove.push(self.remove_head.hash);
            self.remove_head = header;
        } else {
            self.to_reintroduce.push(self.reintroduce_head.hash);
            self.reintroduce_head = header;
        }
        proof {
            assert forall|
                chain: Map<CryptoHash, BlockHeader>,
                new_head: CryptoHash,
                old_head: CryptoHash,
            |
                before.follows(chain, new_head, old_head) && chain.contains_key(before.next_block())
                    && chain[before.next_block()] == header implies #[trigger] self.follows(
                chain,
                new_head,
                old_head,
            ) by {
                lemma_step_follows(before, *self, chain, new_head, old_head);
            }
        }
    }

    /// What to do about the pool, in order, once the walks have met.
    pub fn pool_changes(&self) -> (r: Vec<PoolStep>)
        requires
            self.is_complete(),
        ensures
            r@ == pool_steps(self.to_reintroduce@, self.to_remove@),
    {
        let mut r: Vec<PoolStep> = Vec::new();
        let mut i: usize = 0;
        while i < self.to_reintroduce.len()
            invariant
                i <= self.to_reintroduce@.len(),
                r@ == pool_steps(self.to_reintroduce@.take(i as int), Seq::empty()),
            decreases self.to_reintroduce@.len() - i,
        {
            r.push(PoolStep::Reintroduce(self.to_reintroduce[i]));
            i += 1;
            assert(r@ =~= pool_steps(self.to_reintroduce@.take(i as int), Seq::empty()));
        }
        assert(self.to_reintroduce@.take(i as int) =~= self.to_reintroduce@);
        let mut j: usize = 0;
        assert(self.to_remove@.take(0) =~= Seq::empty());
        while j < self.to_remove.len()
            invariant
                j <= self.to_remove@.len(),
                r@ == pool_steps(self.to_reintroduce@, self.to_remove@.take(j as int)),
            decreases self.to_remove@.len() - j,
        {
            r.push(PoolStep::Remove(self.to_remove[j]));
            j += 1;
            assert(r@ =~= pool_steps(self.to_reintroduce@, self.to_remove@.take(j as int)));
        }
        assert(self.to_remove@.take(j as int) =~= self.to_remove@);
        r
    }
}

proof fn lemma_step_follows(
    before: Reorg,
    after: Reorg,
    chain: Map<CryptoHash, BlockHeader>,
    new_head: CryptoHash,
    old_head: CryptoHash,
)
    requires
        before.follows(chain, new_head, old_head),
        !before.is_complete(),
        chain.contains_key(before.next_block()),
        before.next_is_removed() ==> {
            &&& after.remove_head == chain[before.next_block()]
            &&& after.to_remove@ == before.to_remove@.push(before.remove_head.hash)
            &&& after.reintroduce_head == before.reintroduce_head
            &&& after.to_reintroduce == before.to_reintroduce
        },
        !before.next_is_removed() ==> {
            &&& after.remove_head == before.remove_head
            &&& after.to_remove == before.to_remove
            &&& after.reintroduce_head == chain[before.next_block()]
            &&& after.to_reintroduce@ == before.to_reintroduce@.push(before.reintroduce_head.hash)
        },
    ensures
        after.follows(chain, new_head, old_head),
{
    let a = before.to_remove@.len();
    let b = before.to_reintroduce@.len();
    let at_new = ancestor(chain, new_head, a);
    let at_old = ancestor(chain, old_head, b);
    assert(chain.contains_key(at_new));
    assert(chain.contains_key(at_old));
    assert(chain[at_new].hash == at_new);
    assert(chain[at_old].hash == at_old);
    if before.next_is_removed() {
        assert(ancestor(chain, new_head, a + 1) == chain[at_new].prev_hash);
        assert(after.to_remove@ =~= path(chain, new_head, a + 1));
        assert(after.remove_head.height < before.remove_head.height);
        assert forall|j: nat| j < b implies ({
            let passed = #[trigger] ancestor(chain, old_head, j);
            &&& chain[passed].height >= after.remove_head.height
            &&& passed != after.remove_head.hash
        }) by {
            assert(chain.contains_key(ancestor(chain, old_head, j)));
        }
    } else {
        assert(ancestor(chain, old_head, b + 1) == chain[at_old].prev_hash);
        assert(after.to_reintroduce@ =~= path(chain, old_head, b + 1));
        assert(after.reintroduce_head.height < before.reintroduce_head.height);
    }
}

/// When the walks have met, they have met at a block of both branches. The blocks listed are
/// those of either branch above it, and no block is listed on both sides.
pub proof fn law_reorg_lists_both_branches(
    reorg: Reorg,
    chain: Map<CryptoHash, BlockHeader>,
    new_head: CryptoHash,
    old_head: CryptoHash,
)
    requires
        reorg.is_complete(),
        reorg.follows(chain, new_head, old_head),
    ensures
        ({
            let a = reorg.to_remove@.len();
            let b = reorg.to_reintroduce@.len();
            let meeting = ancestor(chain, new_head, a);
            &&& meeting == ancestor(chain, old_head, b)
            &&& reorg.to_remove@ == path(chain, new_head, a)
            &&& reorg.to_reintroduce@ == path(chain, old_head, b)
            &&& forall|i: int|
                0 <= i < a ==> chain[#[trigger] reorg.to_remove@[i]].height > chain[meeting].height
            &&& forall|j: int|
                0 <= j < b ==> chain[#[trigger] reorg.to_reintroduce@[j]].height
                    > chain[meeting].height
            &&& forall|hash: CryptoHash|
                !(#[trigger] reorg.to_remove@.contains(hash) && reorg.to_reintroduce@.contains(
                    hash,
                ))
        }),
{
    let a = reorg.to_remove@.len();
    let b = reorg.to_reintroduce@.len();
    let at_new = ancestor(chain, new_head, a);
    let at_old = ancestor(chain, old_head, b);
    assert(chain.contains_key(at_new));
    assert(chain.contains_key(at_old));
    assert(chain[at_new].hash == at_new);
    assert(chain[at_old].hash == at_old);
    assert forall|i: int| 0 <= i < a implies chain[#[trigger] reorg.to_remove@[i]].height
        > chain[at_new].height by {
        assert(reorg.to_remove@[i] == ancestor(chain, new_head, i as nat));
    }
    assert forall|j: int| 0 <= j < b implies chain[#[trigger] reorg.to_reintroduce@[j]].height
        > chain[at_new].height by {
        assert(reorg.to_reintroduce@[j] == ancestor(chain, old_head, j as nat));
        lemma_heights_fall(chain, old_head, j as nat, b);
    }
    assert forall|hash: CryptoHash|
        !(#[trigger] reorg.to_remove@.contains(hash) && reorg.to_reintroduce@.contains(hash)) by {
        if reorg.to_remove@.contains(hash) && reorg.to_reintroduce@.contains(hash) {
            let i = choose|i: int| 0 <= i < a && reorg.to_remove@[i] == hash;
            let j = choose|j: int| 0 <= j < b && reorg.to_reintroduce@[j] == hash;
            assert(ancestor(chain, new_head, i as nat) != ancestor(chain, old_head, j as nat));
        }
    }
}

proof fn lemma_heights_fall(
    chain: Map<CryptoHash, BlockHeader>,
    start: CryptoHash,
    i: nat,
    n: nat,
)
    requires
        is_chain(chain),
        i < n,
        forall|k: nat| k <= n ==> chain.contains_key(#[trigger] ancestor(chain, start, k)),
    ensures
        chain[ancestor(chain, start, i)].height > chain[ancestor(chain, start, n)].height,
    decreases n,
{
    let m = (n - 1) as nat;
    assert(chain.contains_key(ancestor(chain, start, m)));
    assert(chain.contains_key(ancestor(chain, start, n)));
    assert(ancestor(chain, start, n) == chain[ancestor(chain, start, m)].prev_hash);
    if i < m {
        lemma_heights_fall(chain, start, i, m);
    }
}

/// Every block of the old branch comes back into the pool before any block of the new branch is
/// taken out, and each is dealt with in the order in which it is listed.
pub proof fn law_reintroduced_before_removed(
    to_reintroduce: Seq<CryptoHash>,
    to_remove: Seq<CryptoHash>,
)
    ensures
        ({
            let steps = pool_steps(to_reintroduce, to_remove);
            let a = to_reintroduce.len() as int;
            &&& steps.len() == a + to_remove.len()
            &&& forall|i: int|
                0 <= i < a ==> #[trigger] steps[i] == PoolStep::Reintroduce(to_reintroduce[i])
            &&& forall|j: int|
                a <= j < steps.len() ==> #[trigger] steps[j] == PoolStep::Remove(to_remove[j - a])
            &&& forall|i: int, j: int|
                0 <= i < steps.len() && 0 <= j < steps.len() && #[trigger] steps[i] is Reintroduce
                    && #[trigger] steps[j] is Remove ==> i < j
        }),
{
}

/// Of two walks that have not met, the one that stands higher goes on, to the parent of the block
/// that it stands at. Where both stand at the same height, the one along the old branch does. They
/// have met when they stand at the same block.
pub proof fn law_higher_walk_goes_on(reorg: Reorg)
    ensures
        reorg.is_complete() <==> reorg.remove_head.hash == reorg.reintroduce_head.hash,
        reorg.remove_head.height > reorg.reintroduce_head.height ==> reorg.next_is_removed()
            && reorg.next_block() == reorg.remove_head.prev_hash,
        reorg.remove_head.height <= reorg.reintroduce_head.height ==> !reorg.next_is_removed()
            && reorg.next_block() == reorg.reintroduce_head.prev_hash,
{
}

} // verus!
