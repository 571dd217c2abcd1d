//! What the client does about a block that the chain has accepted.
use vstd::prelude::*;
use crate::client::actor::ClientActor;
use crate::client::chunk_production::ChunkTurn;
use crate::client::duties::{AnnounceWish, Scheduling};
use crate::client::errors::ChainError;
use crate::types::{
    AccountId, Block, BlockHeight, CryptoHash, Nanos, ShardChunkHeader, ShardId,
};

verus! {

/// Where an accepted block stands in the chain.
#[derive(Clone, Copy, Debug, PartialEq, Eq)]
pub enum BlockStatus {
    /// It follows the head and is the new head.
    Next,
    /// It is on a branch, and the head stays as it is.
    Fork,
    /// It is the new head on another branch than the head before, which is given.
    Reorg(CryptoHash),
}

/// Where a block comes from.
#[derive(Clone, Copy, Debug, PartialEq, Eq, Structural)]
pub enum Provenance {
    /// A peer sent it on its own account.
    NONE,
    /// The client asked for it in order to catch up.
    SYNC,
    /// The client produced it.
    PRODUCED,
}

/// Something to do about an accepted block.
#[derive(Clone, Copy, Debug, PartialEq, Eq)]
pub enum AcceptedStep {
    /// Count the block and this many transactions.
    CountTransactions(u64),
    /// Take up the chunk parts that waited for this block. Where some were not known before,
    /// see whether blocks from the given height on can go ahead.
    ProcessOrphanedParts { block_hash: CryptoHash, height: BlockHeight },
    /// Send the block to the peers.
    BroadcastBlock,
    /// Send the header to the peers, with the client's approval if it has one to give.
    AnnounceHeader,
    /// Look at whose turn comes next.
    Schedule(Scheduling),
    /// Take the block's transactions out of the pool.
    RemoveTransactions,
    /// Put the transactions of the branch that ends at this block back into the pool, and take
    /// those of the new branch out.
    Reconcile { prev_head: CryptoHash },
    /// Produce the chunks that are the client's to produce at this height, in the epoch that
    /// follows this block.
    ProduceChunks { block_hash: CryptoHash, height: BlockHeight },
    /// See whether to announce the client's account.
    CheckAnnounce(AnnounceWish),
}

impl AcceptedStep {
    /// The step sends the block or its header to the peers.
    pub open spec fn sends(self) -> bool {
        self is BroadcastBlock || self is AnnounceHeader
    }

    /// The step changes the pool of transactions.
    pub open spec fn changes_pool(self) -> bool {
        self is RemoveTransactions || self is Reconcile
    }
}

/// What every accepted block calls for.
pub open spec fn bookkeeping_steps(block: Block) -> Seq<AcceptedStep> {
    seq![
        AcceptedStep::CountTransactions(block.num_transactions),
        AcceptedStep::ProcessOrphanedParts {
            block_hash: block.header.hash,
            height: (block.header.height + 1) as u64,
        },
    ]
}

/// What spreads the news of a block: nothing, where the client is only catching up.
pub open spec fn network_steps(block: Block, provenance: Provenance) -> Seq<AcceptedStep> {
    if provenance is SYNC {
        Seq::empty()
    } else {
        seq![
            if provenance is PRODUCED {
                AcceptedStep::BroadcastBlock
            } else {
                AcceptedStep::AnnounceHeader
            },
            AcceptedStep::Schedule(
                Scheduling {
                    block_hash: block.header.hash,
                    last_height: block.header.height,
                    check_height: block.header.height,
                },
            ),
        ]
    }
}

/// What a producer of blocks does about its pool and its chunks. Nothing is done for a fork.
pub open spec fn producer_steps(
    block: Block,
    status: BlockStatus,
    provenance: Provenance,
) -> Seq<AcceptedStep> {
    let chunks = if provenance is SYNC {
        Seq::empty()
    } else {
        seq![
            AcceptedStep::ProduceChunks {
                block_hash: block.header.hash,
                height: (block.header.height + 1) as u64,
            },
        ]
    };
    match status {
        BlockStatus::Next => seq![AcceptedStep::RemoveTransactions] + chunks,
        BlockStatus::Fork => Seq::empty(),
        BlockStatus::Reorg(prev_head) => seq![AcceptedStep::Reconcile { prev_head }] + chunks,
    }
}

/// All that is done about an accepted block, in order. A producer that meets a fork leaves it at
/// the first two parts.
pub open spec fn accepted_steps(
    is_producer: bool,
    block: Block,
    status: BlockStatus,
    provenance: Provenance,
) -> Seq<AcceptedStep> {
    let first = bookkeeping_steps(block) + network_steps(block, provenance);
    let announce = seq![
        AcceptedStep::CheckAnnounce(
            AnnounceWish { epoch_hash: block.header.epoch_hash, prev_hash: block.header.prev_hash },
        ),
    ];
    if !is_producer {
        first + announce
    } else if status is Fork {
        first
    } else {
        first + producer_steps(block, status, provenance) + announce
    }
}

/// The shards of a block that have a new chunk and matter to the client, `cares` saying of each
/// shard whether it does.
pub open spec fn own_new_chunks(block: Block, cares: Seq<bool>, n: nat) -> Seq<ShardId>
    decreases n,
{
    if n == 0 {
        Seq::empty()
    } else {
        let before = own_new_chunks(block, cares, (n - 1) as nat);
        if block.has_new_chunk((n - 1) as ShardId) && cares[n - 1] {
            before.push((n - 1) as ShardId)
        } else {
            before
        }
    }
}

fn select_new_chunks(block: &Block, cares: &Vec<bool>) -> (r: Vec<ShardId>)
    requires
        cares@.len() == block.chunks@.len(),
    ensures
        r@ == own_new_chunks(*block, cares@, block.chunks@.len()),
{
    let mut shards: Vec<ShardId> = Vec::new();
    let mut i: usize = 0;
    while i < block.chunks.len()
        invariant
            i <= block.chunks@.len(),
            cares@.len() == block.chunks@.len(),
            shards@ == own_new_chunks(*block, cares@, i as nat),
        decreases block.chunks@.len() - i,
    {
        let shard_id: ShardId = i as u64;
        if block.chunks[i].is_new_chunk(block.header.height) && cares[i] {
            shards.push(shard_id);
        }
        i += 1;
    }
    shards
}

/// Does this shard matter to the client, in this epoch or the next, on top of this block?
#[derive(Clone, Copy, Debug, PartialEq, Eq)]
pub struct CareQuestion {
    pub parent_hash: CryptoHash,
    pub shard_id: ShardId,
}

/// Who produces the chunk of this shard at this height of this epoch?
#[derive(Clone, Copy, Debug, PartialEq, Eq)]
pub struct ChunkQuestion {
    pub epoch_hash: CryptoHash,
    pub height: BlockHeight,
    pub shard_id: ShardId,
}

/// The chunks that an account is to produce on a block, `proposers` giving the producer for each
/// of the first `n` shards.
pub open spec fn own_chunk_turns(
    block: Block,
    epoch_hash: CryptoHash,
    me: Seq<char>,
    proposers: Seq<AccountId>,
    n: nat,
) -> Seq<ChunkTurn>
    decreases n,
{
    if n == 0 {
        Seq::empty()
    } else {
        let before = own_chunk_turns(block, epoch_hash, me, proposers, (n - 1) as nat);
        let last = block.chunks@[n - 1];
        if proposers[n - 1]@ == me {
            before.push(
                ChunkTurn {
                    prev_block_hash: block.header.hash,
                    epoch_hash,
                    next_height: (block.header.height + 1) as u64,
                    shard_id: (n - 1) as ShardId,
                    last_created: last.inner.height_created,
                    last_included: last.inner.height_included,
                },
            )
        } else {
            before
        }
    }
}

/// Something to do about blocks that the chain has processed.
#[derive(Debug)]
pub enum BlockFollowUp {
    /// The block was accepted; see what that calls for.
    Accepted { block_hash: CryptoHash, status: BlockStatus, provenance: Provenance },
    /// Ask for these chunks.
    RequestChunks(Vec<ShardChunkHeader>),
}

/// What to do about processed blocks: first about those that were accepted, then about chunks
/// that are missing, each in the order in which the chain reported it.
pub open spec fn follow_ups(
    accepted: Seq<(CryptoHash, BlockStatus, Provenance)>,
    missing: Seq<Vec<ShardChunkHeader>>,
) -> Seq<BlockFollowUp> {
    accepted.map_values(
        |block: (CryptoHash, BlockStatus, Provenance)|
            BlockFollowUp::Accepted { block_hash: block.0, status: block.1, provenance: block.2 },
    ) + missing.map_values(
        |chunks: Vec<ShardChunkHeader>| BlockFollowUp::RequestChunks(chunks),
    )
}

/// Lists what to do about processed blocks, given which were accepted and which chunks of others
/// are missing.
pub fn block_follow_ups(
    accepted: Vec<(CryptoHash, BlockStatus, Provenance)>,
    missing: Vec<Vec<ShardChunkHeader>>,
) -> (r: Vec<BlockFollowUp>)
    ensures
        r@ == follow_ups(accepted@, missing@),
{
    let mut r: Vec<BlockFollowUp> = Vec::new();
    let mut i: usize = 0;
    while i < accepted.len()
        invariant
            i <= accepted@.len(),
            r@ == follow_ups(accepted@.take(i as int), Seq::empty()),
        decreases accepted@.len() - i,
    {
        let (block_hash, status, provenance) = accepted[i];
        r.push(BlockFollowUp::Accepted { block_hash, status, provenance });
        i += 1;
        assert(r@ =~= follow_ups(accepted@.take(i as int), Seq::empty()));
    }
    assert(accepted@.take(i as int) =~= accepted@);
    let ghost all_missing = missing@;
    for chunks in it: missing.into_iter()
        invariant
            it.seq() == all_missing,
            r@ == follow_ups(accepted@, all_missing.take(it.index() as int)),
    {
        r.push(BlockFollowUp::RequestChunks(chunks));
        assert(r@ =~= follow_ups(accepted@, all_missing.take(it.index() + 1)));
    }
    assert(all_missing.take(all_missing.len() as int) =~= all_missing);
    r
}

/// What a block comes to that was handed to the chain, given which blocks were accepted because of
/// it, which chunks are missing, and what the chain made of the block itself. The chain's own
/// result is handed on as it is, and what follows is to be done whichever it is.
pub fn process_block(
    accepted: Vec<(CryptoHash, BlockStatus, Provenance)>,
    missing: Vec<Vec<ShardChunkHeader>>,
    result: Result<(), ChainError>,
) -> (r: (Vec<BlockFollowUp>, Result<(), ChainError>))
    ensures
        r.0@ == follow_ups(accepted@, missing@),
        r.1 == result,
{
    (block_follow_ups(accepted, missing), result)
}

/// The heights of a list from a given one on.
pub open spec fn heights_from(heights: Seq<BlockHeight>, height: BlockHeight) -> Seq<BlockHeight> {
    heights.filter(|h: BlockHeight| h >= height)
}

/// The heights to look at once a chunk that was created for `height` has arrived: that height and
/// all later ones at which blocks wait for chunks, since a chunk may stand in a later block.
pub fn process_blocks_with_missing_chunks(
    heights_with_missing_chunks: &Vec<BlockHeight>,
    height: BlockHeight,
) -> (r: Vec<BlockHeight>)
    ensures
        r@ == heights_from(heights_with_missing_chunks@, height),
{
    let ghost from_height = |h: BlockHeight| h >= height;
    let mut r: Vec<BlockHeight> = Vec::new();
    let mut i: usize = 0;
    assert(heights_with_missing_chunks@.take(0).filter(from_height) =~= Seq::empty()) by {
        reveal(Seq::filter);
    }
    while i < heights_with_missing_chunks.len()
        invariant
            i <= heights_with_missing_chunks@.len(),
            from_height == (|h: BlockHeight| h >= height),
            r@ == heights_with_missing_chunks@.take(i as int).filter(from_height),
        decreases heights_with_missing_chunks@.len() - i,
    {
        proof {
            reveal(Seq::filter);
            let next = heights_with_missing_chunks@.take(i + 1);
            assert(next.drop_last() =~= heights_with_missing_chunks@.take(i as int));
            assert(next.last() == heights_with_missing_chunks@[i as int]);
        }
        let h: BlockHeight = heights_with_missing_chunks[i];
        if h >= height {
            r.push(h);
        }
        i += 1;
    }
    assert(heights_with_missing_chunks@.take(i as int) =~= heights_with_missing_chunks@);
    r
}

/// The questions about which shards of a block matter to the client.
pub open spec fn care_questions_of(block: Block) -> Seq<CareQuestion> {
    Seq::new(
        block.chunks@.len(),
        |i: int| CareQuestion { parent_hash: block.header.prev_hash, shard_id: i as ShardId },
    )
}

/// The questions about who produces the chunks at a height of an epoch.
pub open spec fn chunk_questions_of(
    epoch_hash: CryptoHash,
    height: BlockHeight,
    num_shards: ShardId,
) -> Seq<ChunkQuestion> {
    Seq::new(
        num_shards as nat,
        |i: int| ChunkQuestion { epoch_hash, height, shard_id: i as ShardId },
    )
}

impl ClientActor {
    /// Takes note of an accepted block, and lists what to do about it, in order: spread the news,
    /// keep the pool of transactions in step, produce chunks, see about the next block and the
    /// next announcement. There is nothing to do where the chain does not hand the block out.
    pub fn on_block_accepted(
        &mut self,
        block: Option<&Block>,
        status: BlockStatus,
        provenance: Provenance,
        now: Nanos,
    ) -> (r: Vec<AcceptedStep>)
        requires
            block matches Some(block) ==> block.header.height < u64::MAX,
        ensures
            match block {
                Some(block) => {
                    &&& *final(self) == (ClientActor { last_block_processed: now, ..*old(self) })
                    &&& r@ == accepted_steps(
                        old(self).block_producer is Some,
                        *block,
                        status,
                        provenance,
                    )
                },
                None => *final(self) == *old(self) && r@.len() == 0,
            },
    {
        let mut steps: Vec<AcceptedStep> = Vec::new();
        let block = match block {
            Some(block) => block,
            None => {
                return steps;
            },
        };
        self.last_block_processed = now;
        steps.push(AcceptedStep::CountTransactions(block.num_transactions));
        steps.push(
            AcceptedStep::ProcessOrphanedParts {
                block_hash: block.header.hash,
                height: block.header.height + 1,
            },
        );
        assert(steps@ =~= bookkeeping_steps(*block));
        if provenance != Provenance::SYNC {
            if provenance == Provenance::PRODUCED {
                steps.push(AcceptedStep::BroadcastBlock);
            } else {
                steps.push(AcceptedStep::AnnounceHeader);
            }
            steps.push(
                AcceptedStep::Schedule(
                    Scheduling {
                        block_hash: block.header.hash,
                        last_height: block.header.height,
                        check_height: block.header.height,
                    },
                ),
            );
        }
        let ghost first = bookkeeping_steps(*block) + network_steps(*block, provenance);
        assert(steps@ =~= first);
        if self.block_producer.is_some() {
            match status {
                BlockStatus::Next => {
                    steps.push(AcceptedStep::RemoveTransactions);
                },
                BlockStatus::Fork => {
                    return steps;
                },
                BlockStatus::Reorg(prev_head) => {
                    steps.push(AcceptedStep::Reconcile { prev_head });
                },
            }
            if provenance != Provenance::SYNC {
                steps.push(
                    AcceptedStep::ProduceChunks {
                        block_hash: block.header.hash,
                        height: block.header.height + 1,
                    },
                );
            }
            assert(steps@ =~= first + producer_steps(*block, status, provenance));
        }
        steps.push(
            AcceptedStep::CheckAnnounce(
                AnnounceWish {
                    epoch_hash: block.header.epoch_hash,
                    prev_hash: block.header.prev_hash,
                },
            ),
        );
        assert(steps@ =~= accepted_steps(
            self.block_producer is Some,
            *block,
            status,
            provenance,
        ));
        steps
    }

    /// What to ask in order to know which shards of a block matter to the client.
    pub fn care_questions(block: &Block) -> (r: Vec<CareQuestion>)
        ensures
            r@ == care_questions_of(*block),
    {
        let mut questions: Vec<CareQuestion> = Vec::new();
        let mut i: usize = 0;
        while i < block.chunks.len()
            invariant
                i <= block.chunks@.len(),
                questions@ == Seq::new(
                    i as nat,
                    |j: int|
                        CareQuestion {
                            parent_hash: block.header.prev_hash,
                            shard_id: j as ShardId,
                        },
                ),
            decreases block.chunks@.len() - i,
        {
            questions.push(
                CareQuestion { parent_hash: block.header.prev_hash, shard_id: i as u64 },
            );
            i += 1;
            assert(questions@ =~= Seq::new(
                i as nat,
                |j: int|
                    CareQuestion { parent_hash: block.header.prev_hash, shard_id: j as ShardId },
            ));
        }
        questions
    }

    /// What to ask in order to know who produces the chunks at a height of an epoch.
    pub fn chunk_questions(
        epoch_hash: CryptoHash,
        height: BlockHeight,
        num_shards: ShardId,
    ) -> (r: Vec<ChunkQuestion>)
        ensures
            r@ == chunk_questions_of(epoch_hash, height, num_shards),
    {
        let mut questions: Vec<ChunkQuestion> = Vec::new();
        let mut shard_id: ShardId = 0;
        while shard_id < num_shards
            invariant
                shard_id <= num_shards,
                questions@ == Seq::new(
                    shard_id as nat,
                    |i: int| ChunkQuestion { epoch_hash, height, shard_id: i as ShardId },
                ),
            decreases num_shards - shard_id,
        {
            questions.push(ChunkQuestion { epoch_hash, height, shard_id });
            shard_id += 1;
            assert(questions@ =~= Seq::new(
                shard_id as nat,
                |i: int| ChunkQuestion { epoch_hash, height, shard_id: i as ShardId },
            ));
        }
        questions
    }

    /// The shards whose transactions leave the pool because of a block: those with a new chunk in
    /// it, as far as they matter to the client.
    pub fn remove_transactions_for_block(block: &Block, cares: &Vec<bool>) -> (r: Vec<ShardId>)
        requires
            cares@.len() == block.chunks@.len(),
        ensures
            r@ == own_new_chunks(*block, cares@, block.chunks@.len()),
    {
        select_new_chunks(block, cares)
    }

    /// The shards whose transactions come back into the pool because a block is on the branch
    /// that was left: those with a new chunk in it, as far as they matter to the client.
    pub fn reintroduce_transactions_for_block(block: &Block, cares: &Vec<bool>) -> (r: Vec<ShardId>)
        requires
            cares@.len() == block.chunks@.len(),
        ensures
            r@ == own_new_chunks(*block, cares@, block.chunks@.len()),
    {
        select_new_chunks(block, cares)
    }

    /// The chunks that the client is to produce on a block, given the epoch that follows it and the
    /// producer for each shard.
    pub fn chunks_to_produce(
        &self,
        block: &Block,
        epoch_hash: CryptoHash,
        proposers: &Vec<AccountId>,
    ) -> (r: Vec<ChunkTurn>)
        requires
            block.header.height < u64::MAX,
            forall|i: int|
                0 <= i < proposers@.len() && self.produces_for((#[trigger] proposers@[i])@)
                    ==> i < block.chunks@.len(),
        ensures
            match self.block_producer {
                Some(me) => r@ == own_chunk_turns(
                    *block,
                    epoch_hash,
                    me@,
                    proposers@,
                    proposers@.len(),
                ),
                None => r@.len() == 0,
            },
            forall|i: int|
                #![trigger proposers@[i]]
                0 <= i < proposers@.len() ==> ((self.block_producer matches Some(me) && me@
                    == proposers@[i]@) <==> exists|j: int|
                    0 <= j < r@.len() && (#[trigger] r@[j]).shard_id == i),
            forall|j: int|
                0 <= j < r@.len() ==> {
                    let turn = #[trigger] r@[j];
                    let last = block.chunks@[turn.shard_id as int];
                    &&& turn.shard_id < proposers@.len()
                    &&& turn.prev_block_hash == block.header.hash
                    &&& turn.epoch_hash == epoch_hash
                    &&& turn.next_height == block.header.height + 1
                    &&& turn.last_created == last.inner.height_created
                    &&& turn.last_included == last.inner.height_included
                },
            forall|j: int, k: int|
                0 <= j < k < r@.len() ==> (#[trigger] r@[j]).shard_id < (
                #[trigger] r@[k]).shard_id,
    {
        let mut turns: Vec<ChunkTurn> = Vec::new();
        let me = match &self.block_producer {
            Some(me) => me,
            None => {
                return turns;
            },
        };
        let mut i: usize = 0;
        while i < proposers.len()
            invariant
                i <= proposers@.len(),
                self.block_producer == Some(*me),
                block.header.height < u64::MAX,
                forall|j: int|
                    0 <= j < proposers@.len() && self.produces_for((#[trigger] proposers@[j])@)
                        ==> j < block.chunks@.len(),
                turns@ == own_chunk_turns(*block, epoch_hash, me@, proposers@, i as nat),
            decreases proposers@.len() - i,
        {
            if proposers[i] == *me {
                assert(self.produces_for(proposers@[i as int]@));
                let last = &block.chunks[i];
                turns.push(
                    ChunkTurn {
                        prev_block_hash: block.header.hash,
                        epoch_hash,
                        next_height: block.header.height + 1,
                        shard_id: i as u64,
                        last_created: last.inner.height_created,
                        last_included: last.inner.height_included,
                    },
                );
            }
            i += 1;
        }
        proof {
            law_turns_are_those_of_the_own_shards(
                *block,
                epoch_hash,
                me@,
                proposers@,
                proposers@.len(),
            );
        }
        turns
    }
}

/// A block that the client fetched in order to catch up is not sent on, no turn is looked at for
/// it, and no chunk is produced on it.
pub proof fn law_synced_block_is_quiet(is_producer: bool, block: Block, status: BlockStatus, i: int)
    requires
        0 <= i < accepted_steps(is_producer, block, status, Provenance::SYNC).len(),
    ensures
        ({
            let step = accepted_steps(is_producer, block, status, Provenance::SYNC)[i];
            !step.sends() && !(step is Schedule) && !(step is ProduceChunks)
        }),
{
}

/// Nothing is done about the pool for a fork, and no chunk is produced on it.
pub proof fn law_fork_leaves_pool_alone(
    is_producer: bool,
    block: Block,
    provenance: Provenance,
    i: int,
)
    requires
        0 <= i < accepted_steps(is_producer, block, BlockStatus::Fork, provenance).len(),
    ensures
        ({
            let step = accepted_steps(is_producer, block, BlockStatus::Fork, provenance)[i];
            !step.changes_pool() && !(step is ProduceChunks)
        }),
{
}

/// The news of a block is spread before the pool is touched, which may be slow.
pub proof fn law_news_before_pool(
    is_producer: bool,
    block: Block,
    status: BlockStatus,
    provenance: Provenance,
    i: int,
    j: int,
)
    requires
        0 <= i < accepted_steps(is_producer, block, status, provenance).len(),
        0 <= j < accepted_steps(is_producer, block, status, provenance).len(),
        accepted_steps(is_producer, block, status, provenance)[i].sends(),
        accepted_steps(is_producer, block, status, provenance)[j].changes_pool(),
    ensures
        i < j,
{
}

/// A shard's transactions leave or come back because of a block exactly if the block holds a new
/// chunk of the shard and the shard matters to the client, and each such shard is listed once, in
/// order.
pub proof fn law_own_new_chunks(block: Block, cares: Seq<bool>, n: nat)
    requires
        n <= block.chunks@.len(),
        block.chunks@.len() == cares.len(),
        n <= u64::MAX,
    ensures
        forall|shard_id: ShardId|
            #[trigger] own_new_chunks(block, cares, n).contains(shard_id) <==> shard_id < n
                && block.chunks@[shard_id as int].inner.height_included == block.header.height
                && cares[shard_id as int],
        forall|i: int, j: int|
            0 <= i < j < own_new_chunks(block, cares, n).len() ==> own_new_chunks(
                block,
                cares,
                n,
            )[i] < own_new_chunks(block, cares, n)[j],
    decreases n,
{
    if n > 0 {
        let m = (n - 1) as nat;
        law_own_new_chunks(block, cares, m);
        let before = own_new_chunks(block, cares, m);
        let now = own_new_chunks(block, cares, n);
        assert forall|i: int| 0 <= i < before.len() implies #[trigger] before[i] < m by {
            assert(before.contains(before[i]));
        }
        assert forall|shard_id: ShardId| #[trigger] now.contains(shard_id) <==> shard_id < n
            && block.has_new_chunk(shard_id) && cares[shard_id as int] by {
            if now.contains(shard_id) {
                let i = choose|i: int| 0 <= i < now.len() && now[i] == shard_id;
                if i < before.len() {
                    assert(before[i] == shard_id);
                    assert(before.contains(shard_id));
                }
            }
            if before.contains(shard_id) {
                let i = choose|i: int| 0 <= i < before.len() && before[i] == shard_id;
                assert(now[i] == shard_id);
            }
            if shard_id == m && block.has_new_chunk(shard_id) && cares[shard_id as int] {
                assert(now[now.len() - 1] == shard_id);
            }
        }
    }
}

/// The client is to produce the chunk of a shard exactly if the shard's producer is its account.
/// The turns come by shard, each shard at most once, and each names the block to build on, the
/// epoch, the height after the block's, and when the shard's chunk in the block was created and
/// included.
pub proof fn law_turns_are_those_of_the_own_shards(
    block: Block,
    epoch_hash: CryptoHash,
    me: Seq<char>,
    proposers: Seq<AccountId>,
    n: nat,
)
    requires
        n <= proposers.len(),
        n <= u64::MAX,
        block.header.height < u64::MAX,
    ensures
        ({
            let turns = own_chunk_turns(block, epoch_hash, me, proposers, n);
            &&& forall|i: int|
                #![trigger proposers[i]]
                0 <= i < n ==> (proposers[i]@ == me <==> exists|j: int|
                    0 <= j < turns.len() && (#[trigger] turns[j]).shard_id == i)
            &&& forall|j: int|
                0 <= j < turns.len() ==> {
                    let turn = #[trigger] turns[j];
                    let last = block.chunks@[turn.shard_id as int];
                    &&& turn.shard_id < n
                    &&& proposers[turn.shard_id as int]@ == me
                    &&& turn.prev_block_hash == block.header.hash
                    &&& turn.epoch_hash == epoch_hash
                    &&& turn.next_height == block.header.height + 1
                    &&& turn.last_created == last.inner.height_created
                    &&& turn.last_included == last.inner.height_included
                }
            &&& forall|j: int, k: int|
                0 <= j < k < turns.len() ==> (#[trigger] turns[j]).shard_id < (
                #[trigger] turns[k]).shard_id
        }),
    decreases n,
{
    if n > 0 {
        let m = (n - 1) as nat;
        law_turns_are_those_of_the_own_shards(block, epoch_hash, me, proposers, m);
        let before = own_chunk_turns(block, epoch_hash, me, proposers, m);
        let turns = own_chunk_turns(block, epoch_hash, me, proposers, n);
        assert forall|j: int| 0 <= j < before.len() implies #[trigger] turns[j] == before[j] by {}
        assert forall|i: int|
            #![trigger proposers[i]]
            0 <= i < n implies (proposers[i]@ == me <==> exists|j: int|
            0 <= j < turns.len() && (#[trigger] turns[j]).shard_id == i) by {
            if proposers[i]@ == me {
                if i < m {
                    let j = choose|j: int|
                        0 <= j < before.len() && (#[trigger] before[j]).shard_id == i;
                    assert(turns[j].shard_id == i);
                } else {
                    assert(turns[turns.len() - 1].shard_id == i);
                }
            }
            if exists|j: int| 0 <= j < turns.len() && (#[trigger] turns[j]).shard_id == i {
                let j = choose|j: int|
                    0 <= j < turns.len() && (#[trigger] turns[j]).shard_id == i;
                if j < before.len() {
                    assert(before[j].shard_id == i);
                }
            }
        }
    }
}

/// Every accepted block is counted with its transactions, and then the chunk parts that waited for
/// it are taken up, before anything else is done about it.
pub proof fn law_accepted_block_is_counted_first(
    is_producer: bool,
    block: Block,
    status: BlockStatus,
    provenance: Provenance,
)
    requires
        block.header.height < u64::MAX,
    ensures
        ({
            let steps = accepted_steps(is_producer, block, status, provenance);
            &&& steps.len() >= 2
            &&& steps[0] matches AcceptedStep::CountTransactions(n) && n == block.num_transactions
            &&& steps[1] matches AcceptedStep::ProcessOrphanedParts { block_hash, height }
                && block_hash == block.header.hash && height == block.header.height + 1
            &&& forall|i: int|
                2 <= i < steps.len() ==> !(#[trigger] steps[i] is CountTransactions)
                    && !(steps[i] is ProcessOrphanedParts)
        }),
{
}

/// The news of a block that was not fetched for catching up is spread once: the block itself where
/// the client produced it, and the header alone otherwise. Right after that the turn that follows
/// the block is looked at.
pub proof fn law_news_of_a_block_is_spread_once(
    is_producer: bool,
    block: Block,
    status: BlockStatus,
    provenance: Provenance,
)
    ensures
        ({
            let steps = accepted_steps(is_producer, block, status, provenance);
            let wish = Scheduling {
                block_hash: block.header.hash,
                last_height: block.header.height,
                check_height: block.header.height,
            };
            &&& provenance is PRODUCED ==> steps[2] is BroadcastBlock
            &&& provenance is NONE ==> steps[2] is AnnounceHeader
            &&& !(provenance is SYNC) ==> steps.len() >= 4 && steps[3] == AcceptedStep::Schedule(
                wish,
            )
            &&& forall|i: int|
                0 <= i < steps.len() && (#[trigger] steps[i] is BroadcastBlock
                    || steps[i] is AnnounceHeader) ==> i == 2 && !(provenance is SYNC)
            &&& forall|i: int|
                0 <= i < steps.len() && #[trigger] steps[i] is Schedule ==> i == 3 && !(
                provenance is SYNC)
        }),
{
}

/// The pool is touched exactly if the client produces blocks and the block is the new head: its
/// transactions leave the pool, or both branches are reconciled where the head was on another one.
/// Chunks are produced on such a block unless it was fetched for catching up, after the pool has
/// been dealt with.
pub proof fn law_producer_keeps_its_pool_in_step(
    is_producer: bool,
    block: Block,
    status: BlockStatus,
    provenance: Provenance,
)
    requires
        block.header.height < u64::MAX,
    ensures
        ({
            let steps = accepted_steps(is_producer, block, status, provenance);
            let at = if provenance is SYNC {
                2int
            } else {
                4int
            };
            let produce = AcceptedStep::ProduceChunks {
                block_hash: block.header.hash,
                height: (block.header.height + 1) as u64,
            };
            &&& is_producer && status is Next ==> steps[at] is RemoveTransactions
            &&& is_producer ==> (status matches BlockStatus::Reorg(old_head) ==> steps[at]
                == AcceptedStep::Reconcile { prev_head: old_head })
            &&& is_producer && !(status is Fork) && !(provenance is SYNC) ==> steps[at + 1]
                == produce
            &&& forall|i: int|
                0 <= i < steps.len() && (#[trigger] steps[i] is RemoveTransactions
                    || steps[i] is Reconcile) ==> i == at && is_producer && !(status is Fork)
            &&& forall|i: int|
                0 <= i < steps.len() && #[trigger] steps[i] is ProduceChunks ==> i == at + 1
                    && is_producer && !(status is Fork) && !(provenance is SYNC)
        }),
{
}

/// The last thing to do about a block is to see whether to announce the client's account for the
/// block's epoch. Only a producer that meets a fork leaves that out.
pub proof fn law_announcement_is_seen_about_last(
    is_producer: bool,
    block: Block,
    status: BlockStatus,
    provenance: Provenance,
)
    ensures
        ({
            let steps = accepted_steps(is_producer, block, status, provenance);
            let n = steps.len() as int;
            let is_left_out = is_producer && status is Fork;
            let wish = AnnounceWish {
                epoch_hash: block.header.epoch_hash,
                prev_hash: block.header.prev_hash,
            };
            &&& !is_left_out ==> steps[n - 1] == AcceptedStep::CheckAnnounce(wish)
            &&& forall|i: int|
                0 <= i < n && #[trigger] steps[i] is CheckAnnounce ==> i == n - 1 && !is_left_out
            &&& n == 2 + (if provenance is SYNC {
                0int
            } else {
                2int
            }) + (if is_producer && !(status is Fork) {
                if provenance is SYNC {
                    1int
                } else {
                    2int
                }
            } else {
                0int
            }) + (if is_left_out {
                0int
            } else {
                1int
            })
        }),
{
}

/// Each block that was accepted is followed up with its own status and provenance, and each list
/// of missing chunks is asked for as it is. All accepted blocks come first, and either kind keeps
/// its order.
pub proof fn law_every_processed_block_is_followed_up(
    accepted: Seq<(CryptoHash, BlockStatus, Provenance)>,
    missing: Seq<Vec<ShardChunkHeader>>,
)
    ensures
        ({
            let r = follow_ups(accepted, missing);
            &&& r.len() == accepted.len() + missing.len()
            &&& forall|i: int|
                0 <= i < accepted.len() ==> {
                    &&& #[trigger] r[i] matches BlockFollowUp::Accepted {
                        block_hash,
                        status,
                        provenance,
                    }
                    &&& (block_hash, status, provenance) == accepted[i]
                }
            &&& forall|i: int|
                accepted.len() <= i < r.len() ==> {
                    &&& #[trigger] r[i] matches BlockFollowUp::RequestChunks(chunks)
                    &&& chunks == missing[i - accepted.len()]
                }
        }),
{
}

/// For each shard of a block, in order, it is asked whether the shard matters on top of the block's
/// parent.
pub proof fn law_every_shard_of_a_block_is_asked_about(block: Block, i: int)
    requires
        0 <= i < block.chunks@.len() <= u64::MAX,
    ensures
        care_questions_of(block).len() == block.chunks@.len(),
        care_questions_of(block)[i].shard_id == i,
        care_questions_of(block)[i].parent_hash == block.header.prev_hash,
{
}

/// For each shard, in order, it is asked who produces its chunk at the height of the epoch.
pub proof fn law_every_chunk_of_a_height_is_asked_about(
    epoch_hash: CryptoHash,
    height: BlockHeight,
    num_shards: ShardId,
    i: int,
)
    requires
        0 <= i < num_shards,
    ensures
        ({
            let questions = chunk_questions_of(epoch_hash, height, num_shards);
            &&& questions.len() == num_shards
            &&& questions[i].shard_id == i
            &&& questions[i].epoch_hash == epoch_hash
            &&& questions[i].height == height
        }),
{
}

/// Of the heights at which blocks wait for chunks, those are looked at that are not below the
/// chunk's height, in their order.
pub proof fn law_no_height_below_the_chunk_is_looked_at(
    heights: Seq<BlockHeight>,
    height: BlockHeight,
    next: BlockHeight,
)
    ensures
        heights_from(Seq::empty(), height).len() == 0,
        next >= height ==> heights_from(heights.push(next), height) == heights_from(
            heights,
            height,
        ).push(next),
        next < height ==> heights_from(heights.push(next), height) == heights_from(
            heights,
            height,
        ),
{
    reveal(Seq::filter);
    assert(heights.push(next).drop_last() =~= heights);
}

} // verus!
