//! The blocks between a new chunk and the two new chunks of its shard before it.
use vstd::prelude::*;
use crate::ancestry::{ancestor, headers_of};
use crate::stateless_validation::errors::{Error, WitnessFault};
use crate::types::{Block, CryptoHash, ShardId};

verus! {

/// A walk back through the chain from the parent of a chunk, until two new chunks of its shard
/// have been passed.
#[derive(Debug)]
pub struct ChunkHistory {
    pub shard_id: ShardId,
    /// The block to look at next.
    pub next_block: CryptoHash,
    /// How many new chunks of the shard have been passed.
    pub prev_chunks_seen: u8,
    /// Blocks from the last new chunk (exclusive) to the parent block (inclusive), newest first.
    pub blocks_after_last_chunk: Vec<Block>,
    /// Blocks from the last but one new chunk (exclusive) to the last new chunk (inclusive),
    /// newest first.
    pub blocks_after_last_last_chunk: Vec<Block>,
}

/// What a walk has come to.
pub struct HistoryView {
    pub shard_id: ShardId,
    pub next_block: CryptoHash,
    pub prev_chunks_seen: int,
    pub blocks_after_last_chunk: Seq<Block>,
    pub blocks_after_last_last_chunk: Seq<Block>,
}

impl View for ChunkHistory {
    type V = HistoryView;

    open spec fn view(&self) -> HistoryView {
        HistoryView {
            shard_id: self.shard_id,
            next_block: self.next_block,
            prev_chunks_seen: self.prev_chunks_seen as int,
            blocks_after_last_chunk: self.blocks_after_last_chunk@,
            blocks_after_last_last_chunk: self.blocks_after_last_last_chunk@,
        }
    }
}

impl HistoryView {
    /// A walk that begins at the parent of a chunk.
    pub open spec fn start(shard_id: ShardId, prev_block_hash: CryptoHash) -> HistoryView {
        HistoryView {
            shard_id,
            next_block: prev_block_hash,
            prev_chunks_seen: 0,
            blocks_after_last_chunk: Seq::empty(),
            blocks_after_last_last_chunk: Seq::empty(),
        }
    }

    /// Two new chunks have been passed.
    pub open spec fn is_complete(self) -> bool {
        self.prev_chunks_seen == 2
    }

    /// Why a walk cannot take up what was found of the block that it wants: the block could not be
    /// had, or it does not have the shard.
    pub open spec fn fault(self, block: Result<Block, Error>) -> Option<Error> {
        match block {
            Err(error) => Some(error),
            Ok(block) => if block.has_shard(self.shard_id) {
                None
            } else {
                Some(
                    Error::InvalidChunkStateWitness(
                        WitnessFault::ShardDoesNotExist {
                            shard_id: self.shard_id,
                            block_hash: self.next_block,
                        },
                    ),
                )
            },
        }
    }

    /// The walk once it has taken up a block. The block goes into one of the lists, by how many new
    /// chunks have been passed with it.
    pub open spec fn pushed(self, block: Block) -> HistoryView {
        let seen = self.prev_chunks_seen + (if block.has_new_chunk(self.shard_id) {
            1int
        } else {
            0int
        });
        HistoryView {
            shard_id: self.shard_id,
            next_block: block.header.prev_hash,
            prev_chunks_seen: seen,
            blocks_after_last_chunk: if seen == 0 {
                self.blocks_after_last_chunk.push(block)
            } else {
                self.blocks_after_last_chunk
            },
            blocks_after_last_last_chunk: if seen == 1 {
                self.blocks_after_last_last_chunk.push(block)
            } else {
                self.blocks_after_last_last_chunk
            },
        }
    }

    /// The walk once it has gone on with what was found of the block that it wants, or why it
    /// could not.
    pub open spec fn taken_up(self, block: Result<Block, Error>) -> Result<HistoryView, Error> {
        match self.fault(block) {
            Some(error) => Err(error),
            None => Ok(self.pushed(block->Ok_0)),
        }
    }

    /// The walk once it has gone on with one answer after the other, or why it failed. It asks no
    /// more once it is complete.
    pub open spec fn walked(self, blocks: Seq<Result<Block, Error>>) -> Result<HistoryView, Error>
        decreases blocks.len(),
    {
        if blocks.len() == 0 {
            Ok(self)
        } else {
            match self.walked(blocks.drop_last()) {
                Ok(reached) => if reached.is_complete() {
                    Ok(reached)
                } else {
                    reached.taken_up(blocks.last())
                },
                Err(error) => Err(error),
            }
        }
    }

    /// The answer at a place is the first that a walk cannot go on with.
    pub open spec fn ends_at(
        self,
        blocks: Seq<Result<Block, Error>>,
        at: int,
        error: Error,
    ) -> bool {
        &&& 0 <= at < blocks.len()
        &&& self.walked(blocks.take(at)) matches Ok(reached)
        &&& !reached.is_complete()
        &&& reached.fault(blocks[at]) == Some(error)
    }
}

impl ChunkHistory {
    /// The blocks taken up so far hold the shard; among them the last new chunk stands first in
    /// its list, and no other block has one.
    pub open spec fn wf(self) -> bool {
        &&& self.prev_chunks_seen <= 2
        &&& forall|i: int|
            0 <= i < self.blocks_after_last_chunk@.len() ==> {
                let block = #[trigger] self.blocks_after_last_chunk@[i];
                block.has_shard(self.shard_id) && !block.has_new_chunk(self.shard_id)
            }
        &&& self.prev_chunks_seen == 0 ==> self.blocks_after_last_last_chunk@.len() == 0
        &&& self.prev_chunks_seen > 0 ==> {
            &&& self.blocks_after_last_last_chunk@.len() > 0
            &&& self.blocks_after_last_last_chunk@[0].has_new_chunk(self.shard_id)
        }
        &&& forall|i: int|
            0 < i < self.blocks_after_last_last_chunk@.len() ==> {
                let block = #[trigger] self.blocks_after_last_last_chunk@[i];
                block.has_shard(self.shard_id) && !block.has_new_chunk(self.shard_id)
            }
    }

    /// Two new chunks have been passed.
    pub open spec fn is_complete(self) -> bool {
        self.prev_chunks_seen == 2
    }

    /// How many blocks have been looked at.
    pub open spec fn steps(self) -> int {
        self.blocks_after_last_chunk@.len() + self.blocks_after_last_last_chunk@.len() + (
        if self.prev_chunks_seen == 2 {
            1int
        } else {
            0int
        })
    }

    /// The blocks looked at are those that a chain holds on the way back from `start`.
    pub open spec fn follows(self, chain: Map<CryptoHash, Block>, start: CryptoHash) -> bool {
        let a = self.blocks_after_last_chunk@.len() as int;
        let b = self.blocks_after_last_last_chunk@.len() as int;
        &&& self.next_block == ancestor(headers_of(chain), start, self.steps() as nat)
        &&& forall|i: int|
            0 <= i < a ==> #[trigger] self.blocks_after_last_chunk@[i] == chain[ancestor(
                headers_of(chain),
                start,
                i as nat,
            )]
        &&& forall|i: int|
            0 <= i < b ==> #[trigger] self.blocks_after_last_last_chunk@[i] == chain[ancestor(
                headers_of(chain),
                start,
                (a + i) as nat,
            )]
        &&& self.prev_chunks_seen == 2 ==> chain[ancestor(
            headers_of(chain),
            start,
            (a + b) as nat,
        )].has_new_chunk(self.shard_id)
    }

    /// Starts at the parent of a chunk.
    pub fn new(shard_id: ShardId, prev_block_hash: CryptoHash) -> (r: ChunkHistory)
        ensures
            r.wf(),
            r@ == HistoryView::start(shard_id, prev_block_hash),
            forall|chain: Map<CryptoHash, Block>| #[trigger] r.follows(chain, prev_block_hash),
    {
        ChunkHistory {
            shard_id,
            next_block: prev_block_hash,
            prev_chunks_seen: 0,
            blocks_after_last_chunk: Vec::new(),
            blocks_after_last_last_chunk: Vec::new(),
        }
    }

    /// The block to look at next, as long as two new chunks have not been passed.
    pub fn wanted(&self) -> (r: Option<CryptoHash>)
        ensures
            r == (if self.is_complete() {
                None
            } else {
                Some(self.next_block)
            }),
    {
        if self.prev_chunks_seen == 2 {
            None
        } else {
            Some(self.next_block)
        }
    }

    /// Takes up what was found of the block that was wanted. Where the block could not be had, the
    /// reason is handed back as it is; where it does not have the shard, the witness is at fault.
    /// Nothing changes in either case.
    pub fn push_found(&mut self, block: Result<Block, Error>) -> (r: Result<(), Error>)
        requires
            old(self).wf(),
            !old(self).is_complete(),
        ensures
            final(self).wf(),
            final(self).shard_id == old(self).shard_id,
            match old(self)@.taken_up(block) {
                Ok(next) => r == Ok::<(), Error>(()) && final(self)@ == next,
                Err(error) => r == Err::<(), Error>(error) && *final(self) == *old(self),
            },
            forall|chain: Map<CryptoHash, Block>, start: CryptoHash|
                old(self).follows(chain, start) && chain.contains_key(old(self).next_block)
                    && block == Ok::<Block, Error>(chain[old(self).next_block]) && r is Ok
                    ==> #[trigger] final(self).follows(chain, start),
    {
        match block {
            Ok(block) => self.push_block(block),
            Err(error) => Err(error),
        }
    }

    /// Takes up the block that was wanted. It is refused, and nothing changes, where it does not
    /// have the shard.
    pub fn push_block(&mut self, block: Block) -> (r: Result<(), Error>)
        requires
            old(self).wf(),
            !old(self).is_complete(),
        ensures
            final(self).wf(),
            final(self).shard_id == old(self).shard_id,
            match old(self)@.taken_up(Ok(block)) {
                Ok(next) => r == Ok::<(), Error>(()) && final(self)@ == next,
                Err(error) => r == Err::<(), Error>(error) && *final(self) == *old(self),
            },
            forall|chain: Map<CryptoHash, Block>, start: CryptoHash|
                old(self).follows(chain, start) && chain.contains_key(old(self).next_block)
                    && chain[old(self).next_block] == block && block.has_shard(old(self).shard_id)
                    ==> #[trigger] final(self).follows(chain, start),
    {
        if self.shard_id >= block.chunks.len() as u64 {
            return Err(
                Error::InvalidChunkStateWitness(
                    WitnessFault::ShardDoesNotExist {
                        shard_id: self.shard_id,
                        block_hash: self.next_block,
                    },
                ),
            );
        }
        let is_new_chunk = block.chunk(self.shard_id).is_new_chunk(block.header.height);
        self.next_block = block.header.prev_hash;
        if is_new_chunk {
            self.prev_chunks_seen = self.prev_chunks_seen + 1;
        }
        if self.prev_chunks_seen == 0 {
            self.blocks_after_last_chunk.push(block);
        } else if self.prev_chunks_seen == 1 {
            self.blocks_after_last_last_chunk.push(block);
        }
        Ok(())
    }
}

/// A walk fails exactly if some answer is one that it cannot go on with, and it fails for the
/// reason that the first of them gives: the store's own error where the block could not be had, and
/// the witness's fault where the block does not have the shard.
pub proof fn law_walk_ends_at_first_failure(
    history: HistoryView,
    blocks: Seq<Result<Block, Error>>,
    error: Error,
)
    ensures
        history.walked(blocks) == Err::<HistoryView, Error>(error) <==> exists|at: int|
            #[trigger] history.ends_at(blocks, at, error),
    decreases blocks.len(),
{
    if blocks.len() > 0 {
        let earlier = blocks.drop_last();
        let last = blocks.len() - 1;
        law_walk_ends_at_first_failure(history, earlier, error);
        assert(blocks.take(last) =~= earlier);
        assert forall|at: int| 0 <= at < last implies blocks.take(at) == #[trigger] earlier.take(
            at,
        ) by {
            assert(blocks.take(at) =~= earlier.take(at));
        }
        if history.walked(blocks) == Err::<HistoryView, Error>(error) {
            match history.walked(earlier) {
                Ok(_) => {
                    assert(history.ends_at(blocks, last, error));
                },
                Err(_) => {
                    let at = choose|at: int| #[trigger] history.ends_at(earlier, at, error);
                    assert(earlier.take(at) == blocks.take(at));
                    assert(history.ends_at(blocks, at, error));
                },
            }
        }
        if exists|at: int| #[trigger] history.ends_at(blocks, at, error) {
            let at = choose|at: int| #[trigger] history.ends_at(blocks, at, error);
            if at < last {
                assert(earlier.take(at) == blocks.take(at));
                assert(history.ends_at(earlier, at, error));
            }
        }
    }
}

/// A complete walk back through a chain has sorted its blocks by the last two new chunks of the
/// shard: going back from the start, the first new chunk of the shard stands in the first block
/// of the second list, and the next new chunk in the block right behind that list.
pub proof fn law_history_ends_at_second_new_chunk(
    history: ChunkHistory,
    chain: Map<CryptoHash, Block>,
    start: CryptoHash,
)
    requires
        history.wf(),
        history.is_complete(),
        history.follows(chain, start),
    ensures
        ({
            let headers = headers_of(chain);
            let last = history.blocks_after_last_chunk@.len();
            let last_last = last + history.blocks_after_last_last_chunk@.len();
            &&& last < last_last
            &&& chain[ancestor(headers, start, last)].has_new_chunk(history.shard_id)
            &&& chain[ancestor(headers, start, last_last)].has_new_chunk(history.shard_id)
            &&& forall|i: nat|
                i < last_last && i != last ==> !chain[#[trigger] ancestor(
                    headers,
                    start,
                    i,
                )].has_new_chunk(history.shard_id)
        }),
{
    let headers = headers_of(chain);
    let last = history.blocks_after_last_chunk@.len();
    let last_last = last + history.blocks_after_last_last_chunk@.len();
    assert(history.blocks_after_last_last_chunk@[0] == chain[ancestor(headers, start, last)]);
    assert forall|i: nat| i < last_last && i != last implies !chain[#[trigger] ancestor(
        headers,
        start,
        i,
    )].has_new_chunk(history.shard_id) by {
        if i < last {
            assert(history.blocks_after_last_chunk@[i as int] == chain[ancestor(
                headers,
                start,
                i,
            )]);
        } else {
            let k = i - last;
            assert((last + k) as nat == i);
            assert(history.blocks_after_last_last_chunk@[k] == chain[ancestor(headers, start, i)]);
        }
    }
}

/// A walk begins at the parent of the chunk, with no block taken up and no new chunk passed.
pub proof fn law_walk_begins_at_the_parent(shard_id: ShardId, prev_block_hash: CryptoHash)
    ensures
        ({
            let history = HistoryView::start(shard_id, prev_block_hash);
            &&& history.shard_id == shard_id
            &&& history.next_block == prev_block_hash
            &&& history.prev_chunks_seen == 0
            &&& history.blocks_after_last_chunk.len() == 0
            &&& history.blocks_after_last_last_chunk.len() == 0
        }),
{
}

/// A walk goes on exactly if the block that it wants could be had and has the shard. Otherwise it
/// fails: with the reason given where the block could not be had, and with a fault that names the
/// shard and the wanted block where the block has fewer shards.
pub proof fn law_walk_needs_the_block_and_its_shard(
    history: HistoryView,
    block: Result<Block, Error>,
)
    ensures
        match history.taken_up(block) {
            Ok(_) => block is Ok && history.shard_id < block->Ok_0.chunks@.len(),
            Err(error) => {
                ||| block == Err::<Block, Error>(error)
                ||| {
                    &&& block is Ok
                    &&& history.shard_id >= block->Ok_0.chunks@.len()
                    &&& error matches Error::InvalidChunkStateWitness(fault)
                    &&& fault matches WitnessFault::ShardDoesNotExist { shard_id, block_hash }
                    &&& shard_id == history.shard_id
                    &&& block_hash == history.next_block
                }
            },
        },
{
}

/// A walk that takes a block up goes on to the block's parent. It has passed one new chunk more
/// exactly if the shard's chunk was included at the block's own height. With that, the block joins
/// the first list before any new chunk has been passed, the second list after one, and neither
/// after two; both lists otherwise stay as they are.
pub proof fn law_block_is_sorted_by_new_chunks(history: HistoryView, block: Block)
    requires
        history.shard_id < block.chunks@.len(),
        0 <= history.prev_chunks_seen <= 1,
    ensures
        ({
            let is_new = block.chunks@[history.shard_id as int].inner.height_included
                == block.header.height;
            let first = history.blocks_after_last_chunk;
            let second = history.blocks_after_last_last_chunk;
            let next = history.taken_up(Ok(block))->Ok_0;
            &&& history.taken_up(Ok(block)) is Ok
            &&& next.shard_id == history.shard_id
            &&& next.next_block == block.header.prev_hash
            &&& is_new ==> next.prev_chunks_seen == history.prev_chunks_seen + 1
            &&& !is_new ==> next.prev_chunks_seen == history.prev_chunks_seen
            &&& history.prev_chunks_seen == 0 && !is_new ==> next.blocks_after_last_chunk
                == first.push(block) && next.blocks_after_last_last_chunk == second
            &&& history.prev_chunks_seen == 0 && is_new ==> next.blocks_after_last_chunk == first
                && next.blocks_after_last_last_chunk == second.push(block)
            &&& history.prev_chunks_seen == 1 && !is_new ==> next.blocks_after_last_chunk == first
                && next.blocks_after_last_last_chunk == second.push(block)
            &&& history.prev_chunks_seen == 1 && is_new ==> next.blocks_after_last_chunk == first
                && next.blocks_after_last_last_chunk == second
        }),
{
}

/// A walk is over when two new chunks have been passed, and not before.
pub proof fn law_walk_is_over_at_the_second_new_chunk(history: ChunkHistory)
    requires
        history.wf(),
    ensures
        history.is_complete() <==> history.prev_chunks_seen == 2,
        history@.is_complete() <==> history.prev_chunks_seen == 2,
        history@.prev_chunks_seen == history.prev_chunks_seen,
        history@.shard_id == history.shard_id,
        history@.next_block == history.next_block,
        history@.blocks_after_last_chunk == history.blocks_after_last_chunk@,
        history@.blocks_after_last_last_chunk == history.blocks_after_last_last_chunk@,
{
}

} // verus!
