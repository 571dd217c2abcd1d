//! Producing a block when it is the client's turn.
//!
//! Each answer that the chain, the runtime or the chunk store gives leads to the next question or
//! to an end; [`Production`] says which.
use std::collections::HashMap;
use vstd::prelude::*;
use crate::client::actor::{ClientActor, RunLater, Task};
use crate::client::duties::Scheduling;
use crate::client::errors::{ChainError, Error, ProducerFault};
use crate::types::{
    AccountId, Block, BlockHeader, BlockHeight, CryptoHash, Gas, Nanos, ShardChunkHeader,
    ShardChunkHeaderInner, ShardChunkHeaderView, ShardId, Signature, Tip, ValidatorStake,
};

verus! {

/// A turn to produce a block.
#[derive(Clone, Copy, Debug, PartialEq, Eq)]
pub struct Turn {
    /// Height of the head when the turn was scheduled.
    pub last_height: BlockHeight,
    /// Height of the block to produce.
    pub next_height: BlockHeight,
}

/// What a new block is made of. It holds no transactions of its own.
#[derive(Debug)]
pub struct NewBlock {
    pub prev_header: BlockHeader,
    pub height: BlockHeight,
    /// The header of each shard's latest chunk.
    pub chunks: Vec<ShardChunkHeader>,
    pub epoch_hash: CryptoHash,
    pub gas_used: Gas,
    pub gas_limit: Gas,
    /// The approvals of the block before, by the validator's place among the validators.
    pub approvals: HashMap<usize, Signature>,
    pub validator_proposals: Vec<ValidatorStake>,
}

/// How far the production of a block has come: a question to answer next, or an end.
#[derive(Debug)]
pub enum Production {
    /// Which epoch follows this block, and who produces the block at this height in it?
    AskProposer { block_hash: CryptoHash, height: BlockHeight, head: Tip },
    /// What is the header of this block?
    AskPrevious { block_hash: CryptoHash, head: Tip, epoch_hash: CryptoHash },
    /// Does the block at this height, on top of this one, begin an epoch?
    AskEpochStart {
        parent_hash: CryptoHash,
        height: BlockHeight,
        head: Tip,
        epoch_hash: CryptoHash,
        prev: BlockHeader,
    },
    /// Has the chain caught up with this block and its parent, so that the epoch can begin?
    AskCaughtUp {
        prev_prev_hash: CryptoHash,
        prev_hash: CryptoHash,
        head: Tip,
        epoch_hash: CryptoHash,
        prev: BlockHeader,
    },
    /// Who are the validators of this epoch, and which of them was to produce the block at this
    /// height?
    AskValidators {
        in_epoch: CryptoHash,
        last_height: BlockHeight,
        head: Tip,
        epoch_hash: CryptoHash,
        prev: BlockHeader,
    },
    /// Which chunks are ready for a block on top of this one?
    AskChunks { prev_hash: CryptoHash, head: Tip, epoch_hash: CryptoHash },
    /// What is this block, and what does its header say?
    AskBlock {
        block_hash: CryptoHash,
        epoch_hash: CryptoHash,
        new_chunks: Vec<(ShardId, ShardChunkHeader)>,
    },
    /// There is nothing to do any more.
    Stop,
    /// Try again later.
    Later(RunLater),
    /// Leave the block out, and look at whose turn comes after it.
    Skip(Scheduling),
    /// Produce this block.
    Produce(NewBlock),
    Fail(Error),
}

/// How long ago a point in time was; not at all, where it lies ahead.
pub open spec fn time_since(now: Nanos, then: Nanos) -> Nanos {
    if now >= then {
        (now - then) as Nanos
    } else {
        0
    }
}

/// How many approvals a block waits for: those of all validators but the block's own producer
/// and the producer of the block before, who may be the same.
pub open spec fn approvals_wanted(total_validators: int, prev_same_bp: bool) -> int {
    if prev_same_bp || total_validators < 2 {
        total_validators - 1
    } else {
        total_validators - 2
    }
}

/// The gas that chunks used, taken together.
pub open spec fn total_gas_used(chunks: Seq<ShardChunkHeader>) -> int
    decreases chunks.len(),
{
    if chunks.len() == 0 {
        0
    } else {
        total_gas_used(chunks.drop_last()) + chunks.last().inner.gas_used
    }
}

/// The gas that chunks may use, taken together.
pub open spec fn total_gas_limit(chunks: Seq<ShardChunkHeader>) -> int
    decreases chunks.len(),
{
    if chunks.len() == 0 {
        0
    } else {
        total_gas_limit(chunks.drop_last()) + chunks.last().inner.gas_limit
    }
}

/// The proposals of all chunks, one chunk after the other.
pub open spec fn all_proposals(chunks: Seq<ShardChunkHeader>) -> Seq<ValidatorStake>
    decreases chunks.len(),
{
    if chunks.len() == 0 {
        Seq::empty()
    } else {
        all_proposals(chunks.drop_last()) + chunks.last().validator_proposals@
    }
}

/// What a list of chunk headers says.
pub open spec fn chunks_view(chunks: Seq<ShardChunkHeader>) -> Seq<ShardChunkHeaderView> {
    chunks.map_values(|chunk: ShardChunkHeader| chunk@)
}

/// A chunk's header once the chunk has been put into the block at `height`.
pub open spec fn included_at(
    chunk: ShardChunkHeaderView,
    height: BlockHeight,
) -> ShardChunkHeaderView {
    ShardChunkHeaderView {
        inner: ShardChunkHeaderInner { height_included: height, ..chunk.inner },
        validator_proposals: chunk.validator_proposals,
    }
}

/// The chunks of a block at `height`: those of the block before, each new chunk in the place of
/// its shard's.
pub open spec fn with_new_chunks(
    chunks: Seq<ShardChunkHeaderView>,
    new_chunks: Seq<(ShardId, ShardChunkHeader)>,
    height: BlockHeight,
) -> Seq<ShardChunkHeaderView>
    decreases new_chunks.len(),
{
    if new_chunks.len() == 0 {
        chunks
    } else {
        let (shard_id, chunk) = new_chunks.last();
        with_new_chunks(chunks, new_chunks.drop_last(), height).update(
            shard_id as int,
            included_at(chunk@, height),
        )
    }
}

/// Every new chunk is of a shard that the block before has.
pub open spec fn shards_exist(
    new_chunks: Seq<(ShardId, ShardChunkHeader)>,
    num_shards: int,
) -> bool {
    forall|i: int| 0 <= i < new_chunks.len() ==> (#[trigger] new_chunks[i]).0 < num_shards
}

/// A block can be built on `block`: it has chunks, and their gas can be added up.
pub open spec fn can_build_on(block: Block) -> bool {
    &&& block.chunks@.len() > 0
    &&& total_gas_used(block.chunks@) <= u64::MAX
    &&& total_gas_limit(block.chunks@) <= u64::MAX
}

proof fn lemma_gas_grows(chunks: Seq<ShardChunkHeader>, n: int)
    requires
        0 <= n <= chunks.len(),
    ensures
        0 <= total_gas_used(chunks.take(n)) <= total_gas_used(chunks),
        0 <= total_gas_limit(chunks.take(n)) <= total_gas_limit(chunks),
    decreases chunks.len(),
{
    if n == chunks.len() {
        assert(chunks.take(n) =~= chunks);
        if n > 0 {
            lemma_gas_grows(chunks.drop_last(), n - 1);
            assert(chunks.drop_last().take(n - 1) =~= chunks.drop_last());
        }
    } else {
        lemma_gas_grows(chunks.drop_last(), n);
        assert(chunks.drop_last().take(n) =~= chunks.take(n));
    }
}

/// The totals over a block's chunks: average gas used and allowed, and all proposals.
fn aggregate_chunks(block: &Block) -> (r: (Gas, Gas, Vec<ValidatorStake>))
    requires
        can_build_on(*block),
    ensures
        r.0 == total_gas_used(block.chunks@) / block.chunks@.len() as int,
        r.1 == total_gas_limit(block.chunks@) / block.chunks@.len() as int,
        r.2@ == all_proposals(block.chunks@),
{
    let chunks = &block.chunks;
    let mut validator_proposals: Vec<ValidatorStake> = Vec::new();
    let mut gas_used: u64 = 0;
    let mut gas_limit: u64 = 0;
    let mut i: usize = 0;
    assert(chunks@.take(0) =~= Seq::empty());
    while i < chunks.len()
        invariant
            *chunks == block.chunks,
            can_build_on(*block),
            i <= chunks@.len(),
            gas_used == total_gas_used(chunks@.take(i as int)),
            gas_limit == total_gas_limit(chunks@.take(i as int)),
            validator_proposals@ == all_proposals(chunks@.take(i as int)),
        decreases chunks@.len() - i,
    {
        proof {
            let next = chunks@.take(i + 1);
            assert(next.drop_last() =~= chunks@.take(i as int));
            assert(next.last() == chunks@[i as int]);
            lemma_gas_grows(chunks@, i + 1);
        }
        let chunk = &chunks[i];
        let mut proposals = chunk.validator_proposals.clone();
        assert(proposals@ =~= chunk.validator_proposals@);
        validator_proposals.append(&mut proposals);
        gas_used = gas_used + chunk.inner.gas_used;
        gas_limit = gas_limit + chunk.inner.gas_limit;
        i += 1;
    }
    assert(chunks@.take(i as int) =~= chunks@);
    let num_chunks: u64 = chunks.len() as u64;
    (gas_used / num_chunks, gas_limit / num_chunks, validator_proposals)
}

fn replace_chunks(
    mut chunks: Vec<ShardChunkHeader>,
    new_chunks: Vec<(ShardId, ShardChunkHeader)>,
    height: BlockHeight,
) -> (r: Vec<ShardChunkHeader>)
    requires
        shards_exist(new_chunks@, chunks@.len() as int),
    ensures
        chunks_view(r@) == with_new_chunks(chunks_view(chunks@), new_chunks@, height),
{
    let ghost before = chunks_view(chunks@);
    let mut i: usize = 0;
    assert(new_chunks@.take(0) =~= Seq::empty());
    while i < new_chunks.len()
        invariant
            i <= new_chunks@.len(),
            shards_exist(new_chunks@, chunks@.len() as int),
            chunks_view(chunks@) == with_new_chunks(before, new_chunks@.take(i as int), height),
        decreases new_chunks@.len() - i,
    {
        let ghost so_far = chunks@;
        let (shard_id, chunk) = &new_chunks[i];
        let mut chunk = chunk.clone();
        chunk.inner.height_included = height;
        let num_shards = chunks.len();
        assert(new_chunks@[i as int].0 < num_shards);
        proof {
            let next = new_chunks@.take(i + 1);
            assert(next.drop_last() =~= new_chunks@.take(i as int));
            assert(next.last() == new_chunks@[i as int]);
            assert(chunk@ == included_at(new_chunks@[i as int].1@, height));
        }
        let ghost header = chunk;
        chunks.set(*shard_id as usize, chunk);
        assert(chunks_view(chunks@) =~= chunks_view(so_far).update(*shard_id as int, header@));
        i += 1;
    }
    assert(new_chunks@.take(i as int) =~= new_chunks@);
    chunks
}

impl Turn {
    /// How the turn goes on once the head is known.
    pub open spec fn after_head(
        self,
        client: ClientActor,
        head: Result<Tip, ChainError>,
    ) -> Production {
        match (client.block_producer, head) {
            (None, _) => Production::Fail(Error::BlockProducer(ProducerFault::NoBlockProducer)),
            (Some(_), Err(error)) => Production::Fail(Error::Chain(error)),
            (Some(_), Ok(head)) => if head.height != self.last_height {
                Production::Stop
            } else {
                Production::AskProposer {
                    block_hash: head.last_block_hash,
                    height: self.next_height,
                    head,
                }
            },
        }
    }

    /// How it goes on once the block's producer is known.
    pub open spec fn after_proposer(
        self,
        client: ClientActor,
        head: Tip,
        epoch_hash: CryptoHash,
        proposer: Result<AccountId, String>,
    ) -> Production {
        match proposer {
            Err(message) => Production::Fail(Error::Other(message)),
            Ok(proposer) => if client.produces_for(proposer@) {
                Production::AskPrevious { block_hash: head.last_block_hash, head, epoch_hash }
            } else {
                Production::Stop
            },
        }
    }

    /// How it goes on once the validators and the producer of the head are known.
    pub open spec fn after_validators(
        self,
        client: ClientActor,
        head: Tip,
        epoch_hash: CryptoHash,
        prev: BlockHeader,
        validators: Result<Vec<AccountId>, String>,
        last_proposer: Result<AccountId, String>,
        now: Nanos,
    ) -> Production {
        match (validators, last_proposer) {
            (Err(message), _) => Production::Fail(Error::Other(message)),
            (Ok(_), Err(message)) => Production::Fail(Error::Other(message)),
            (Ok(validators), Ok(last_proposer)) => {
                let wanted = approvals_wanted(
                    validators@.len() as int,
                    client.produces_for(last_proposer@),
                );
                let elapsed = time_since(now, client.last_block_processed);
                let limit = client.config.max_block_production_delay;
                if client.approvals@.len() < wanted && elapsed < limit {
                    Production::Later(
                        RunLater {
                            delay: (limit - elapsed) as Nanos,
                            task: Task::ProduceBlock {
                                block_hash: head.last_block_hash,
                                last_height: self.last_height,
                                next_height: self.next_height,
                            },
                        },
                    )
                } else {
                    Production::AskChunks { prev_hash: prev.hash, head, epoch_hash }
                }
            },
        }
    }
}

impl Turn {
    /// How the turn goes on once the header of the head is known.
    pub open spec fn after_previous(
        self,
        head: Tip,
        epoch_hash: CryptoHash,
        prev: Result<BlockHeader, ChainError>,
    ) -> Production {
        match prev {
            Ok(prev) => Production::AskEpochStart {
                parent_hash: head.last_block_hash,
                height: self.next_height,
                head,
                epoch_hash,
                prev,
            },
            Err(error) => Production::Fail(Error::Chain(error)),
        }
    }

    /// The question for the validators, which a turn comes to once the chain is ready for the
    /// epoch.
    pub open spec fn ask_validators(
        self,
        head: Tip,
        epoch_hash: CryptoHash,
        prev: BlockHeader,
    ) -> Production {
        Production::AskValidators {
            in_epoch: head.epoch_hash,
            last_height: self.last_height,
            head,
            epoch_hash,
            prev,
        }
    }

    /// How it goes on once it is known whether the block begins an epoch.
    pub open spec fn after_epoch_start(
        self,
        head: Tip,
        epoch_hash: CryptoHash,
        prev: BlockHeader,
        is_epoch_start: Result<bool, String>,
    ) -> Production {
        match is_epoch_start {
            Ok(true) => Production::AskCaughtUp {
                prev_prev_hash: prev.prev_hash,
                prev_hash: prev.hash,
                head,
                epoch_hash,
                prev,
            },
            Ok(false) => self.ask_validators(head, epoch_hash, prev),
            Err(message) => Production::Fail(Error::Chain(ChainError::Failure(message))),
        }
    }

    /// How it goes on once it is known whether the chain has caught up. Where it has not, the block
    /// could not be applied yet.
    pub open spec fn after_caught_up(
        self,
        head: Tip,
        epoch_hash: CryptoHash,
        prev: BlockHeader,
        caught_up: Result<bool, ChainError>,
    ) -> Production {
        match caught_up {
            Ok(true) => self.ask_validators(head, epoch_hash, prev),
            Ok(false) => Production::Fail(Error::Chain(ChainError::Orphan)),
            Err(error) => Production::Fail(Error::Chain(error)),
        }
    }
}

impl Turn {
    /// How it goes on once the chunks that are ready are known. Without new chunks the block is
    /// left out, unless empty blocks are wanted.
    pub open spec fn after_chunks(
        self,
        client: ClientActor,
        head: Tip,
        epoch_hash: CryptoHash,
        new_chunks: Vec<(ShardId, ShardChunkHeader)>,
    ) -> Production {
        if !client.config.produce_empty_blocks && new_chunks@.len() == 0 {
            Production::Skip(
                Scheduling {
                    block_hash: head.last_block_hash,
                    last_height: head.height,
                    check_height: self.next_height,
                },
            )
        } else {
            Production::AskBlock { block_hash: head.last_block_hash, epoch_hash, new_chunks }
        }
    }
}

/// The block that a turn ends with.
pub open spec fn is_new_block(
    block: NewBlock,
    turn: Turn,
    approvals: Map<usize, Signature>,
    epoch_hash: CryptoHash,
    prev: BlockHeader,
    prev_block: Block,
    new_chunks: Seq<(ShardId, ShardChunkHeader)>,
) -> bool {
    let num_chunks = prev_block.chunks@.len() as int;
    &&& block.prev_header == prev
    &&& block.height == turn.next_height
    &&& chunks_view(block.chunks@) == with_new_chunks(
        chunks_view(prev_block.chunks@),
        new_chunks,
        turn.next_height,
    )
    &&& block.epoch_hash == epoch_hash
    &&& block.gas_used == total_gas_used(prev_block.chunks@) / num_chunks
    &&& block.gas_limit == total_gas_limit(prev_block.chunks@) / num_chunks
    &&& block.approvals@ == approvals
    &&& block.validator_proposals@ == all_proposals(prev_block.chunks@)
}

impl ClientActor {
    /// Takes up a turn to produce a block, given the head of the chain. Where the head has moved
    /// since, another turn has been scheduled, and this one ends.
    pub fn produce_block_err(&self, turn: Turn, head: Result<Tip, ChainError>) -> (r: Production)
        ensures
            r == turn.after_head(*self, head),
    {
        if self.block_producer.is_none() {
            return Production::Fail(Error::BlockProducer(ProducerFault::NoBlockProducer));
        }
        match head {
            Ok(head) => {
                if head.height != turn.last_height {
                    Production::Stop
                } else {
                    Production::AskProposer {
                        block_hash: head.last_block_hash,
                        height: turn.next_height,
                        head,
                    }
                }
            },
            Err(error) => Production::Fail(Error::Chain(error)),
        }
    }

    /// Goes on with a turn, given the producer of the block in the epoch that follows the head.
    pub fn proposer_answered(
        &self,
        turn: Turn,
        head: Tip,
        epoch_hash: CryptoHash,
        proposer: Result<AccountId, String>,
    ) -> (r: Production)
        ensures
            r == turn.after_proposer(*self, head, epoch_hash, proposer),
    {
        match proposer {
            Ok(proposer) => {
                if self.is_producer(&proposer) {
                    Production::AskPrevious {
                        block_hash: head.last_block_hash,
                        head,
                        epoch_hash,
                    }
                } else {
                    Production::Stop
                }
            },
            Err(message) => Production::Fail(Error::Other(message)),
        }
    }

    /// Goes on with a turn, given the header of the head.
    pub fn previous_answered(
        turn: Turn,
        head: Tip,
        epoch_hash: CryptoHash,
        prev: Result<BlockHeader, ChainError>,
    ) -> (r: Production)
        ensures
            r == turn.after_previous(head, epoch_hash, prev),
    {
        match prev {
            Ok(prev) => Production::AskEpochStart {
                parent_hash: head.last_block_hash,
                height: turn.next_height,
                head,
                epoch_hash,
                prev,
            },
            Err(error) => Production::Fail(Error::Chain(error)),
        }
    }

    fn ask_validators(turn: Turn, head: Tip, epoch_hash: CryptoHash, prev: BlockHeader) -> (r:
        Production)
        ensures
            r == turn.ask_validators(head, epoch_hash, prev),
    {
        Production::AskValidators {
            in_epoch: head.epoch_hash,
            last_height: turn.last_height,
            head,
            epoch_hash,
            prev,
        }
    }

    /// Goes on with a turn, given whether the block begins an epoch.
    pub fn epoch_start_answered(
        turn: Turn,
        head: Tip,
        epoch_hash: CryptoHash,
        prev: BlockHeader,
        is_epoch_start: Result<bool, String>,
    ) -> (r: Production)
        ensures
            r == turn.after_epoch_start(head, epoch_hash, prev, is_epoch_start),
    {
        match is_epoch_start {
            Ok(true) => Production::AskCaughtUp {
                prev_prev_hash: prev.prev_hash,
                prev_hash: prev.hash,
                head,
                epoch_hash,
                prev,
            },
            Ok(false) => ClientActor::ask_validators(turn, head, epoch_hash, prev),
            Err(message) => Production::Fail(Error::Chain(ChainError::Failure(message))),
        }
    }

    /// Goes on with a turn, given whether the chain has caught up with the block before.
    pub fn caught_up_answered(
        turn: Turn,
        head: Tip,
        epoch_hash: CryptoHash,
        prev: BlockHeader,
        caught_up: Result<bool, ChainError>,
    ) -> (r: Production)
        ensures
            r == turn.after_caught_up(head, epoch_hash, prev, caught_up),
    {
        match caught_up {
            Ok(true) => ClientActor::ask_validators(turn, head, epoch_hash, prev),
            Ok(false) => Production::Fail(Error::Chain(ChainError::Orphan)),
            Err(error) => Production::Fail(Error::Chain(error)),
        }
    }

    /// Goes on with a turn, given the validators of the head's epoch and the producer of the
    /// head. The block waits until all approvals are there or the client has waited long enough.
    pub fn validators_answered(
        &self,
        turn: Turn,
        head: Tip,
        epoch_hash: CryptoHash,
        prev: BlockHeader,
        validators: Result<Vec<AccountId>, String>,
        last_proposer: Result<AccountId, String>,
        now: Nanos,
    ) -> (r: Production)
        requires
            last_proposer is Ok ==> (validators matches Ok(validators) ==> validators@.len() > 0),
        ensures
            r == turn.after_validators(
                *self,
                head,
                epoch_hash,
                prev,
                validators,
                last_proposer,
                now,
            ),
            r is AskChunks ==> {
                let limit = self.config.max_block_production_delay;
                &&& validators matches Ok(validators)
                &&& last_proposer matches Ok(last_proposer)
                &&& {
                    ||| self.approvals@.len() >= validators@.len() - 1
                    ||| {
                        &&& self.approvals@.len() >= validators@.len() - 2
                        &&& validators@.len() > 1
                        &&& self.block_producer matches Some(me) ==> me@ != last_proposer@
                    }
                    ||| limit == 0
                    ||| now >= self.last_block_processed + limit
                }
            },
    {
        broadcast use vstd::std_specs::hash::group_hash_axioms;

        let total_validators: usize = match validators {
            Ok(validators) => validators.len(),
            Err(message) => {
                return Production::Fail(Error::Other(message));
            },
        };
        let prev_same_bp = match last_proposer {
            Ok(last_proposer) => self.is_producer(&last_proposer),
            Err(message) => {
                return Production::Fail(Error::Other(message));
            },
        };
        let total_approvals: usize = if prev_same_bp || total_validators < 2 {
            total_validators - 1
        } else {
            total_validators - 2
        };
        let elapsed: u128 = if now >= self.last_block_processed {
            now - self.last_block_processed
        } else {
            0
        };
        let limit: u128 = self.config.max_block_production_delay;
        if self.approvals.len() < total_approvals && elapsed < limit {
            return Production::Later(
                RunLater {
                    delay: limit - elapsed,
                    task: Task::ProduceBlock {
                        block_hash: head.last_block_hash,
                        last_height: turn.last_height,
                        next_height: turn.next_height,
                    },
                },
            );
        }
        Production::AskChunks { prev_hash: prev.hash, head, epoch_hash }
    }

    /// Goes on with a turn, given the chunks that are ready. Without new chunks the block is left
    /// out, unless empty blocks are wanted.
    pub fn chunks_answered(
        &self,
        turn: Turn,
        head: Tip,
        epoch_hash: CryptoHash,
        new_chunks: Vec<(ShardId, ShardChunkHeader)>,
    ) -> (r: Production)
        ensures
            r == turn.after_chunks(*self, head, epoch_hash, new_chunks),
    {
        if !self.config.produce_empty_blocks && new_chunks.len() == 0 {
            return Production::Skip(
                Scheduling {
                    block_hash: head.last_block_hash,
                    last_height: head.height,
                    check_height: turn.next_height,
                },
            );
        }
        Production::AskBlock { block_hash: head.last_block_hash, epoch_hash, new_chunks }
    }

    /// Ends a turn, given the block to build on and its header. The approvals go into the new
    /// block; where there is none, they stay.
    pub fn prev_block_answered(
        &mut self,
        turn: Turn,
        epoch_hash: CryptoHash,
        new_chunks: Vec<(ShardId, ShardChunkHeader)>,
        prev_block: Result<Block, ChainError>,
        prev_header: Result<BlockHeader, ChainError>,
    ) -> (r: Production)
        requires
            prev_block matches Ok(block) ==> can_build_on(block) && shards_exist(
                new_chunks@,
                block.chunks@.len() as int,
            ),
        ensures
            match (prev_block, prev_header) {
                (Err(error), _) => {
                    &&& *final(self) == *old(self)
                    &&& r == Production::Fail(Error::Chain(error))
                },
                (Ok(_), Err(error)) => {
                    &&& *final(self) == *old(self)
                    &&& r == Production::Fail(Error::Chain(error))
                },
                (Ok(prev_block), Ok(prev)) => {
                    &&& *final(self) == (ClientActor {
                        approvals: final(self).approvals,
                        ..*old(self)
                    })
                    &&& final(self).approvals@ == Map::<usize, Signature>::empty()
                    &&& r matches Production::Produce(block)
                    &&& is_new_block(
                        block,
                        turn,
                        old(self).approvals@,
                        epoch_hash,
                        prev,
                        prev_block,
                        new_chunks@,
                    )
                },
            },
    {
        let prev_block = match prev_block {
            Ok(prev_block) => prev_block,
            Err(error) => {
                return Production::Fail(Error::Chain(error));
            },
        };
        let prev = match prev_header {
            Ok(prev) => prev,
            Err(error) => {
                return Production::Fail(Error::Chain(error));
            },
        };
        let (gas_used, gas_limit, validator_proposals) = aggregate_chunks(&prev_block);
        let chunks = replace_chunks(prev_block.chunks, new_chunks, turn.next_height);
        let mut approvals: HashMap<usize, Signature> = HashMap::new();
        std::mem::swap(&mut approvals, &mut self.approvals);
        Production::Produce(
            NewBlock {
                prev_header: prev,
                height: turn.next_height,
                chunks,
                epoch_hash,
                gas_used,
                gas_limit,
                approvals,
                validator_proposals,
            },
        )
    }
}

/// All that a turn asks for before it asks for chunks.
pub struct TurnAnswers {
    pub head: Result<Tip, ChainError>,
    pub epoch_hash: CryptoHash,
    pub proposer: Result<AccountId, String>,
    pub prev: Result<BlockHeader, ChainError>,
    pub is_epoch_start: Result<bool, String>,
    pub caught_up: Result<bool, ChainError>,
    pub validators: Result<Vec<AccountId>, String>,
    pub last_proposer: Result<AccountId, String>,
}

impl TurnAnswers {
    /// Where a turn gets with these answers: to an end, or to the question for chunks.
    pub open spec fn outcome(self, turn: Turn, client: ClientActor, now: Nanos) -> Production {
        match turn.after_head(client, self.head) {
            Production::AskProposer { head, .. } => match turn.after_proposer(
                client,
                head,
                self.epoch_hash,
                self.proposer,
            ) {
                Production::AskPrevious { head, epoch_hash, .. } => match turn.after_previous(
                    head,
                    epoch_hash,
                    self.prev,
                ) {
                    Production::AskEpochStart {
                        head,
                        epoch_hash,
                        prev,
                        ..
                    } => self.outcome_from_epoch_start(turn, client, now, head, epoch_hash, prev),
                    other => other,
                },
                other => other,
            },
            other => other,
        }
    }

    /// The same, from the question whether the block begins an epoch.
    pub open spec fn outcome_from_epoch_start(
        self,
        turn: Turn,
        client: ClientActor,
        now: Nanos,
        head: Tip,
        epoch_hash: CryptoHash,
        prev: BlockHeader,
    ) -> Production {
        let next = match turn.after_epoch_start(head, epoch_hash, prev, self.is_epoch_start) {
            Production::AskCaughtUp { head, epoch_hash, prev, .. } => turn.after_caught_up(
                head,
                epoch_hash,
                prev,
                self.caught_up,
            ),
            other => other,
        };
        match next {
            Production::AskValidators { head, epoch_hash, prev, .. } => turn.after_validators(
                client,
                head,
                epoch_hash,
                prev,
                self.validators,
                self.last_proposer,
                now,
            ),
            other => other,
        }
    }

    /// Nothing stands in the way of the client's producing the block, but for approvals: it has
    /// an account, the head has not moved, the block is that account's to produce, and the chain
    /// is ready for the epoch.
    pub open spec fn is_own_turn(self, turn: Turn, client: ClientActor) -> bool {
        &&& self.head matches Ok(head)
        &&& head.height == turn.last_height
        &&& self.proposer matches Ok(proposer)
        &&& client.produces_for(proposer@)
        &&& self.prev is Ok
        &&& self.is_epoch_start matches Ok(is_epoch_start)
        &&& is_epoch_start ==> self.caught_up == Ok::<bool, ChainError>(true)
        &&& self.validators is Ok
        &&& self.last_proposer is Ok
    }

    /// All approvals that the block waits for have come.
    pub open spec fn is_approved(self, client: ClientActor) -> bool {
        &&& self.validators matches Ok(validators)
        &&& self.last_proposer matches Ok(last_proposer)
        &&& client.approvals@.len() >= approvals_wanted(
            validators@.len() as int,
            client.produces_for(last_proposer@),
        )
    }
}

/// A block is put together in exactly these cases: it is the client's turn, and either all
/// approvals have come or the client has waited for as long as it may.
pub proof fn law_block_needs_turn_and_approvals(
    answers: TurnAnswers,
    turn: Turn,
    client: ClientActor,
    now: Nanos,
)
    ensures
        answers.outcome(turn, client, now) is AskChunks <==> answers.is_own_turn(turn, client) && (
        answers.is_approved(client) || time_since(now, client.last_block_processed)
            >= client.config.max_block_production_delay),
{
}

/// A block is put off only in the client's own turn, only for want of approvals, and only once:
/// when the time it was put off for has passed, and nothing else has changed, it is put together.
pub proof fn law_block_is_put_off_once(
    answers: TurnAnswers,
    turn: Turn,
    client: ClientActor,
    now: Nanos,
    later: Nanos,
)
    requires
        client.last_block_processed <= now,
        answers.outcome(turn, client, now) is Later,
        later >= now + answers.outcome(turn, client, now)->Later_0.delay,
    ensures
        answers.is_own_turn(turn, client),
        !answers.is_approved(client),
        answers.outcome(turn, client, later) is AskChunks,
{
}

/// In a new block each shard has the last of its new chunks, noted as included at the block's
/// height, or else the chunk that it had in the block before.
pub proof fn law_new_block_keeps_other_chunks(
    chunks: Seq<ShardChunkHeaderView>,
    new_chunks: Seq<(ShardId, ShardChunkHeader)>,
    height: BlockHeight,
    shard_id: ShardId,
)
    requires
        shard_id < chunks.len(),
        shards_exist(new_chunks, chunks.len() as int),
    ensures
        with_new_chunks(chunks, new_chunks, height).len() == chunks.len(),
        (forall|i: int| 0 <= i < new_chunks.len() ==> (#[trigger] new_chunks[i]).0 != shard_id)
            ==> with_new_chunks(chunks, new_chunks, height)[shard_id as int]
            == chunks[shard_id as int],
        forall|i: int|
            #![trigger new_chunks[i]]
            0 <= i < new_chunks.len() && new_chunks[i].0 == shard_id && (forall|j: int|
                i < j < new_chunks.len() ==> (#[trigger] new_chunks[j]).0 != shard_id)
                ==> with_new_chunks(chunks, new_chunks, height)[shard_id as int] == included_at(
                new_chunks[i].1@,
                height,
            ),
    decreases new_chunks.len(),
{
    if new_chunks.len() > 0 {
        let before = new_chunks.drop_last();
        assert(forall|i: int| 0 <= i < before.len() ==> before[i] == new_chunks[i]);
        law_new_block_keeps_other_chunks(chunks, before, height, shard_id);
        let last = new_chunks.len() - 1;
        assert(new_chunks[last].0 < chunks.len());
        assert forall|i: int|
            #![trigger new_chunks[i]]
            0 <= i < new_chunks.len() && new_chunks[i].0 == shard_id && (forall|j: int|
                i < j < new_chunks.len() ==> (#[trigger] new_chunks[j]).0
                    != shard_id) implies with_new_chunks(
            chunks,
            new_chunks,
            height,
        )[shard_id as int] == included_at(new_chunks[i].1@, height) by {
            if i < last {
                assert(new_chunks[last].0 != shard_id);
                assert(before[i].0 == shard_id);
                assert forall|j: int| i < j < before.len() implies (#[trigger] before[j]).0
                    != shard_id by {
                    assert(new_chunks[j].0 != shard_id);
                }
            }
        }
        if forall|i: int| 0 <= i < new_chunks.len() ==> (#[trigger] new_chunks[i]).0 != shard_id {
            assert forall|i: int| 0 <= i < before.len() implies (#[trigger] before[i]).0
                != shard_id by {
                assert(new_chunks[i].0 != shard_id);
            }
            assert(new_chunks[last].0 != shard_id);
        }
    }
}

/// As long as the client may wait, chunks are asked for exactly if enough approvals have come: one
/// less than there are validators, where the client produced the head or is the only validator
/// there is, and two less otherwise. Once it may wait no longer, chunks are asked for in any case.
/// A block that is put off is taken up again when the wait is over.
pub proof fn law_block_waits_for_all_other_validators(
    turn: Turn,
    client: ClientActor,
    head: Tip,
    epoch_hash: CryptoHash,
    prev: BlockHeader,
    validators: Vec<AccountId>,
    last_proposer: AccountId,
    now: Nanos,
)
    requires
        validators@.len() > 0,
    ensures
        ({
            let came = client.approvals@.len() as int;
            let limit = client.config.max_block_production_delay;
            let since = client.last_block_processed;
            let may_wait = limit > 0 && now < since + limit;
            let is_own_head = client.block_producer matches Some(me) && me@ == last_proposer@;
            let r = turn.after_validators(
                client,
                head,
                epoch_hash,
                prev,
                Ok(validators),
                Ok(last_proposer),
                now,
            );
            &&& may_wait && (is_own_head || validators@.len() == 1) ==> (r is AskChunks <==> came
                >= validators@.len() - 1)
            &&& may_wait && !is_own_head && validators@.len() > 1 ==> (r is AskChunks <==> came
                >= validators@.len() - 2)
            &&& !may_wait ==> r is AskChunks
            &&& r matches Production::AskChunks { prev_hash, head: at, epoch_hash: epoch } ==> {
                &&& prev_hash == prev.hash
                &&& at == head
                &&& epoch == epoch_hash
            }
            &&& !(r is AskChunks) ==> {
                &&& r matches Production::Later(run_later)
                &&& now >= since ==> now + run_later.delay == since + limit
                &&& now < since ==> run_later.delay == limit
                &&& run_later.task matches Task::ProduceBlock {
                    block_hash,
                    last_height,
                    next_height,
                }
                &&& block_hash == head.last_block_hash
                &&& last_height == turn.last_height
                &&& next_height == turn.next_height
            }
        }),
{
}

/// More approvals never put a block off.
pub proof fn law_approvals_only_help(
    turn: Turn,
    client: ClientActor,
    better: ClientActor,
    head: Tip,
    epoch_hash: CryptoHash,
    prev: BlockHeader,
    validators: Vec<AccountId>,
    last_proposer: AccountId,
    now: Nanos,
)
    requires
        better == (ClientActor { approvals: better.approvals, ..client }),
        better.approvals@.len() >= client.approvals@.len(),
        turn.after_validators(
            client,
            head,
            epoch_hash,
            prev,
            Ok(validators),
            Ok(last_proposer),
            now,
        ) is AskChunks,
    ensures
        turn.after_validators(
            better,
            head,
            epoch_hash,
            prev,
            Ok(validators),
            Ok(last_proposer),
            now,
        ) is AskChunks,
{
}

/// A turn comes to nothing where the validators or the producer of the head are not to be had; the
/// reason is handed on as it is, that for the validators first.
pub proof fn law_unknown_validators_end_the_turn(
    turn: Turn,
    client: ClientActor,
    head: Tip,
    epoch_hash: CryptoHash,
    prev: BlockHeader,
    validators: Result<Vec<AccountId>, String>,
    last_proposer: Result<AccountId, String>,
    now: Nanos,
)
    ensures
        ({
            let r = turn.after_validators(
                client,
                head,
                epoch_hash,
                prev,
                validators,
                last_proposer,
                now,
            );
            &&& r is Fail <==> validators is Err || last_proposer is Err
            &&& validators matches Err(reason) ==> r == Production::Fail(Error::Other(reason))
            &&& validators is Ok ==> (last_proposer matches Err(reason) ==> r == Production::Fail(
                Error::Other(reason),
            ))
        }),
{
}

/// A turn is taken up exactly if the client has an account and the head is still at the height
/// at which the turn was given: then the producer of the block is asked for, at the turn's height
/// on top of that very head. A turn for a head that has moved on ends without an error, and a
/// client without an account has none to take.
pub proof fn law_turn_holds_for_one_head(
    turn: Turn,
    client: ClientActor,
    head: Result<Tip, ChainError>,
)
    ensures
        ({
            let r = turn.after_head(client, head);
            &&& r is AskProposer <==> client.block_producer is Some && (head matches Ok(tip)
                && tip.height == turn.last_height)
            &&& r is Stop <==> client.block_producer is Some && (head matches Ok(tip) && tip.height
                != turn.last_height)
            &&& r matches Production::AskProposer { block_hash, height, head: at } ==> {
                &&& head == Ok::<Tip, ChainError>(at)
                &&& block_hash == at.last_block_hash
                &&& height == turn.next_height
            }
            &&& client.block_producer is None ==> r == Production::Fail(
                Error::BlockProducer(ProducerFault::NoBlockProducer),
            )
            &&& client.block_producer is Some ==> (head matches Err(error) ==> r
                == Production::Fail(Error::Chain(error)))
        }),
{
}

/// A turn goes on exactly if the block is the client's own account's to produce. The header that is
/// then asked for is the head's.
pub proof fn law_turn_is_the_proposers(
    turn: Turn,
    client: ClientActor,
    head: Tip,
    epoch_hash: CryptoHash,
    proposer: Result<AccountId, String>,
)
    ensures
        ({
            let r = turn.after_proposer(client, head, epoch_hash, proposer);
            match (proposer, client.block_producer) {
                (Ok(proposer), Some(me)) => {
                    &&& r is AskPrevious <==> me@ == proposer@
                    &&& r is Stop <==> me@ != proposer@
                    &&& r matches Production::AskPrevious { block_hash, head: at, epoch_hash: e }
                        ==> block_hash == head.last_block_hash && at == head && e == epoch_hash
                },
                (Ok(_), None) => r is Stop,
                (Err(reason), _) => r == Production::Fail(Error::Other(reason)),
            }
        }),
{
}

/// The validators are asked for, in the head's own epoch and with the producer of the head, exactly
/// if the head's header is known and either the block does not begin an epoch or the chain has
/// caught up with it; whether it has is asked only of a block that begins one.
pub proof fn law_epoch_begins_only_when_caught_up(
    turn: Turn,
    head: Tip,
    epoch_hash: CryptoHash,
    prev: BlockHeader,
    is_epoch_start: Result<bool, String>,
    caught_up: Result<bool, ChainError>,
)
    ensures
        turn.after_previous(head, epoch_hash, Ok(prev)) matches Production::AskEpochStart {
            parent_hash,
            height,
            head: at,
            epoch_hash: e,
            prev: p,
        } && parent_hash == head.last_block_hash && height == turn.next_height && at == head && e
            == epoch_hash && p == prev,
        forall|error: ChainError| #[trigger]
            turn.after_previous(head, epoch_hash, Err(error)) == Production::Fail(
                Error::Chain(error),
            ),
        ({
            let r = turn.after_epoch_start(head, epoch_hash, prev, is_epoch_start);
            &&& r is AskCaughtUp <==> is_epoch_start == Ok::<bool, String>(true)
            &&& r is AskValidators <==> is_epoch_start == Ok::<bool, String>(false)
            &&& r matches Production::AskCaughtUp {
                prev_prev_hash,
                prev_hash,
                head: at,
                epoch_hash: e,
                prev: p,
            } ==> prev_prev_hash == prev.prev_hash && prev_hash == prev.hash && at == head && e
                == epoch_hash && p == prev
            &&& r matches Production::AskValidators {
                in_epoch,
                last_height,
                head: at,
                epoch_hash: e,
                prev: p,
            } ==> in_epoch == head.epoch_hash && last_height == turn.last_height && at == head && e
                == epoch_hash && p == prev
            &&& is_epoch_start matches Err(reason) ==> r == Production::Fail(
                Error::Chain(ChainError::Failure(reason)),
            )
        }),
        ({
            let r = turn.after_caught_up(head, epoch_hash, prev, caught_up);
            &&& r is AskValidators <==> caught_up == Ok::<bool, ChainError>(true)
            &&& r matches Production::AskValidators {
                in_epoch,
                last_height,
                head: at,
                epoch_hash: e,
                prev: p,
            } ==> in_epoch == head.epoch_hash && last_height == turn.last_height && at == head && e
                == epoch_hash && p == prev
            &&& caught_up == Ok::<bool, ChainError>(false) ==> r == Production::Fail(
                Error::Chain(ChainError::Orphan),
            )
            &&& caught_up matches Err(error) ==> r == Production::Fail(Error::Chain(error))
        }),
{
}

/// A block is left out exactly if there is no new chunk for it and empty blocks are not wanted; the
/// turn after it is then looked at, on top of the same head. Otherwise the head is what the block
/// is built on, and all the new chunks go on to it.
pub proof fn law_block_without_chunks_is_left_out(
    turn: Turn,
    client: ClientActor,
    head: Tip,
    epoch_hash: CryptoHash,
    new_chunks: Vec<(ShardId, ShardChunkHeader)>,
)
    ensures
        match turn.after_chunks(client, head, epoch_hash, new_chunks) {
            Production::Skip(wish) => {
                &&& new_chunks@.len() == 0
                &&& !client.config.produce_empty_blocks
                &&& wish.block_hash == head.last_block_hash
                &&& wish.last_height == head.height
                &&& wish.check_height == turn.next_height
            },
            Production::AskBlock { block_hash, epoch_hash: e, new_chunks: chunks } => {
                &&& new_chunks@.len() > 0 || client.config.produce_empty_blocks
                &&& block_hash == head.last_block_hash
                &&& e == epoch_hash
                &&& chunks == new_chunks
            },
            _ => false,
        },
{
}

/// The totals over a block's chunks grow with each chunk by what that chunk has: the gas it used,
/// the gas it may use, and its proposals, which come behind those of the chunks before.
pub proof fn law_each_chunk_adds_to_the_totals(
    chunks: Seq<ShardChunkHeader>,
    chunk: ShardChunkHeader,
)
    ensures
        total_gas_used(Seq::empty()) == 0,
        total_gas_limit(Seq::empty()) == 0,
        all_proposals(Seq::empty()).len() == 0,
        total_gas_used(chunks.push(chunk)) == total_gas_used(chunks) + chunk.inner.gas_used,
        total_gas_limit(chunks.push(chunk)) == total_gas_limit(chunks) + chunk.inner.gas_limit,
        all_proposals(chunks.push(chunk)) == all_proposals(chunks)
            + chunk.validator_proposals@,
{
    assert(chunks.push(chunk).drop_last() =~= chunks);
}

/// A new block names the height of the turn and the header and epoch it was given, takes all
/// approvals, takes the proposals of the chunks before it, and its gas used and allowed are the
/// averages of theirs, rounded down.
pub proof fn law_new_block_sums_up_the_chunks_before(
    block: NewBlock,
    turn: Turn,
    approvals: Map<usize, Signature>,
    epoch_hash: CryptoHash,
    prev: BlockHeader,
    prev_block: Block,
    new_chunks: Seq<(ShardId, ShardChunkHeader)>,
)
    requires
        is_new_block(block, turn, approvals, epoch_hash, prev, prev_block, new_chunks),
        prev_block.chunks@.len() > 0,
        shards_exist(new_chunks, prev_block.chunks@.len() as int),
    ensures
        ({
            let n = prev_block.chunks@.len() as int;
            let used = total_gas_used(prev_block.chunks@);
            let allowed = total_gas_limit(prev_block.chunks@);
            &&& block.height == turn.next_height
            &&& block.prev_header == prev
            &&& block.epoch_hash == epoch_hash
            &&& block.approvals@ == approvals
            &&& block.validator_proposals@ == all_proposals(prev_block.chunks@)
            &&& block.gas_used * n <= used < (block.gas_used + 1) * n
            &&& block.gas_limit * n <= allowed < (block.gas_limit + 1) * n
            &&& block.chunks@.len() == n
            &&& forall|shard_id: ShardId|
                shard_id < n && (forall|i: int|
                    0 <= i < new_chunks.len() ==> (#[trigger] new_chunks[i]).0 != shard_id)
                    ==> #[trigger] block.chunks@[shard_id as int]@
                    == prev_block.chunks@[shard_id as int]@
        }),
{
    let n = prev_block.chunks@.len() as int;
    let used = total_gas_used(prev_block.chunks@);
    let allowed = total_gas_limit(prev_block.chunks@);
    vstd::arithmetic::div_mod::lemma_fundamental_div_mod(used, n);
    vstd::arithmetic::div_mod::lemma_fundamental_div_mod(allowed, n);
    vstd::arithmetic::mul::lemma_mul_is_distributive_add_other_way(n, used / n, 1);
    vstd::arithmetic::mul::lemma_mul_is_distributive_add_other_way(n, allowed / n, 1);
    vstd::arithmetic::mul::lemma_mul_is_commutative(n, used / n);
    vstd::arithmetic::mul::lemma_mul_is_commutative(n, allowed / n);
    let before = chunks_view(prev_block.chunks@);
    let after = chunks_view(block.chunks@);
    law_new_block_keeps_other_chunks(before, new_chunks, turn.next_height, 0);
    assert(block.chunks@.len() == after.len());
    assert forall|shard_id: ShardId|
        shard_id < n && (forall|i: int|
            0 <= i < new_chunks.len() ==> (#[trigger] new_chunks[i]).0
                != shard_id) implies #[trigger] block.chunks@[shard_id as int]@
        == prev_block.chunks@[shard_id as int]@ by {
        law_new_block_keeps_other_chunks(before, new_chunks, turn.next_height, shard_id);
        assert(after[shard_id as int] == block.chunks@[shard_id as int]@);
        assert(before[shard_id as int] == prev_block.chunks@[shard_id as int]@);
    }
}

/// A chunk that is put into a block is noted as included at the block's height, and is otherwise
/// what it was.
pub proof fn law_inclusion_changes_the_height_alone(
    chunk: ShardChunkHeaderView,
    height: BlockHeight,
)
    ensures
        ({
            let r = included_at(chunk, height);
            &&& r.inner.height_included == height
            &&& r.inner.chunk_hash == chunk.inner.chunk_hash
            &&& r.inner.prev_block_hash == chunk.inner.prev_block_hash
            &&& r.inner.prev_state_root == chunk.inner.prev_state_root
            &&& r.inner.tx_root == chunk.inner.tx_root
            &&& r.inner.prev_outgoing_receipts_root == chunk.inner.prev_outgoing_receipts_root
            &&& r.inner.height_created == chunk.inner.height_created
            &&& r.inner.shard_id == chunk.inner.shard_id
            &&& r.inner.gas_used == chunk.inner.gas_used
            &&& r.inner.gas_limit == chunk.inner.gas_limit
            &&& r.validator_proposals == chunk.validator_proposals
        }),
{
}

} // verus!
