//! Producing a chunk when it is the client's turn.
//!
//! As with blocks, each answer leads to the next question or to an end.
use vstd::prelude::*;
use crate::client::accepted::ChunkQuestion;
use crate::client::actor::ClientActor;
use crate::ancestry::{ancestor, lemma_ancestor_from_parent};
use crate::client::errors::{ChainError, Error, ProducerFault};
use crate::crypto::SignedTransaction;
use crate::stateless_validation::receipts::Receipt;
use crate::stateless_validation::validation::ChunkExtra;
use crate::types::{BlockHeader, BlockHeight, AccountId, CryptoHash, Gas, ShardId, ValidatorStake};

verus! {

/// A chunk that is to be produced.
#[derive(Clone, Copy, Debug, PartialEq, Eq)]
pub struct ChunkTurn {
    pub prev_block_hash: CryptoHash,
    /// The epoch that the chunk is in.
    pub epoch_hash: CryptoHash,
    pub next_height: BlockHeight,
    pub shard_id: ShardId,
    /// Height that the shard's last chunk was created for.
    pub last_created: BlockHeight,
    /// Height of the block that the shard's last chunk first stood in.
    pub last_included: BlockHeight,
}

/// What has been gathered for a chunk, on the way to its receipts.
#[derive(Debug)]
pub struct ChunkDraft {
    pub chunk_extra: ChunkExtra,
    pub transactions: Vec<SignedTransaction>,
    /// The block to look at for receipts.
    pub receipts_block_hash: CryptoHash,
}

/// What a new chunk is made of.
#[derive(Debug)]
pub struct NewChunk {
    pub prev_block_hash: CryptoHash,
    pub state_root: CryptoHash,
    pub height: BlockHeight,
    pub shard_id: ShardId,
    pub gas_used: Gas,
    pub gas_limit: Gas,
    pub validator_proposals: Vec<ValidatorStake>,
    pub transactions: Vec<SignedTransaction>,
    pub receipts: Vec<Receipt>,
}

/// How far the production of a chunk has come: a question to answer next, or an end.
#[derive(Debug)]
pub enum ChunkProduction {
    /// Who is to produce the chunk?
    AskProposer(ChunkQuestion),
    /// What did the shard's last chunk come to?
    AskChunkExtra { shard_id: ShardId },
    /// Which transactions of the shard are ready, up to this weight?
    AskTransactions { shard_id: ShardId, expected_weight: u32, chunk_extra: ChunkExtra },
    /// What is the header of the block to look at for receipts, which the draft names?
    AskHeader(ChunkDraft),
    /// Which receipts did the shard's last chunk leave behind in that block?
    AskReceipts { shard_id: ShardId, draft: ChunkDraft },
    /// The chunk is somebody else's to produce.
    Stop,
    Fail(Error),
}

impl ChunkTurn {
    /// The block's height does not fall between the creation of the shard's last chunk and its
    /// inclusion.
    pub open spec fn is_sound_height(self, height: BlockHeight) -> bool {
        height < self.last_created || height >= self.last_included
    }

    /// How the turn goes on once the header of the block to look at is known: the receipts are in
    /// the block that the shard's last chunk first stood in.
    pub open spec fn after_header(
        self,
        draft: ChunkDraft,
        header: Result<BlockHeader, ChainError>,
    ) -> ChunkProduction {
        match header {
            Err(error) => ChunkProduction::Fail(Error::Chain(error)),
            Ok(header) => if header.height == self.last_included {
                ChunkProduction::AskReceipts { shard_id: self.shard_id, draft }
            } else {
                ChunkProduction::AskHeader(
                    ChunkDraft { receipts_block_hash: header.prev_hash, ..draft },
                )
            },
        }
    }

    /// How it has gone on after up to `n` headers of a chain.
    pub open spec fn after_headers(
        self,
        draft: ChunkDraft,
        chain: Map<CryptoHash, BlockHeader>,
        n: nat,
    ) -> ChunkProduction
        decreases n,
    {
        if n == 0 {
            ChunkProduction::AskHeader(draft)
        } else {
            match self.after_header(draft, Ok(chain[draft.receipts_block_hash])) {
                ChunkProduction::AskHeader(draft) => self.after_headers(
                    draft,
                    chain,
                    (n - 1) as nat,
                ),
                other => other,
            }
        }
    }

    /// How the turn goes on once the transactions that are ready are known.
    pub open spec fn after_transactions(
        self,
        chunk_extra: ChunkExtra,
        transactions: Result<Vec<SignedTransaction>, Error>,
    ) -> ChunkProduction {
        match transactions {
            Ok(transactions) => ChunkProduction::AskHeader(
                ChunkDraft {
                    chunk_extra,
                    transactions,
                    receipts_block_hash: self.prev_block_hash,
                },
            ),
            Err(error) => ChunkProduction::Fail(error),
        }
    }

    /// The chunk that the turn ends with.
    pub open spec fn is_new_chunk(
        self,
        chunk: NewChunk,
        draft: ChunkDraft,
        receipts: Result<Vec<Receipt>, ChainError>,
    ) -> bool {
        &&& chunk.prev_block_hash == self.prev_block_hash
        &&& chunk.state_root == draft.chunk_extra.state_root
        &&& chunk.height == self.next_height
        &&& chunk.shard_id == self.shard_id
        &&& chunk.gas_used == draft.chunk_extra.gas_used
        &&& chunk.gas_limit == draft.chunk_extra.gas_limit
        &&& chunk.validator_proposals == draft.chunk_extra.validator_proposals
        &&& chunk.transactions == draft.transactions
        &&& chunk.receipts@ == (match receipts {
            Ok(receipts) => receipts@,
            Err(_) => Seq::empty(),
        })
    }

    /// Goes on with a turn, given the transactions that are ready. The search for receipts begins
    /// at the block before the chunk.
    pub fn transactions_answered(
        &self,
        chunk_extra: ChunkExtra,
        transactions: Result<Vec<SignedTransaction>, Error>,
    ) -> (r: ChunkProduction)
        ensures
            r == self.after_transactions(chunk_extra, transactions),
    {
        match transactions {
            Ok(transactions) => ChunkProduction::AskHeader(
                ChunkDraft {
                    chunk_extra,
                    transactions,
                    receipts_block_hash: self.prev_block_hash,
                },
            ),
            Err(error) => ChunkProduction::Fail(error),
        }
    }

    /// Goes on with a turn, given the header of the block to look at for receipts.
    pub fn header_answered(
        &self,
        draft: ChunkDraft,
        header: Result<BlockHeader, ChainError>,
    ) -> (r: ChunkProduction)
        requires
            header matches Ok(header) ==> self.is_sound_height(header.height),
        ensures
            r == self.after_header(draft, header),
    {
        match header {
            Ok(header) => {
                if header.height == self.last_included {
                    ChunkProduction::AskReceipts { shard_id: self.shard_id, draft }
                } else {
                    ChunkProduction::AskHeader(
                        ChunkDraft {
                            chunk_extra: draft.chunk_extra,
                            transactions: draft.transactions,
                            receipts_block_hash: header.prev_hash,
                        },
                    )
                }
            },
            Err(error) => ChunkProduction::Fail(Error::Chain(error)),
        }
    }

    /// Ends a turn, given the receipts. Where there are none to be had, the chunk is produced
    /// without.
    pub fn receipts_answered(
        &self,
        draft: ChunkDraft,
        receipts: Result<Vec<Receipt>, ChainError>,
    ) -> (r: NewChunk)
        ensures
            self.is_new_chunk(r, draft, receipts),
            r.prev_block_hash == self.prev_block_hash,
            r.state_root == draft.chunk_extra.state_root,
            r.height == self.next_height,
            r.shard_id == self.shard_id,
            r.gas_used == draft.chunk_extra.gas_used,
            r.gas_limit == draft.chunk_extra.gas_limit,
            r.validator_proposals == draft.chunk_extra.validator_proposals,
            r.transactions == draft.transactions,
            r.receipts@ == (match receipts {
                Ok(receipts) => receipts@,
                Err(_) => Seq::empty(),
            }),
    {
        let receipts = match receipts {
            Ok(receipts) => receipts,
            Err(_) => Vec::new(),
        };
        NewChunk {
            prev_block_hash: self.prev_block_hash,
            state_root: draft.chunk_extra.state_root,
            height: self.next_height,
            shard_id: self.shard_id,
            gas_used: draft.chunk_extra.gas_used,
            gas_limit: draft.chunk_extra.gas_limit,
            validator_proposals: draft.chunk_extra.validator_proposals,
            transactions: draft.transactions,
            receipts,
        }
    }

    /// The outcome of a turn, given whether the new chunk could be encoded.
    pub fn encoding_answered<T>(encoded: Result<T, ()>) -> (r: Result<T, Error>)
        ensures
            r == (match encoded {
                Ok(chunk) => Ok::<T, Error>(chunk),
                Err(()) => Err::<T, Error>(Error::ChunkProducer(ProducerFault::Serialization)),
            }),
    {
        match encoded {
            Ok(chunk) => Ok(chunk),
            Err(()) => Err(Error::ChunkProducer(ProducerFault::Serialization)),
        }
    }
}

impl ClientActor {
    /// How a turn to produce a chunk begins.
    pub open spec fn chunk_turn_begun(self, turn: ChunkTurn) -> ChunkProduction {
        match self.block_producer {
            None => ChunkProduction::Fail(Error::ChunkProducer(ProducerFault::NoBlockProducer)),
            Some(_) => ChunkProduction::AskProposer(
                ChunkQuestion {
                    epoch_hash: turn.epoch_hash,
                    height: turn.next_height,
                    shard_id: turn.shard_id,
                },
            ),
        }
    }

    /// How it goes on once the chunk's producer is known.
    pub open spec fn after_chunk_proposer(
        self,
        turn: ChunkTurn,
        chunk_proposer: Seq<char>,
    ) -> ChunkProduction {
        if self.produces_for(chunk_proposer) {
            ChunkProduction::AskChunkExtra { shard_id: turn.shard_id }
        } else {
            ChunkProduction::Stop
        }
    }

    /// How it goes on once it is known what the shard's last chunk came to.
    pub open spec fn after_chunk_extra(
        self,
        turn: ChunkTurn,
        chunk_extra: Result<ChunkExtra, String>,
    ) -> ChunkProduction {
        match chunk_extra {
            Ok(chunk_extra) => ChunkProduction::AskTransactions {
                shard_id: turn.shard_id,
                expected_weight: self.config.block_expected_weight,
                chunk_extra,
            },
            Err(reason) => ChunkProduction::Fail(
                Error::ChunkProducer(ProducerFault::NoChunkExtra(reason)),
            ),
        }
    }
}

impl ClientActor {
    /// Takes up a turn to produce a chunk. Whose chunk it is is asked for once more.
    pub fn produce_chunk(&self, turn: &ChunkTurn) -> (r: ChunkProduction)
        ensures
            r == self.chunk_turn_begun(*turn),
    {
        if self.block_producer.is_none() {
            return ChunkProduction::Fail(Error::ChunkProducer(ProducerFault::NoBlockProducer));
        }
        ChunkProduction::AskProposer(
            ChunkQuestion {
                epoch_hash: turn.epoch_hash,
                height: turn.next_height,
                shard_id: turn.shard_id,
            },
        )
    }

    /// Goes on with a turn, given the account that is to produce the chunk.
    pub fn chunk_proposer_answered(
        &self,
        turn: &ChunkTurn,
        chunk_proposer: &AccountId,
    ) -> (r: ChunkProduction)
        ensures
            r == self.after_chunk_proposer(*turn, chunk_proposer@),
    {
        if self.is_producer(chunk_proposer) {
            ChunkProduction::AskChunkExtra { shard_id: turn.shard_id }
        } else {
            ChunkProduction::Stop
        }
    }

    /// Goes on with a turn, given what the shard's last chunk came to.
    pub fn chunk_extra_answered(
        &self,
        turn: &ChunkTurn,
        chunk_extra: Result<ChunkExtra, String>,
    ) -> (r: ChunkProduction)
        ensures
            r == self.after_chunk_extra(*turn, chunk_extra),
    {
        match chunk_extra {
            Ok(chunk_extra) => ChunkProduction::AskTransactions {
                shard_id: turn.shard_id,
                expected_weight: self.config.block_expected_weight,
                chunk_extra,
            },
            Err(reason) => ChunkProduction::Fail(
                Error::ChunkProducer(ProducerFault::NoChunkExtra(reason)),
            ),
        }
    }
}

/// The search for receipts ends at the nearest block, on the way back from the block before the
/// chunk, that stands at the height at which the shard's last chunk was included; it ends as soon
/// as that block has been seen, and what was gathered before stays as it was.
pub proof fn law_receipts_come_from_last_inclusion(
    turn: ChunkTurn,
    draft: ChunkDraft,
    chain: Map<CryptoHash, BlockHeader>,
    n: nat,
)
    requires
        chain[ancestor(chain, draft.receipts_block_hash, n)].height == turn.last_included,
        forall|i: nat|
            i < n ==> chain[#[trigger] ancestor(chain, draft.receipts_block_hash, i)].height
                != turn.last_included,
    ensures
        turn.after_headers(draft, chain, n + 1) == (ChunkProduction::AskReceipts {
            shard_id: turn.shard_id,
            draft: ChunkDraft {
                receipts_block_hash: ancestor(chain, draft.receipts_block_hash, n),
                ..draft
            },
        }),
        turn.after_headers(draft, chain, n) is AskHeader,
    decreases n,
{
    let start = draft.receipts_block_hash;
    assert(ancestor(chain, start, 0) == start);
    if n > 0 {
        let next = ChunkDraft { receipts_block_hash: chain[start].prev_hash, ..draft };
        let m = (n - 1) as nat;
        lemma_ancestor_from_parent(chain, start, m);
        assert forall|i: nat| i < m implies chain[#[trigger] ancestor(
            chain,
            next.receipts_block_hash,
            i,
        )].height != turn.last_included by {
            lemma_ancestor_from_parent(chain, start, i);
            assert(chain[ancestor(chain, start, i + 1)].height != turn.last_included);
        }
        law_receipts_come_from_last_inclusion(turn, next, chain, m);
        assert(turn.after_header(draft, Ok(chain[start])) == ChunkProduction::AskHeader(next));
    }
}

/// The receipts are asked for exactly if the block that was looked at stands at the height at which
/// the shard's last chunk was included, and then with what was gathered as it is; otherwise the
/// block's parent is looked at next, and nothing else of the draft changes.
pub proof fn law_search_goes_to_the_parent(
    turn: ChunkTurn,
    draft: ChunkDraft,
    header: Result<BlockHeader, ChainError>,
)
    ensures
        match turn.after_header(draft, header) {
            ChunkProduction::AskReceipts { shard_id, draft: kept } => {
                &&& header is Ok
                &&& header->Ok_0.height == turn.last_included
                &&& shard_id == turn.shard_id
                &&& kept == draft
            },
            ChunkProduction::AskHeader(next) => {
                &&& header is Ok
                &&& header->Ok_0.height != turn.last_included
                &&& next.receipts_block_hash == header->Ok_0.prev_hash
                &&& next.chunk_extra == draft.chunk_extra
                &&& next.transactions == draft.transactions
            },
            ChunkProduction::Fail(Error::Chain(error)) => header == Err::<BlockHeader, ChainError>(
                error,
            ),
            _ => false,
        },
{
}

/// A turn to produce a chunk is taken up exactly if the client has an account: it is then asked
/// once more whose chunk it is, of that shard at that height of that epoch. It goes on exactly if
/// the chunk is that account's.
pub proof fn law_chunk_is_produced_by_its_proposer(
    client: ClientActor,
    turn: ChunkTurn,
    chunk_proposer: Seq<char>,
)
    ensures
        match client.chunk_turn_begun(turn) {
            ChunkProduction::AskProposer(question) => {
                &&& client.block_producer is Some
                &&& question.epoch_hash == turn.epoch_hash
                &&& question.height == turn.next_height
                &&& question.shard_id == turn.shard_id
            },
            ChunkProduction::Fail(error) => {
                &&& client.block_producer is None
                &&& error == Error::ChunkProducer(ProducerFault::NoBlockProducer)
            },
            _ => false,
        },
        match client.after_chunk_proposer(turn, chunk_proposer) {
            ChunkProduction::AskChunkExtra { shard_id } => {
                &&& shard_id == turn.shard_id
                &&& client.block_producer is Some
                &&& client.block_producer->Some_0@ == chunk_proposer
            },
            ChunkProduction::Stop => client.block_producer is None
                || client.block_producer->Some_0@ != chunk_proposer,
            _ => false,
        },
{
}

/// What is gathered for a chunk is handed along as it is: what the shard's last chunk came to, then
/// the shard's transactions up to the weight that the client is set to. The search for receipts
/// begins at the block before the chunk. What cannot be had ends the turn with the reason.
pub proof fn law_draft_is_gathered_step_by_step(
    client: ClientActor,
    turn: ChunkTurn,
    chunk_extra: ChunkExtra,
    reason: String,
    transactions: Result<Vec<SignedTransaction>, Error>,
)
    ensures
        client.after_chunk_extra(turn, Ok(chunk_extra)) matches ChunkProduction::AskTransactions {
            shard_id,
            expected_weight,
            chunk_extra: kept,
        } && shard_id == turn.shard_id && expected_weight == client.config.block_expected_weight
            && kept == chunk_extra,
        client.after_chunk_extra(turn, Err(reason)) == ChunkProduction::Fail(
            Error::ChunkProducer(ProducerFault::NoChunkExtra(reason)),
        ),
        match turn.after_transactions(chunk_extra, transactions) {
            ChunkProduction::AskHeader(draft) => {
                &&& draft.chunk_extra == chunk_extra
                &&& transactions == Ok::<Vec<SignedTransaction>, Error>(draft.transactions)
                &&& draft.receipts_block_hash == turn.prev_block_hash
            },
            ChunkProduction::Fail(error) => transactions == Err::<Vec<SignedTransaction>, Error>(
                error,
            ),
            _ => false,
        },
{
}

/// A new chunk is for the turn's shard and height, on the turn's block. It names the state, the gas
/// and the proposals that the shard's last chunk came to, and holds the transactions that were
/// gathered and the receipts, or none where there were none to be had.
pub proof fn law_new_chunk_says_what_the_last_one_came_to(
    turn: ChunkTurn,
    chunk: NewChunk,
    draft: ChunkDraft,
    receipts: Result<Vec<Receipt>, ChainError>,
)
    requires
        turn.is_new_chunk(chunk, draft, receipts),
    ensures
        chunk.prev_block_hash == turn.prev_block_hash,
        chunk.height == turn.next_height,
        chunk.shard_id == turn.shard_id,
        chunk.state_root == draft.chunk_extra.state_root,
        chunk.gas_used == draft.chunk_extra.gas_used,
        chunk.gas_limit == draft.chunk_extra.gas_limit,
        chunk.validator_proposals == draft.chunk_extra.validator_proposals,
        chunk.transactions == draft.transactions,
        receipts is Ok ==> chunk.receipts@ == receipts->Ok_0@,
        receipts is Err ==> chunk.receipts@.len() == 0,
{
}

} // verus!
