//! The part of a chunk's validation that looks at the chain: which receipts and transactions the
//! last chunk had to apply.
use vstd::prelude::*;
use crate::crypto::{
    hash_of, merkle_root_of_transactions, merklize_transactions, transactions_view,
    SignedTransaction,
};
use crate::stateless_validation::errors::{Error, WitnessFault};
use crate::stateless_validation::history::{ChunkHistory, HistoryView};
use crate::stateless_validation::receipts::{
    hash_receipts, receipts_encoding, receipts_view, Receipt,
};
use crate::stateless_validation::source_receipts::{
    law_shuffles_keep_receipts, lemma_encodable_together, receipts_in_order, sent_receipts,
    shuffles_fit, source_receipts_fault, validate_source_receipt_proofs,
};
use crate::stateless_validation::witness::{
    clone_nodes, clone_transactions, nodes_view, ChunkStateWitnessInner, PartialState,
};
use crate::types::{Balance, BlockHeight, CryptoHash, ShardChunkHeader};

verus! {

/// What the runtime has to know of a block in order to apply a chunk in it.
#[derive(Clone, Copy, Debug, PartialEq, Eq)]
pub struct ApplyChunkBlockContext {
    pub block_hash: CryptoHash,
    pub prev_block_hash: CryptoHash,
    pub height: BlockHeight,
    pub block_timestamp: u64,
    pub gas_price: Balance,
    pub random_seed: CryptoHash,
}

/// The state that a transition is run on: recorded nodes, or nothing else.
#[derive(Debug)]
pub struct StorageContext {
    pub recorded_nodes: PartialState,
    pub record_storage: bool,
}

/// What to run in order to apply a block's new chunk.
#[derive(Debug)]
pub struct NewChunkData {
    pub chunk_header: ShardChunkHeader,
    pub transactions: Vec<SignedTransaction>,
    pub receipts: Vec<Receipt>,
    /// The states that a split of the shard leads to, if the shard is split in this block.
    pub resharding_state_roots: Option<Vec<CryptoHash>>,
    pub block: ApplyChunkBlockContext,
    pub is_first_block_with_chunk_of_version: bool,
    pub storage_context: StorageContext,
}

/// What is left to run once a witness has been held against the chain.
#[derive(Debug)]
pub struct PreValidationOutput {
    pub main_transition_params: NewChunkData,
    /// For each block after the last new chunk, oldest first.
    pub implicit_transition_params: Vec<ApplyChunkBlockContext>,
}

/// The state on which proposed transactions are checked.
#[derive(Debug)]
pub struct RuntimeStorageConfig {
    pub state_root: CryptoHash,
    pub use_flat_storage: bool,
    pub recorded_nodes: PartialState,
    pub record_storage: bool,
}

/// A witness that can be held against a walk through the chain.
pub open spec fn can_pre_validate(
    state_witness: ChunkStateWitnessInner,
    history: ChunkHistory,
    shuffles: Seq<Vec<usize>>,
) -> bool {
    let blocks = history.blocks_after_last_last_chunk@;
    &&& history.wf()
    &&& history.is_complete()
    &&& history.shard_id == state_witness.chunk_header.inner.shard_id
    &&& shuffles_fit(shuffles, blocks)
    &&& sent_receipts(state_witness.source_receipt_proofs@, blocks).len() <= u32::MAX
}

/// The last new chunk of the shard before the one that is validated.
pub open spec fn last_chunk(history: HistoryView) -> ShardChunkHeader {
    history.blocks_after_last_last_chunk[0].chunks@[history.shard_id as int]
}

/// A witness agrees with the chain: its proofs are in order, the receipts in them have the hash
/// that it names, and its transactions have the root that the last new chunk names.
pub open spec fn pre_validation_passes(
    state_witness: ChunkStateWitnessInner,
    history: HistoryView,
    shuffles: Seq<Vec<usize>>,
) -> bool {
    let proofs = state_witness.source_receipt_proofs@;
    let blocks = history.blocks_after_last_last_chunk;
    &&& source_receipts_fault(proofs, blocks, history.shard_id) is None
    &&& hash_of(receipts_encoding(receipts_in_order(proofs, blocks, shuffles)))
        == state_witness.applied_receipts_hash.0@
    &&& merkle_root_of_transactions(transactions_view(state_witness.transactions@)) == Some(
        last_chunk(history).inner.tx_root.0@,
    )
}

/// What holding a witness against the chain comes to: the receipts in the order in which they are
/// applied, or the first thing that does not agree. The proofs come first, then the hash of the
/// receipts, then the root of the transactions.
pub open spec fn pre_validated(
    state_witness: ChunkStateWitnessInner,
    history: HistoryView,
    shuffles: Seq<Vec<usize>>,
    r: Result<Vec<Receipt>, Error>,
) -> bool {
    let proofs = state_witness.source_receipt_proofs@;
    let blocks = history.blocks_after_last_last_chunk;
    let fault = source_receipts_fault(proofs, blocks, history.shard_id);
    let receipts = receipts_in_order(proofs, blocks, shuffles);
    let receipts_hash = hash_of(receipts_encoding(receipts));
    let receipts_agree = receipts_hash == state_witness.applied_receipts_hash.0@;
    let tx_root = merkle_root_of_transactions(
        transactions_view(state_witness.transactions@),
    );
    let expected_root = last_chunk(history).inner.tx_root;
    let transactions_agree = tx_root == Some(expected_root.0@);
    match r {
        Ok(found) => {
            &&& fault is None
            &&& receipts_agree
            &&& transactions_agree
            &&& receipts_view(found@) == receipts
        },
        Err(Error::InvalidChunkStateWitness(reason)) => {
            ||| fault == Some(reason)
            ||| {
                &&& fault is None
                &&& !receipts_agree
                &&& reason matches WitnessFault::AppliedReceiptsHash { computed, expected }
                &&& computed.0@ == receipts_hash
                &&& expected == state_witness.applied_receipts_hash
            }
            ||| {
                &&& fault is None
                &&& receipts_agree
                &&& !transactions_agree
                &&& reason matches WitnessFault::TransactionRoot {
                    root,
                    expected_root: named,
                }
                &&& named == expected_root
                &&& match root {
                    Some(root) => tx_root == Some(root.0@),
                    None => tx_root is None,
                }
            }
        },
        Err(_) => false,
    }
}

/// Holds a witness against the chain: the receipts that it has proofs for must be those that the
/// last new chunk applies, and its transactions those of that chunk. Hands back these receipts,
/// in the order in which they are applied.
pub fn pre_validate_chunk_state_witness(
    state_witness: &ChunkStateWitnessInner,
    history: &ChunkHistory,
    shuffles: &Vec<Vec<usize>>,
) -> (r: Result<Vec<Receipt>, Error>)
    requires
        can_pre_validate(*state_witness, *history, shuffles@),
    ensures
        r is Ok == pre_validation_passes(*state_witness, history@, shuffles@),
        pre_validated(*state_witness, history@, shuffles@, r),
{
    let shard_id = state_witness.chunk_header.inner.shard_id;
    proof {
        lemma_encodable_together(
            state_witness.source_receipt_proofs@,
            history.blocks_after_last_last_chunk@,
        );
    }
    let receipts_to_apply = match validate_source_receipt_proofs(
        &state_witness.source_receipt_proofs,
        &history.blocks_after_last_last_chunk,
        shard_id,
        shuffles,
    ) {
        Ok(receipts) => receipts,
        Err(error) => {
            return Err(error);
        },
    };
    proof {
        law_shuffles_keep_receipts(
            state_witness.source_receipt_proofs@,
            history.blocks_after_last_last_chunk@,
            shuffles@,
        );
        assert(receipts_view(receipts_to_apply@).len() == receipts_to_apply@.len());
    }
    let applied_receipts_hash = hash_receipts(&receipts_to_apply);
    if applied_receipts_hash != state_witness.applied_receipts_hash {
        proof {
            let computed = applied_receipts_hash.0;
            let expected = state_witness.applied_receipts_hash.0;
            if computed@ == expected@ {
                assert(computed =~= expected);
            }
        }
        return Err(
            Error::InvalidChunkStateWitness(
                WitnessFault::AppliedReceiptsHash {
                    computed: applied_receipts_hash,
                    expected: state_witness.applied_receipts_hash,
                },
            ),
        );
    }
    let tx_root_from_state_witness = merklize_transactions(&state_witness.transactions);
    let last_chunk_block = &history.blocks_after_last_last_chunk[0];
    let last_new_chunk_tx_root = last_chunk_block.chunk(shard_id).inner.tx_root;
    let agrees = match tx_root_from_state_witness {
        Some(root) => {
            proof {
                if root.0@ == last_new_chunk_tx_root.0@ {
                    assert(root.0 =~= last_new_chunk_tx_root.0);
                }
            }
            root == last_new_chunk_tx_root
        },
        None => false,
    };
    if !agrees {
        return Err(
            Error::InvalidChunkStateWitness(
                WitnessFault::TransactionRoot {
                    root: tx_root_from_state_witness,
                    expected_root: last_new_chunk_tx_root,
                },
            ),
        );
    }
    Ok(receipts_to_apply)
}

/// A configuration names the state on which the transactions that a chunk proposes are checked.
pub open spec fn is_config_for(
    config: RuntimeStorageConfig,
    state_witness: ChunkStateWitnessInner,
) -> bool {
    &&& config.state_root == state_witness.chunk_header.inner.prev_state_root
    &&& config.use_flat_storage
    &&& !config.record_storage
    &&& nodes_view(config.recorded_nodes@) == nodes_view(
        state_witness.new_transactions_validation_state@,
    )
}

/// The state on which the transactions that a chunk proposes have to be checked. There is nothing
/// to check where it proposes none.
pub fn new_transactions_config(state_witness: &ChunkStateWitnessInner) -> (r: Option<
    RuntimeStorageConfig,
>)
    ensures
        r is None <==> state_witness.new_transactions@.len() == 0,
        r matches Some(config) ==> is_config_for(config, *state_witness),
        r matches Some(config) ==> {
            &&& config.state_root == state_witness.chunk_header.inner.prev_state_root
            &&& config.use_flat_storage
            &&& !config.record_storage
            &&& config.recorded_nodes@.len()
                == state_witness.new_transactions_validation_state@.len()
            &&& forall|i: int|
                0 <= i < config.recorded_nodes@.len() ==> (#[trigger] config.recorded_nodes@[i])@
                    == state_witness.new_transactions_validation_state@[i]@
        },
{
    if state_witness.new_transactions.len() == 0 {
        None
    } else {
        Some(
            RuntimeStorageConfig {
                state_root: state_witness.chunk_header.inner.prev_state_root,
                use_flat_storage: true,
                recorded_nodes: clone_nodes(&state_witness.new_transactions_validation_state),
                record_storage: false,
            },
        )
    }
}

/// What a check of proposed transactions comes to: all of them have to be valid.
pub open spec fn new_transactions_checked(
    proposed: usize,
    prepared: Result<usize, String>,
) -> Result<(), Error> {
    match prepared {
        Ok(valid) => if valid == proposed {
            Ok(())
        } else {
            Err(
                Error::InvalidChunkStateWitness(
                    WitnessFault::NewTransactionsInvalid { valid, proposed },
                ),
            )
        },
        Err(error) => Err(
            Error::InvalidChunkStateWitness(WitnessFault::NewTransactionsFailed(error)),
        ),
    }
}

/// Judges the transactions that a chunk proposes by what checking them came to: either how many
/// of them are valid, or why they could not be checked. All of them have to be valid.
pub fn check_new_transactions(proposed: usize, prepared: Result<usize, String>) -> (r: Result<
    (),
    Error,
>)
    ensures
        r == new_transactions_checked(proposed, prepared),
{
    match prepared {
        Ok(valid) => {
            if valid != proposed {
                return Err(
                    Error::InvalidChunkStateWitness(
                        WitnessFault::NewTransactionsInvalid { valid, proposed },
                    ),
                );
            }
            Ok(())
        },
        Err(error) => Err(
            Error::InvalidChunkStateWitness(WitnessFault::NewTransactionsFailed(error)),
        ),
    }
}

/// The blocks that contexts are needed of.
#[derive(Debug, PartialEq, Eq)]
pub struct ContextQuestion {
    /// The block of the last new chunk.
    pub main: CryptoHash,
    /// The blocks after it, oldest first.
    pub implicit: Vec<CryptoHash>,
}

/// The block after the last new chunk that has this place among such blocks, the oldest first.
pub open spec fn implicit_block(history: HistoryView, i: int) -> CryptoHash {
    history.blocks_after_last_chunk[history.blocks_after_last_chunk.len() - 1 - i].header.hash
}

/// A question asks for the contexts of the blocks that a walk has found.
pub open spec fn asks_contexts(question: ContextQuestion, history: HistoryView) -> bool {
    &&& question.main == history.blocks_after_last_last_chunk[0].header.hash
    &&& question.implicit@ == Seq::new(
        history.blocks_after_last_chunk.len(),
        |i: int| implicit_block(history, i),
    )
}

/// Contexts are those that were asked for: one for each block, and each of the block that it was
/// asked of.
pub open spec fn contexts_fit(
    history: HistoryView,
    main_context: Result<ApplyChunkBlockContext, Error>,
    implicit_contexts: Seq<Result<ApplyChunkBlockContext, Error>>,
) -> bool {
    &&& main_context matches Ok(context) ==> context.block_hash
        == history.blocks_after_last_last_chunk[0].header.hash
    &&& implicit_contexts.len() == history.blocks_after_last_chunk.len()
    &&& forall|i: int|
        0 <= i < implicit_contexts.len() ==> ((#[trigger] implicit_contexts[i]) matches Ok(context)
            ==> context.block_hash == implicit_block(history, i))
}

/// The blocks after the last new chunk, oldest first: those for which a context is needed, beside
/// the block of the last new chunk itself.
pub fn implicit_blocks(history: &ChunkHistory) -> (r: Vec<CryptoHash>)
    ensures
        r@ == Seq::new(
            history.blocks_after_last_chunk@.len(),
            |i: int| implicit_block(history@, i),
        ),
        r@.len() == history.blocks_after_last_chunk@.len(),
        forall|i: int|
            0 <= i < r@.len() ==> #[trigger] r@[i] == history.blocks_after_last_chunk@[r@.len() - 1
                - i].header.hash,
{
    let mut r: Vec<CryptoHash> = Vec::new();
    let n = history.blocks_after_last_chunk.len();
    let mut i: usize = 0;
    while i < n
        invariant
            i <= n,
            n == history.blocks_after_last_chunk@.len(),
            r@ == Seq::new(i as nat, |j: int| implicit_block(history@, j)),
        decreases n - i,
    {
        r.push(history.blocks_after_last_chunk[n - 1 - i].header.hash);
        i += 1;
        assert(r@ =~= Seq::new(i as nat, |j: int| implicit_block(history@, j)));
    }
    r
}

/// The blocks that contexts are needed of, once a walk has found them.
pub fn context_question(history: &ChunkHistory) -> (r: ContextQuestion)
    requires
        history.wf(),
        history.is_complete(),
    ensures
        asks_contexts(r, history@),
        r.main == history.blocks_after_last_last_chunk@[0].header.hash,
        r.implicit@.len() == history.blocks_after_last_chunk@.len(),
        forall|i: int|
            0 <= i < r.implicit@.len() ==> #[trigger] r.implicit@[i]
                == history.blocks_after_last_chunk@[r.implicit@.len() - 1 - i].header.hash,
{
    ContextQuestion {
        main: history.blocks_after_last_last_chunk[0].header.hash,
        implicit: implicit_blocks(history),
    }
}

/// Tells whether contexts are those that were asked for.
pub fn contexts_are_of(
    question: &ContextQuestion,
    main_context: &Result<ApplyChunkBlockContext, Error>,
    implicit_contexts: &Vec<Result<ApplyChunkBlockContext, Error>>,
) -> (r: bool)
    ensures
        forall|history: HistoryView| #[trigger]
            asks_contexts(*question, history) ==> r == contexts_fit(
                history,
                *main_context,
                implicit_contexts@,
            ),
{
    let main_agrees = match main_context {
        Ok(context) => context.block_hash == question.main,
        Err(_) => true,
    };
    if !main_agrees || implicit_contexts.len() != question.implicit.len() {
        return false;
    }
    let mut i: usize = 0;
    while i < implicit_contexts.len()
        invariant
            i <= implicit_contexts@.len() == question.implicit@.len(),
            forall|j: int|
                0 <= j < i ==> ((#[trigger] implicit_contexts@[j]) matches Ok(context)
                    ==> context.block_hash == question.implicit@[j]),
        decreases implicit_contexts@.len() - i,
    {
        match &implicit_contexts[i] {
            Ok(context) => {
                if context.block_hash != question.implicit[i] {
                    assert(implicit_contexts@[i as int] is Ok);
                    return false;
                }
            },
            Err(_) => {},
        }
        i += 1;
    }
    true
}

/// The first failure of a list.
pub open spec fn first_error<T>(results: Seq<Result<T, Error>>) -> Option<Error>
    decreases results.len(),
{
    if results.len() == 0 {
        None
    } else {
        match results[0] {
            Err(error) => Some(error),
            Ok(_) => first_error(results.drop_first()),
        }
    }
}

/// The values of a list of successes, or its first failure.
fn collect_contexts(results: Vec<Result<ApplyChunkBlockContext, Error>>) -> (r: Result<
    Vec<ApplyChunkBlockContext>,
    Error,
>)
    ensures
        match r {
            Ok(values) => {
                &&& first_error(results@) is None
                &&& values@.len() == results@.len()
                &&& forall|i: int|
                    0 <= i < values@.len() ==> results@[i] == Ok::<ApplyChunkBlockContext, Error>(
                        #[trigger] values@[i],
                    )
            },
            Err(error) => first_error(results@) == Some(error),
        },
{
    let mut rest = results;
    let mut values: Vec<ApplyChunkBlockContext> = Vec::new();
    while rest.len() > 0
        invariant
            values@.len() + rest@.len() == results@.len(),
            forall|i: int|
                0 <= i < values@.len() ==> results@[i] == Ok::<ApplyChunkBlockContext, Error>(
                    #[trigger] values@[i],
                ),
            rest@ == results@.skip(values@.len() as int),
            first_error(results@) == first_error(rest@),
        decreases rest@.len(),
    {
        let ghost before = rest@;
        let next = rest.remove(0);
        assert(rest@ =~= before.drop_first());
        match next {
            Ok(value) => {
                values.push(value);
                assert(rest@ =~= results@.skip(values@.len() as int));
            },
            Err(error) => {
                return Err(error);
            },
        }
    }
    Ok(values)
}

/// What is left to run has been put together, or the first context that could not be had is the
/// reason that it has not.
pub open spec fn put_together(
    state_witness: ChunkStateWitnessInner,
    history: HistoryView,
    receipts: Vec<Receipt>,
    main_context: Result<ApplyChunkBlockContext, Error>,
    implicit_contexts: Seq<Result<ApplyChunkBlockContext, Error>>,
    r: Result<PreValidationOutput, Error>,
) -> bool {
    match r {
        Ok(output) => {
            let main = output.main_transition_params;
            let implicit = output.implicit_transition_params@;
            &&& main_context == Ok::<ApplyChunkBlockContext, Error>(main.block)
            &&& first_error(implicit_contexts) is None
            &&& main.block.block_hash == history.blocks_after_last_last_chunk[0].header.hash
            &&& main.chunk_header@ == last_chunk(history)@
            &&& transactions_view(main.transactions@) == transactions_view(
                state_witness.transactions@,
            )
            &&& main.receipts == receipts
            &&& main.resharding_state_roots is None
            &&& !main.is_first_block_with_chunk_of_version
            &&& nodes_view(main.storage_context.recorded_nodes@) == nodes_view(
                state_witness.main_state_transition.base_state@,
            )
            &&& !main.storage_context.record_storage
            &&& implicit.len() == history.blocks_after_last_chunk.len()
            &&& forall|i: int|
                0 <= i < implicit.len() ==> {
                    &&& implicit_contexts[i] == Ok::<ApplyChunkBlockContext, Error>(
                        #[trigger] implicit[i],
                    )
                    &&& implicit[i].block_hash == implicit_block(history, i)
                }
        },
        Err(error) => match main_context {
            Err(first) => error == first,
            Ok(_) => first_error(implicit_contexts) == Some(error),
        },
    }
}

/// Puts together what is left to run: the last new chunk on the witness's state, and the blocks
/// after it. `main_context` is the context of the block of the last new chunk, and
/// `implicit_contexts` those of the blocks after it, oldest first. Fails with the first context
/// that could not be had.
pub fn pre_validation_output(
    state_witness: &ChunkStateWitnessInner,
    history: &ChunkHistory,
    receipts: Vec<Receipt>,
    main_context: Result<ApplyChunkBlockContext, Error>,
    implicit_contexts: Vec<Result<ApplyChunkBlockContext, Error>>,
) -> (r: Result<PreValidationOutput, Error>)
    requires
        history.wf(),
        history.is_complete(),
        contexts_fit(history@, main_context, implicit_contexts@),
    ensures
        put_together(
            *state_witness,
            history@,
            receipts,
            main_context,
            implicit_contexts@,
            r,
        ),
{
    let block = match main_context {
        Ok(context) => context,
        Err(error) => {
            return Err(error);
        },
    };
    let last_chunk_block = &history.blocks_after_last_last_chunk[0];
    let main_transition_params = NewChunkData {
        chunk_header: last_chunk_block.chunk(history.shard_id).clone(),
        transactions: clone_transactions(&state_witness.transactions),
        receipts,
        resharding_state_roots: None,
        block,
        is_first_block_with_chunk_of_version: false,
        storage_context: StorageContext {
            recorded_nodes: clone_nodes(&state_witness.main_state_transition.base_state),
            record_storage: false,
        },
    };
    match collect_contexts(implicit_contexts) {
        Ok(implicit_transition_params) => Ok(
            PreValidationOutput { main_transition_params, implicit_transition_params },
        ),
        Err(error) => Err(error),
    }
}

/// A witness agrees with the chain exactly if its receipt proofs are without fault, the receipts
/// in them, in the order in which they are applied, have the hash that it names, and its
/// transactions have the root that the shard's chunk in the newest source block names.
pub proof fn law_witness_agrees_with_the_last_new_chunk(
    state_witness: ChunkStateWitnessInner,
    history: HistoryView,
    shuffles: Seq<Vec<usize>>,
)
    ensures
        pre_validation_passes(state_witness, history, shuffles) <==> {
            let proofs = state_witness.source_receipt_proofs@;
            let blocks = history.blocks_after_last_last_chunk;
            let last = blocks[0].chunks@[history.shard_id as int];
            let encoded = state_witness.transactions@.map_values(
                |transaction: SignedTransaction| transaction.encoded@,
            );
            &&& source_receipts_fault(proofs, blocks, history.shard_id) is None
            &&& hash_of(receipts_encoding(receipts_in_order(proofs, blocks, shuffles)))
                == state_witness.applied_receipts_hash.0@
            &&& merkle_root_of_transactions(encoded) == Some(last.inner.tx_root.0@)
        },
{
    let encoded = state_witness.transactions@.map_values(
        |transaction: SignedTransaction| transaction.encoded@,
    );
    assert(transactions_view(state_witness.transactions@) =~= encoded);
}

/// Holding a witness against the chain succeeds exactly if all of it agrees, and then hands back
/// the receipts in the order in which they are applied. Otherwise the first part that does not
/// agree is the reason, and the fault names what was computed and what was claimed for it: the
/// proofs come first, then the receipts, and last the transactions.
pub proof fn law_first_disagreement_is_the_reason(
    state_witness: ChunkStateWitnessInner,
    history: HistoryView,
    shuffles: Seq<Vec<usize>>,
    r: Result<Vec<Receipt>, Error>,
)
    requires
        pre_validated(state_witness, history, shuffles, r),
    ensures
        ({
            let proofs = state_witness.source_receipt_proofs@;
            let blocks = history.blocks_after_last_last_chunk;
            let fault = source_receipts_fault(proofs, blocks, history.shard_id);
            let receipts = receipts_in_order(proofs, blocks, shuffles);
            let hash = hash_of(receipts_encoding(receipts));
            let claimed = state_witness.applied_receipts_hash;
            let root = merkle_root_of_transactions(
                transactions_view(state_witness.transactions@),
            );
            let tx_root = blocks[0].chunks@[history.shard_id as int].inner.tx_root;
            &&& fault matches Some(reason) ==> r == Err::<Vec<Receipt>, Error>(
                Error::InvalidChunkStateWitness(reason),
            )
            &&& fault is None && hash != claimed.0@ ==> {
                &&& r matches Err(Error::InvalidChunkStateWitness(reason))
                &&& reason matches WitnessFault::AppliedReceiptsHash { computed, expected }
                &&& computed.0@ == hash
                &&& expected == claimed
            }
            &&& fault is None && hash == claimed.0@ && root != Some(tx_root.0@) ==> {
                &&& r matches Err(Error::InvalidChunkStateWitness(reason))
                &&& reason matches WitnessFault::TransactionRoot { root: found, expected_root }
                &&& expected_root == tx_root
                &&& found is Some <==> root is Some
                &&& found matches Some(found) ==> root == Some(found.0@)
            }
            &&& fault is None && hash == claimed.0@ && root == Some(tx_root.0@) ==> {
                &&& r matches Ok(found)
                &&& receipts_view(found@) == receipts
            }
        }),
{
}

/// Proposed transactions pass exactly if all of them were found valid. Otherwise the fault says how
/// many of how many were, or why they could not be checked.
pub proof fn law_all_proposed_transactions_have_to_be_valid(
    proposed: usize,
    prepared: Result<usize, String>,
)
    ensures
        match new_transactions_checked(proposed, prepared) {
            Ok(()) => prepared is Ok && prepared->Ok_0 == proposed,
            Err(Error::InvalidChunkStateWitness(
                WitnessFault::NewTransactionsInvalid { valid, proposed: all },
            )) => prepared == Ok::<usize, String>(valid) && valid != proposed && all == proposed,
            Err(Error::InvalidChunkStateWitness(
                WitnessFault::NewTransactionsFailed(reason),
            )) => prepared == Err::<usize, String>(reason),
            Err(_) => false,
        },
{
}

/// The first failure of a list is the one that only successes come before, and there is none
/// exactly if all are successes.
pub proof fn law_first_error_comes_after_successes<T>(results: Seq<Result<T, Error>>, at: int)
    ensures
        first_error(results) is None <==> forall|i: int|
            0 <= i < results.len() ==> (#[trigger] results[i]) is Ok,
        0 <= at < results.len() && results[at] is Err && (forall|i: int|
            0 <= i < at ==> (#[trigger] results[i]) is Ok) ==> first_error(results) == Some(
            results[at]->Err_0,
        ),
    decreases results.len(),
{
    if results.len() > 0 {
        let rest = results.drop_first();
        law_first_error_comes_after_successes(rest, at - 1);
        if first_error(results) is None {
            assert forall|i: int| 0 <= i < results.len() implies (#[trigger] results[i]) is Ok by {
                if i > 0 {
                    assert(rest[i - 1] is Ok);
                }
            }
        }
        if forall|i: int| 0 <= i < results.len() ==> (#[trigger] results[i]) is Ok {
            assert(results[0] is Ok);
            assert forall|i: int| 0 <= i < rest.len() implies (#[trigger] rest[i]) is Ok by {
                assert(results[i + 1] is Ok);
            }
        }
        if 0 <= at < results.len() && results[at] is Err && (forall|i: int|
            0 <= i < at ==> (#[trigger] results[i]) is Ok) {
            if at > 0 {
                assert(results[0] is Ok);
                assert(rest[at - 1] == results[at]);
                assert forall|i: int| 0 <= i < at - 1 implies (#[trigger] rest[i]) is Ok by {
                    assert(results[i + 1] is Ok);
                }
            }
        }
    }
}

/// Contexts are those that were asked for exactly if each that could be had is of the block that it
/// was asked of: the newest source block for the first, and for the others the blocks after it, of
/// which the walk has the newest first and the contexts the oldest.
pub proof fn law_contexts_are_of_their_blocks(
    history: HistoryView,
    main_context: Result<ApplyChunkBlockContext, Error>,
    implicit_contexts: Seq<Result<ApplyChunkBlockContext, Error>>,
)
    ensures
        contexts_fit(history, main_context, implicit_contexts) <==> {
            let blocks = history.blocks_after_last_chunk;
            &&& main_context is Ok ==> main_context->Ok_0.block_hash
                == history.blocks_after_last_last_chunk[0].header.hash
            &&& implicit_contexts.len() == blocks.len()
            &&& forall|i: int|
                0 <= i < blocks.len() && (#[trigger] implicit_contexts[i]) is Ok
                    ==> implicit_contexts[i]->Ok_0.block_hash == blocks[blocks.len() - 1
                    - i].header.hash
        },
{
}

/// What is left to run is put together exactly if every context could be had, and fails with the
/// first that could not, that of the last new chunk's block coming first.
pub proof fn law_every_context_is_needed(
    state_witness: ChunkStateWitnessInner,
    history: HistoryView,
    receipts: Vec<Receipt>,
    main_context: Result<ApplyChunkBlockContext, Error>,
    implicit_contexts: Seq<Result<ApplyChunkBlockContext, Error>>,
    r: Result<PreValidationOutput, Error>,
)
    requires
        put_together(state_witness, history, receipts, main_context, implicit_contexts, r),
    ensures
        r is Ok <==> main_context is Ok && forall|i: int|
            0 <= i < implicit_contexts.len() ==> (#[trigger] implicit_contexts[i]) is Ok,
        main_context matches Err(error) ==> r == Err::<PreValidationOutput, Error>(error),
        forall|at: int|
            #![trigger implicit_contexts[at]]
            main_context is Ok && 0 <= at < implicit_contexts.len()
                && implicit_contexts[at] is Err && (forall|i: int|
                0 <= i < at ==> (#[trigger] implicit_contexts[i]) is Ok) ==> r == Err::<
                PreValidationOutput,
                Error,
            >(implicit_contexts[at]->Err_0),
{
    law_first_error_comes_after_successes(implicit_contexts, 0);
    assert forall|at: int|
        #![trigger implicit_contexts[at]]
        main_context is Ok && 0 <= at < implicit_contexts.len() && implicit_contexts[at] is Err
            && (forall|i: int|
            0 <= i < at ==> (#[trigger] implicit_contexts[i]) is Ok) implies r == Err::<
        PreValidationOutput,
        Error,
    >(implicit_contexts[at]->Err_0) by {
        law_first_error_comes_after_successes(implicit_contexts, at);
        assert(!(implicit_contexts[at] is Ok));
    }
}

/// What is left to run applies the shard's chunk in the newest source block, in that block's own
/// context, with the witness's transactions, the receipts that were found, and the state that the
/// witness gives for it, and then the blocks after it, the oldest first.
pub proof fn law_output_runs_the_last_new_chunk(
    state_witness: ChunkStateWitnessInner,
    history: HistoryView,
    receipts: Vec<Receipt>,
    main_context: Result<ApplyChunkBlockContext, Error>,
    implicit_contexts: Seq<Result<ApplyChunkBlockContext, Error>>,
    output: PreValidationOutput,
)
    requires
        put_together(
            state_witness,
            history,
            receipts,
            main_context,
            implicit_contexts,
            Ok(output),
        ),
    ensures
        ({
            let main = output.main_transition_params;
            let implicit = output.implicit_transition_params@;
            let source = history.blocks_after_last_last_chunk[0];
            let last = source.chunks@[history.shard_id as int];
            let after = history.blocks_after_last_chunk;
            let nodes = main.storage_context.recorded_nodes@;
            let given = state_witness.main_state_transition.base_state@;
            &&& main.chunk_header.inner == last.inner
            &&& main.chunk_header.validator_proposals@ == last.validator_proposals@
            &&& main.receipts == receipts
            &&& main.transactions@.len() == state_witness.transactions@.len()
            &&& forall|i: int|
                0 <= i < main.transactions@.len() ==> (#[trigger] main.transactions@[i]).encoded@
                    == state_witness.transactions@[i].encoded@
            &&& main.block.block_hash == source.header.hash
            &&& main_context == Ok::<ApplyChunkBlockContext, Error>(main.block)
            &&& nodes.len() == given.len()
            &&& forall|i: int| 0 <= i < nodes.len() ==> (#[trigger] nodes[i])@ == given[i]@
            &&& !main.storage_context.record_storage
            &&& !main.is_first_block_with_chunk_of_version
            &&& main.resharding_state_roots is None
            &&& implicit.len() == after.len()
            &&& forall|i: int|
                0 <= i < implicit.len() ==> {
                    &&& (#[trigger] implicit[i]).block_hash == after[after.len() - 1
                        - i].header.hash
                    &&& implicit_contexts[i] == Ok::<ApplyChunkBlockContext, Error>(implicit[i])
                }
        }),
{
    let main = output.main_transition_params;
    let nodes = main.storage_context.recorded_nodes@;
    let given = state_witness.main_state_transition.base_state@;
    let run = transactions_view(main.transactions@);
    let sent = transactions_view(state_witness.transactions@);
    assert(run.len() == main.transactions@.len());
    assert(sent.len() == state_witness.transactions@.len());
    assert forall|i: int| 0 <= i < main.transactions@.len() implies (
    #[trigger] main.transactions@[i]).encoded@ == state_witness.transactions@[i].encoded@ by {
        assert(run[i] == sent[i]);
    }
    assert(nodes_view(nodes).len() == nodes.len());
    assert(nodes_view(given).len() == given.len());
    assert forall|i: int| 0 <= i < nodes.len() implies (#[trigger] nodes[i])@ == given[i]@ by {
        assert(nodes_view(nodes)[i] == nodes_view(given)[i]);
    }
}

} // verus!
