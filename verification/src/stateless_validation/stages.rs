//! The stages that a witness goes through before its chunk is endorsed.
//!
//! Each answer leads to the next stage, or to a refusal, which ends the check.
use vstd::prelude::*;
use crate::crypto::{hashes_view, merkle_root_of_hashes};
use crate::stateless_validation::chunk_validator::{ChunkValidator, Client, WitnessAction};
use crate::stateless_validation::errors::Error;
use crate::stateless_validation::history::{ChunkHistory, HistoryView};
use crate::stateless_validation::pre_validation::{
    asks_contexts, can_pre_validate, check_new_transactions, context_question, contexts_fit,
    first_error, is_config_for, last_chunk, law_first_error_comes_after_successes,
    new_transactions_checked, new_transactions_config,
    pre_validate_chunk_state_witness, pre_validated, pre_validation_output, pre_validation_passes,
    put_together, ApplyChunkBlockContext, ContextQuestion, PreValidationOutput,
    RuntimeStorageConfig,
};
use crate::stateless_validation::receipts::Receipt;
use crate::stateless_validation::source_receipts::{
    asks_shuffles, shuffle_questions, shuffles_fit, ShuffleQuestion,
};
use crate::stateless_validation::validation::{
    validate_chunk_state_witness, validation_started, ApplyChunkResult, ValidationStep,
    WitnessValidation,
};
use crate::stateless_validation::witness::ChunkStateWitnessInner;
use crate::types::{AccountId, Block, CryptoHash, ShardChunkHeader, ShardId};

verus! {

/// What the check of a witness asks for next, or how it has ended.
#[derive(Debug)]
pub enum WitnessStep {
    /// What is this block?
    AskBlock { block_hash: CryptoHash, history: ChunkHistory },
    /// In which order are the receipts of each source block applied?
    AskShuffles { questions: Vec<ShuffleQuestion>, history: ChunkHistory },
    /// How many of the proposed transactions are valid on this state?
    AskPrepared { config: RuntimeStorageConfig, history: ChunkHistory, receipts: Vec<Receipt> },
    /// In which contexts are the last new chunk and the blocks after it applied?
    AskContexts { question: ContextQuestion, history: ChunkHistory, receipts: Vec<Receipt> },
    /// What does applying the last new chunk come to? The shard is that of the layout in the epoch
    /// of this block.
    ApplyNewChunk { block_hash: CryptoHash, shard_id: ShardId, output: PreValidationOutput },
    /// Which state does applying the next block lead to?
    ApplyOldChunk(WitnessValidation),
    /// What are the hashes of the outgoing receipts, by the shard layout that follows this block?
    HashReceipts { prev_block_hash: CryptoHash, validation: WitnessValidation },
    /// Does the chunk's header say what was computed?
    Compare { validation: WitnessValidation, outgoing_receipts_root: CryptoHash },
    /// The chunk is valid; endorse it.
    Endorse,
    Refuse(Error),
}

/// A stage of the check, without what is handed along with it.
pub enum WitnessStage {
    Block,
    Shuffles,
    Prepared,
    Contexts,
    NewChunk,
    OldChunk,
    Receipts,
    Comparison,
    Endorsed,
    Refused,
}

impl WitnessStep {
    /// The stage that a step stands for.
    pub open spec fn stage(self) -> WitnessStage {
        match self {
            WitnessStep::AskBlock { .. } => WitnessStage::Block,
            WitnessStep::AskShuffles { .. } => WitnessStage::Shuffles,
            WitnessStep::AskPrepared { .. } => WitnessStage::Prepared,
            WitnessStep::AskContexts { .. } => WitnessStage::Contexts,
            WitnessStep::ApplyNewChunk { .. } => WitnessStage::NewChunk,
            WitnessStep::ApplyOldChunk(_) => WitnessStage::OldChunk,
            WitnessStep::HashReceipts { .. } => WitnessStage::Receipts,
            WitnessStep::Compare { .. } => WitnessStage::Comparison,
            WitnessStep::Endorse => WitnessStage::Endorsed,
            WitnessStep::Refuse(_) => WitnessStage::Refused,
        }
    }
}

/// The stage after the witness has been held against the chain.
pub open spec fn after_shuffles(
    witness: ChunkStateWitnessInner,
    history: HistoryView,
    shuffles: Seq<Vec<usize>>,
) -> WitnessStage {
    if !pre_validation_passes(witness, history, shuffles) {
        WitnessStage::Refused
    } else if witness.new_transactions@.len() > 0 {
        WitnessStage::Prepared
    } else {
        WitnessStage::Contexts
    }
}

/// The stage after the proposed transactions have been checked: all of them have to be valid.
pub open spec fn after_prepared(
    witness: ChunkStateWitnessInner,
    prepared: Result<usize, String>,
) -> WitnessStage {
    if prepared matches Ok(valid) && valid == witness.new_transactions@.len() {
        WitnessStage::Contexts
    } else {
        WitnessStage::Refused
    }
}

/// The stage after the contexts have been gathered.
pub open spec fn after_contexts(
    main_context: Result<ApplyChunkBlockContext, Error>,
    implicit_contexts: Seq<Result<ApplyChunkBlockContext, Error>>,
) -> WitnessStage {
    if main_context is Ok && first_error(implicit_contexts) is None {
        WitnessStage::NewChunk
    } else {
        WitnessStage::Refused
    }
}

/// The stage after `applied` of the `to_apply` blocks have been applied.
pub open spec fn after_applied(applied: int, to_apply: int) -> WitnessStage {
    if applied < to_apply {
        WitnessStage::OldChunk
    } else {
        WitnessStage::Receipts
    }
}

/// The stage after the last new chunk has been applied: it has to lead to the state that the
/// witness claims.
pub open spec fn after_new_chunk(
    witness: ChunkStateWitnessInner,
    to_apply: int,
    result: Result<ApplyChunkResult, Error>,
) -> WitnessStage {
    if result matches Ok(result) && result.new_root
        == witness.main_state_transition.post_state_root {
        after_applied(0, to_apply)
    } else {
        WitnessStage::Refused
    }
}

/// The stage after another block has been applied: it has to lead to the state that the witness
/// claims.
pub open spec fn after_old_chunk(
    expected: CryptoHash,
    applied: int,
    to_apply: int,
    new_root: Result<CryptoHash, Error>,
) -> WitnessStage {
    if new_root == Ok::<CryptoHash, Error>(expected) {
        after_applied(applied + 1, to_apply)
    } else {
        WitnessStage::Refused
    }
}

fn next_stage(validation: WitnessValidation) -> (r: WitnessStep)
    requires
        validation.wf(),
    ensures
        goes_on_with(r, Ok(validation)),
{
    match validation.next() {
        ValidationStep::ApplyOldChunk => WitnessStep::ApplyOldChunk(validation),
        ValidationStep::HashOutgoingReceipts { prev_block_hash } => WitnessStep::HashReceipts {
            prev_block_hash,
            validation,
        },
    }
}

impl ChunkValidator {
    /// Begins the check of a witness that this node has taken on, with the block before the chunk.
    pub fn begin_check(chunk_header: &ShardChunkHeader) -> (r: WitnessStep)
        ensures
            r matches WitnessStep::AskBlock { block_hash, history } && {
                &&& block_hash == chunk_header.inner.prev_block_hash
                &&& history@ == HistoryView::start(chunk_header.inner.shard_id, block_hash)
                &&& history.wf()
                &&& !history.is_complete()
                &&& forall|chain: Map<CryptoHash, Block>| #[trigger]
                    history.follows(chain, block_hash)
            },
    {
        let block_hash = chunk_header.inner.prev_block_hash;
        let history = ChunkHistory::new(chunk_header.inner.shard_id, block_hash);
        WitnessStep::AskBlock { block_hash, history }
    }

    /// Goes on with the walk back through the chain, given what was found of the block. A block
    /// that could not be had ends the check with the reason as it is.
    pub fn block_found(history: ChunkHistory, block: Result<Block, Error>) -> (r: WitnessStep)
        requires
            history.wf(),
            !history.is_complete(),
        ensures
            match history@.taken_up(block) {
                Err(error) => r == WitnessStep::Refuse(error),
                Ok(reached) => match r {
                    WitnessStep::AskBlock { block_hash, history: next } => {
                        &&& next@ == reached
                        &&& next.wf()
                        &&& !next.is_complete()
                        &&& block_hash == next.next_block
                    },
                    WitnessStep::AskShuffles { questions, history: next } => {
                        &&& next@ == reached
                        &&& next.wf()
                        &&& next.is_complete()
                        &&& asks_shuffles(questions@, next.blocks_after_last_last_chunk@)
                    },
                    _ => false,
                },
            },
            forall|chain: Map<CryptoHash, Block>, start: CryptoHash|
                #[trigger] history.follows(chain, start) && chain.contains_key(history.next_block)
                    && block == Ok::<Block, Error>(chain[history.next_block]) ==> match r {
                    WitnessStep::AskBlock { history: next, .. } => next.follows(chain, start),
                    WitnessStep::AskShuffles { history: next, .. } => next.follows(chain, start),
                    _ => true,
                },
    {
        let mut next = history;
        match next.push_found(block) {
            Err(error) => WitnessStep::Refuse(error),
            Ok(()) => match next.wanted() {
                Some(block_hash) => WitnessStep::AskBlock { block_hash, history: next },
                None => {
                    let questions = shuffle_questions(&next.blocks_after_last_last_chunk);
                    WitnessStep::AskShuffles { questions, history: next }
                },
            },
        }
    }

    /// Holds the witness against the chain, given the order in which receipts are applied.
    pub fn shuffles_given(
        witness: &ChunkStateWitnessInner,
        history: ChunkHistory,
        shuffles: &Vec<Vec<usize>>,
    ) -> (r: WitnessStep)
        requires
            can_pre_validate(*witness, history, shuffles@),
        ensures
            r.stage() == after_shuffles(*witness, history@, shuffles@),
            match r {
                WitnessStep::AskPrepared { config, history: next, receipts } => {
                    &&& next == history
                    &&& is_config_for(config, *witness)
                    &&& pre_validated(*witness, history@, shuffles@, Ok(receipts))
                },
                WitnessStep::AskContexts { question, history: next, receipts } => {
                    &&& next == history
                    &&& asks_contexts(question, history@)
                    &&& pre_validated(*witness, history@, shuffles@, Ok(receipts))
                },
                WitnessStep::Refuse(error) => pre_validated(
                    *witness,
                    history@,
                    shuffles@,
                    Err(error),
                ),
                _ => false,
            },
    {
        let receipts = match pre_validate_chunk_state_witness(witness, &history, shuffles) {
            Ok(receipts) => receipts,
            Err(error) => {
                return WitnessStep::Refuse(error);
            },
        };
        match new_transactions_config(witness) {
            Some(config) => WitnessStep::AskPrepared { config, history, receipts },
            None => {
                let question = context_question(&history);
                WitnessStep::AskContexts { question, history, receipts }
            },
        }
    }

    /// Goes on once the proposed transactions have been checked.
    pub fn transactions_prepared(
        witness: &ChunkStateWitnessInner,
        history: ChunkHistory,
        receipts: Vec<Receipt>,
        prepared: Result<usize, String>,
    ) -> (r: WitnessStep)
        requires
            history.wf(),
            history.is_complete(),
        ensures
            r.stage() == after_prepared(*witness, prepared),
            match new_transactions_checked(witness.new_transactions@.len() as usize, prepared) {
                Ok(()) => {
                    &&& r matches WitnessStep::AskContexts {
                        question,
                        history: next,
                        receipts: kept,
                    }
                    &&& next == history
                    &&& kept == receipts
                    &&& asks_contexts(question, history@)
                },
                Err(error) => r == WitnessStep::Refuse(error),
            },
    {
        match check_new_transactions(witness.new_transactions.len(), prepared) {
            Ok(()) => {
                let question = context_question(&history);
                WitnessStep::AskContexts { question, history, receipts }
            },
            Err(error) => WitnessStep::Refuse(error),
        }
    }

    /// Ends the part of the check that looks at the chain.
    pub fn contexts_given(
        witness: &ChunkStateWitnessInner,
        history: &ChunkHistory,
        receipts: Vec<Receipt>,
        main_context: Result<ApplyChunkBlockContext, Error>,
        implicit_contexts: Vec<Result<ApplyChunkBlockContext, Error>>,
    ) -> (r: WitnessStep)
        requires
            history.wf(),
            history.is_complete(),
            contexts_fit(history@, main_context, implicit_contexts@),
        ensures
            r.stage() == after_contexts(main_context, implicit_contexts@),
            match r {
                WitnessStep::ApplyNewChunk { block_hash, shard_id, output } => {
                    &&& put_together(
                        *witness,
                        history@,
                        receipts,
                        main_context,
                        implicit_contexts@,
                        Ok(output),
                    )
                    &&& block_hash == history.blocks_after_last_last_chunk@[0].header.hash
                    &&& shard_id == last_chunk(history@).inner.shard_id
                },
                WitnessStep::Refuse(error) => put_together(
                    *witness,
                    history@,
                    receipts,
                    main_context,
                    implicit_contexts@,
                    Err(error),
                ),
                _ => false,
            },
    {
        match pre_validation_output(witness, history, receipts, main_context, implicit_contexts) {
            Ok(output) => WitnessStep::ApplyNewChunk {
                block_hash: output.main_transition_params.block.block_hash,
                shard_id: output.main_transition_params.chunk_header.inner.shard_id,
                output,
            },
            Err(error) => WitnessStep::Refuse(error),
        }
    }

    /// Goes on once the last new chunk, whose header is given, has been applied.
    pub fn new_chunk_applied(
        witness: ChunkStateWitnessInner,
        last_chunk_header: &ShardChunkHeader,
        implicit_transition_params: Vec<ApplyChunkBlockContext>,
        result: Result<ApplyChunkResult, Error>,
    ) -> (r: WitnessStep)
        ensures
            r.stage() == after_new_chunk(
                witness,
                blocks_to_apply(witness, implicit_transition_params@.len() as int),
                result,
            ),
            goes_on_with(
                r,
                validation_started(
                    witness,
                    *last_chunk_header,
                    implicit_transition_params,
                    result,
                ),
            ),
    {
        match validate_chunk_state_witness(
            witness,
            last_chunk_header,
            implicit_transition_params,
            result,
        ) {
            Ok(validation) => next_stage(validation),
            Err(error) => WitnessStep::Refuse(error),
        }
    }

    /// Goes on once another block has been applied.
    pub fn block_applied(
        validation: WitnessValidation,
        new_root: Result<CryptoHash, Error>,
    ) -> (r: WitnessStep)
        requires
            validation.wf(),
            validation.applied < validation.to_apply(),
        ensures
            r.stage() == after_old_chunk(
                validation.transitions@[validation.applied as int].post_state_root,
                validation.applied as int,
                validation.to_apply(),
                new_root,
            ),
            goes_on_with(
                r,
                match new_root {
                    Ok(root) => validation.after_applied(root),
                    Err(error) => Err(error),
                },
            ),
    {
        let mut next = validation;
        assert(next.applied < next.transitions.len());
        match next.old_chunk_applied(new_root) {
            Ok(()) => next_stage(next),
            Err(error) => WitnessStep::Refuse(error),
        }
    }

    /// Goes on once the outgoing receipts have been hashed.
    pub fn receipts_hashed(
        validation: WitnessValidation,
        hashes: Result<Vec<CryptoHash>, Error>,
    ) -> (r: WitnessStep)
        requires
            validation.wf(),
            validation.applied == validation.to_apply(),
        ensures
            match hashes {
                Ok(hashes) => {
                    &&& r matches WitnessStep::Compare { validation: kept, outgoing_receipts_root }
                    &&& kept == validation
                    &&& outgoing_receipts_root.0@ == merkle_root_of_hashes(hashes_view(hashes@))
                },
                Err(error) => r == WitnessStep::Refuse(error),
            },
    {
        match validation.outgoing_receipts_root(hashes) {
            Ok(outgoing_receipts_root) => WitnessStep::Compare {
                validation,
                outgoing_receipts_root,
            },
            Err(error) => WitnessStep::Refuse(error),
        }
    }

    /// Ends the check, given whether the chunk's header says what was computed.
    pub fn header_compared(result: Result<(), Error>) -> (r: WitnessStep)
        ensures
            r == (match result {
                Ok(()) => WitnessStep::Endorse,
                Err(error) => WitnessStep::Refuse(error),
            }),
    {
        match result {
            Ok(()) => WitnessStep::Endorse,
            Err(error) => WitnessStep::Refuse(error),
        }
    }
}

/// How many blocks after the last new chunk are applied: as many as there are both contexts and
/// claimed transitions for.
pub open spec fn blocks_to_apply(witness: ChunkStateWitnessInner, contexts: int) -> int {
    if contexts <= witness.implicit_transitions@.len() {
        contexts
    } else {
        witness.implicit_transitions@.len() as int
    }
}

/// The step that a validation calls for: the next block, or the receipts once all blocks have been
/// applied. Where there is no validation, the check ends with the reason.
pub open spec fn goes_on_with(
    step: WitnessStep,
    validation: Result<WitnessValidation, Error>,
) -> bool {
    match validation {
        Ok(validation) => {
            &&& validation.wf()
            &&& step == (if validation.applied < validation.to_apply() {
                WitnessStep::ApplyOldChunk(validation)
            } else {
                WitnessStep::HashReceipts {
                    prev_block_hash: validation.chunk_header.inner.prev_block_hash,
                    validation,
                }
            })
        },
        Err(error) => step == WitnessStep::Refuse(error),
    }
}

/// All that the check of a witness asks for.
pub struct WitnessAnswers {
    pub signature_is_valid: Result<bool, Error>,
    pub epoch_id: Result<CryptoHash, Error>,
    pub assignments: Result<Vec<AccountId>, Error>,
    /// What was found of each block on the way back through the chain.
    pub blocks: Vec<Result<Block, Error>>,
    pub shuffles: Vec<Vec<usize>>,
    pub prepared: Result<usize, String>,
    pub main_context: Result<ApplyChunkBlockContext, Error>,
    pub implicit_contexts: Vec<Result<ApplyChunkBlockContext, Error>>,
    pub new_chunk: Result<ApplyChunkResult, Error>,
    /// For each block after the last new chunk, the state that it leads to.
    pub old_chunks: Vec<Result<CryptoHash, Error>>,
    pub hashes: Result<Vec<CryptoHash>, Error>,
    pub compared: Result<(), Error>,
}

impl WitnessAnswers {
    /// The account that takes the witness on, or why none does.
    pub open spec fn taken_on(self, validator: ChunkValidator) -> Result<AccountId, Error> {
        validator.taken_on(self.signature_is_valid, self.epoch_id, self.assignments)
    }

    /// What the walk back through the chain, from the parent of the chunk, comes to.
    pub open spec fn walk(self, witness: ChunkStateWitnessInner) -> Result<HistoryView, Error> {
        let header = witness.chunk_header.inner;
        HistoryView::start(header.shard_id, header.prev_block_hash).walked(self.blocks@)
    }

    /// The walk has failed or has come to its end: no other block is asked for.
    pub open spec fn walk_is_over(self, witness: ChunkStateWitnessInner) -> bool {
        self.walk(witness) matches Ok(history) ==> history.is_complete()
    }

    /// The shuffles and the contexts are those that were asked for.
    pub open spec fn fit(self, witness: ChunkStateWitnessInner) -> bool {
        match self.walk(witness) {
            Ok(history) => history.is_complete() ==> {
                &&& shuffles_fit(self.shuffles@, history.blocks_after_last_last_chunk)
                &&& contexts_fit(history, self.main_context, self.implicit_contexts@)
            },
            Err(_) => true,
        }
    }

    /// How many blocks after the last new chunk are applied.
    pub open spec fn to_apply(self, witness: ChunkStateWitnessInner) -> int {
        match self.walk(witness) {
            Ok(history) => blocks_to_apply(witness, history.blocks_after_last_chunk.len() as int),
            Err(_) => 0,
        }
    }

    /// Where the check gets before it asks for contexts.
    pub open spec fn stage_on_chain(
        self,
        validator: ChunkValidator,
        witness: ChunkStateWitnessInner,
    ) -> WitnessStage {
        match (self.taken_on(validator), self.walk(witness)) {
            (Ok(_), Ok(history)) => if history.is_complete() {
                after_shuffles(witness, history, self.shuffles@)
            } else {
                WitnessStage::Block
            },
            _ => WitnessStage::Refused,
        }
    }

    /// Where the check gets before anything is applied.
    pub open spec fn stage_before_applying(
        self,
        validator: ChunkValidator,
        witness: ChunkStateWitnessInner,
    ) -> WitnessStage {
        let stage = match self.stage_on_chain(validator, witness) {
            WitnessStage::Prepared => after_prepared(witness, self.prepared),
            other => other,
        };
        match stage {
            WitnessStage::Contexts => after_contexts(self.main_context, self.implicit_contexts@),
            other => other,
        }
    }

    /// Where the check gets from the blocks after the last new chunk, `applied` of which have been
    /// applied.
    pub open spec fn stage_from_block(
        self,
        witness: ChunkStateWitnessInner,
        applied: int,
    ) -> WitnessStage
        decreases self.to_apply(witness) - applied,
    {
        match after_applied(applied, self.to_apply(witness)) {
            WitnessStage::OldChunk => match after_old_chunk(
                witness.implicit_transitions@[applied].post_state_root,
                applied,
                self.to_apply(witness),
                self.old_chunks@[applied],
            ) {
                WitnessStage::Refused => WitnessStage::Refused,
                _ => self.stage_from_block(witness, applied + 1),
            },
            other => other,
        }
    }

    /// Where the check ends.
    pub open spec fn outcome(
        self,
        validator: ChunkValidator,
        witness: ChunkStateWitnessInner,
    ) -> WitnessStage {
        let applied = match self.stage_before_applying(validator, witness) {
            WitnessStage::NewChunk => match after_new_chunk(
                witness,
                self.to_apply(witness),
                self.new_chunk,
            ) {
                WitnessStage::Refused => WitnessStage::Refused,
                _ => self.stage_from_block(witness, 0),
            },
            other => other,
        };
        match applied {
            WitnessStage::Receipts => if self.hashes is Ok && self.compared is Ok {
                WitnessStage::Endorsed
            } else {
                WitnessStage::Refused
            },
            other => other,
        }
    }

    /// Everything that was asked speaks for the witness: it is signed, this node is assigned to the
    /// chunk, the witness agrees with the chain, its proposed transactions are all valid, and each
    /// transition leads to the state that it claims, up to the one that the chunk's header names.
    pub open spec fn all_passed(
        self,
        validator: ChunkValidator,
        witness: ChunkStateWitnessInner,
    ) -> bool {
        &&& self.signature_is_valid == Ok::<bool, Error>(true)
        &&& self.taken_on(validator) is Ok
        &&& self.walk(witness) matches Ok(history)
        &&& history.is_complete()
        &&& pre_validation_passes(witness, history, self.shuffles@)
        &&& witness.new_transactions@.len() > 0 ==> (self.prepared matches Ok(valid) && valid
            == witness.new_transactions@.len())
        &&& self.main_context is Ok
        &&& first_error(self.implicit_contexts@) is None
        &&& self.new_chunk matches Ok(result)
        &&& result.new_root == witness.main_state_transition.post_state_root
        &&& self.blocks_lead_to_claims(witness, 0)
        &&& self.hashes is Ok
        &&& self.compared is Ok
    }

    /// The blocks from a given one on lead to the states that the witness claims.
    pub open spec fn blocks_lead_to_claims(
        self,
        witness: ChunkStateWitnessInner,
        from: int,
    ) -> bool {
        forall|i: int|
            from <= i < self.to_apply(witness) ==> #[trigger] self.old_chunks@[i] == Ok::<
                CryptoHash,
                Error,
            >(witness.implicit_transitions@[i].post_state_root)
    }
}

proof fn lemma_stage_from_block(
    answers: WitnessAnswers,
    witness: ChunkStateWitnessInner,
    applied: int,
)
    requires
        0 <= applied <= answers.to_apply(witness),
    ensures
        answers.stage_from_block(witness, applied) == (if answers.blocks_lead_to_claims(
            witness,
            applied,
        ) {
            WitnessStage::Receipts
        } else {
            WitnessStage::Refused
        }),
    decreases answers.to_apply(witness) - applied,
{
    if applied < answers.to_apply(witness) {
        lemma_stage_from_block(answers, witness, applied + 1);
        let expected = witness.implicit_transitions@[applied].post_state_root;
        if answers.old_chunks@[applied] == Ok::<CryptoHash, Error>(expected) {
            if answers.blocks_lead_to_claims(witness, applied + 1) {
                assert forall|i: int| applied <= i < answers.to_apply(witness) implies
                    #[trigger] answers.old_chunks@[i] == Ok::<CryptoHash, Error>(
                    witness.implicit_transitions@[i].post_state_root,
                ) by {}
            }
        }
    }
}

/// A witness that has been checked leads to an endorsement exactly if everything that was asked
/// speaks for it. Otherwise it is refused, unless the node that has taken it on still waits for a
/// block.
pub proof fn law_endorsed_only_after_all_passed(
    answers: WitnessAnswers,
    validator: ChunkValidator,
    witness: ChunkStateWitnessInner,
)
    requires
        answers.fit(witness),
    ensures
        answers.outcome(validator, witness) == (if answers.all_passed(validator, witness) {
            WitnessStage::Endorsed
        } else if answers.taken_on(validator) is Ok && !answers.walk_is_over(witness) {
            WitnessStage::Block
        } else {
            WitnessStage::Refused
        }),
{
    lemma_stage_from_block(answers, witness, 0);
}

impl Client {
    /// The account in whose name this node endorses a chunk in the end, if it does.
    pub open spec fn endorses_as(
        self,
        prev_chunk_header: Result<ShardChunkHeader, Error>,
        answers: WitnessAnswers,
        witness: ChunkStateWitnessInner,
    ) -> Option<AccountId> {
        match self.action_on(prev_chunk_header) {
            Err(_) => None,
            Ok(WitnessAction::Endorse(me)) => Some(me),
            Ok(WitnessAction::Validate) => match (
                answers.outcome(self.chunk_validator, witness),
                answers.taken_on(self.chunk_validator),
            ) {
                (WitnessStage::Endorsed, Ok(me)) => Some(me),
                _ => None,
            },
        }
    }
}

/// A chunk is endorsed in the name of an account exactly if either the chunk before it stands in
/// the first block and the node signs with that account, or else the node has taken the witness on
/// with that account and everything that was asked speaks for the witness.
pub proof fn law_endorsement_needs_a_sound_witness(
    client: Client,
    prev_chunk_header: Result<ShardChunkHeader, Error>,
    answers: WitnessAnswers,
    witness: ChunkStateWitnessInner,
    account_id: AccountId,
)
    requires
        answers.fit(witness),
    ensures
        client.endorses_as(prev_chunk_header, answers, witness) == Some(account_id) <==> {
            &&& prev_chunk_header matches Ok(prev)
            &&& if prev.inner.prev_block_hash.is_zero() {
                client.validator_signer == Some(account_id)
            } else {
                &&& answers.taken_on(client.chunk_validator) == Ok::<AccountId, Error>(account_id)
                &&& answers.all_passed(client.chunk_validator, witness)
            }
        },
{
    law_endorsed_only_after_all_passed(answers, client.chunk_validator, witness);
}

/// The proposed transactions are looked at only where this node has taken the witness on, the walk
/// back through the chain has come to its end, and the witness agrees with the chain.
pub proof fn law_transactions_are_checked_last_on_chain(
    answers: WitnessAnswers,
    validator: ChunkValidator,
    witness: ChunkStateWitnessInner,
)
    ensures
        answers.stage_on_chain(validator, witness) is Prepared <==> {
            &&& answers.taken_on(validator) is Ok
            &&& answers.walk(witness) matches Ok(history)
            &&& history.is_complete()
            &&& pre_validation_passes(witness, history, answers.shuffles@)
            &&& witness.new_transactions@.len() > 0
        },
{
}

/// A witness that agrees with the chain has its proposed transactions checked exactly if it
/// proposes any, and goes on without otherwise; one that does not agree is refused.
pub proof fn law_proposed_transactions_are_checked_if_there_are_any(
    witness: ChunkStateWitnessInner,
    history: HistoryView,
    shuffles: Seq<Vec<usize>>,
    prepared: Result<usize, String>,
)
    ensures
        ({
            let passes = pre_validation_passes(witness, history, shuffles);
            let stage = after_shuffles(witness, history, shuffles);
            &&& stage is Refused <==> !passes
            &&& stage is Prepared <==> passes && witness.new_transactions@.len() != 0
            &&& stage is Contexts <==> passes && witness.new_transactions@.len() == 0
        }),
        after_prepared(witness, prepared) is Contexts <==> prepared is Ok && prepared->Ok_0
            == witness.new_transactions@.len(),
        after_prepared(witness, prepared) is Refused <==> !(prepared is Ok && prepared->Ok_0
            == witness.new_transactions@.len()),
{
}

/// The last new chunk is applied exactly if every context could be had.
pub proof fn law_applying_needs_every_context(
    main_context: Result<ApplyChunkBlockContext, Error>,
    implicit_contexts: Seq<Result<ApplyChunkBlockContext, Error>>,
)
    ensures
        ({
            let stage = after_contexts(main_context, implicit_contexts);
            let all = main_context is Ok && forall|i: int|
                0 <= i < implicit_contexts.len() ==> (#[trigger] implicit_contexts[i]) is Ok;
            &&& stage is NewChunk <==> all
            &&& stage is Refused <==> !all
        }),
{
    law_first_error_comes_after_successes(implicit_contexts, 0);
}

/// The blocks after the last new chunk are applied one by one, as many as have both a context and a
/// claimed transition, and only then are the receipts hashed. Each has to lead to the state that is
/// claimed for it.
pub proof fn law_blocks_are_applied_before_receipts_are_hashed(
    witness: ChunkStateWitnessInner,
    contexts: nat,
    result: Result<ApplyChunkResult, Error>,
    expected: CryptoHash,
    applied: int,
    to_apply: int,
    new_root: Result<CryptoHash, Error>,
)
    ensures
        blocks_to_apply(witness, contexts as int) <= contexts,
        blocks_to_apply(witness, contexts as int) <= witness.implicit_transitions@.len(),
        blocks_to_apply(witness, contexts as int) == contexts || blocks_to_apply(
            witness,
            contexts as int,
        ) == witness.implicit_transitions@.len(),
        ({
            let stage = after_new_chunk(witness, to_apply, result);
            let agrees = result is Ok && result->Ok_0.new_root
                == witness.main_state_transition.post_state_root;
            &&& stage is Refused <==> !agrees
            &&& stage is OldChunk <==> agrees && to_apply > 0
            &&& stage is Receipts <==> agrees && to_apply <= 0
        }),
        ({
            let stage = after_old_chunk(expected, applied, to_apply, new_root);
            let agrees = new_root is Ok && new_root->Ok_0 == expected;
            &&& stage is Refused <==> !agrees
            &&& stage is OldChunk <==> agrees && applied + 1 < to_apply
            &&& stage is Receipts <==> agrees && applied + 1 >= to_apply
        }),
{
}

/// A validation calls for its next block exactly if both a block and a transition are left, and
/// otherwise for the hashes of the receipts, by the layout that follows the parent of the chunk.
/// It is handed along as it is. Without a validation the check ends with the reason.
pub proof fn law_validation_is_handed_along(
    step: WitnessStep,
    validation: Result<WitnessValidation, Error>,
)
    requires
        goes_on_with(step, validation),
    ensures
        match (step, validation) {
            (WitnessStep::ApplyOldChunk(kept), Ok(validation)) => {
                &&& kept == validation
                &&& validation.applied < validation.blocks@.len()
                &&& validation.applied < validation.transitions@.len()
            },
            (WitnessStep::HashReceipts { prev_block_hash, validation: kept }, Ok(validation)) => {
                &&& kept == validation
                &&& prev_block_hash == validation.chunk_header.inner.prev_block_hash
                &&& validation.applied >= validation.blocks@.len() || validation.applied
                    >= validation.transitions@.len()
            },
            (WitnessStep::Refuse(reason), Err(error)) => reason == error,
            _ => false,
        },
{
}

/// A step and its stage go by the same name; in particular a chunk is endorsed in one kind of step
/// only, and refused in one only.
pub proof fn law_stage_names_the_step(step: WitnessStep)
    ensures
        step.stage() is Block <==> step is AskBlock,
        step.stage() is Shuffles <==> step is AskShuffles,
        step.stage() is Prepared <==> step is AskPrepared,
        step.stage() is Contexts <==> step is AskContexts,
        step.stage() is NewChunk <==> step is ApplyNewChunk,
        step.stage() is OldChunk <==> step is ApplyOldChunk,
        step.stage() is Receipts <==> step is HashReceipts,
        step.stage() is Comparison <==> step is Compare,
        step.stage() is Endorsed <==> step is Endorse,
        step.stage() is Refused <==> step is Refuse,
{
}

} // verus!
