//! The part of a chunk's validation that runs the chunks before it and compares what they come to
//! with what the witness claims.
use vstd::prelude::*;
use crate::crypto::{hashes_view, merkle_root_of_hashes, merklize_hashes};
use crate::stateless_validation::errors::{Error, WitnessFault};
use crate::stateless_validation::pre_validation::{ApplyChunkBlockContext, StorageContext};
use crate::stateless_validation::receipts::Receipt;
use crate::stateless_validation::witness::{
    clone_nodes, nodes_view, ChunkStateTransition, ChunkStateWitnessInner,
};
use crate::types::{Balance, CryptoHash, Gas, ShardChunkHeader, ValidatorStake};

verus! {

/// What applying a chunk came to.
#[derive(Debug)]
pub struct ApplyChunkResult {
    pub new_root: CryptoHash,
    /// The root of the tree over the outcomes of the transactions and receipts.
    pub outcome_root: CryptoHash,
    pub outgoing_receipts: Vec<Receipt>,
    pub validator_proposals: Vec<ValidatorStake>,
    pub total_gas_burnt: Gas,
    pub total_balance_burnt: Balance,
}

/// What the next chunk's header has to say about a chunk that was applied.
#[derive(Debug, PartialEq, Eq)]
pub struct ChunkExtra {
    pub state_root: CryptoHash,
    pub outcome_root: CryptoHash,
    pub validator_proposals: Vec<ValidatorStake>,
    pub gas_used: Gas,
    pub gas_limit: Gas,
    pub balance_burnt: Balance,
}

impl ChunkExtra {
    /// Two values that say the same, apart from the state that they lead to.
    pub open spec fn agrees_but_for_root(self, other: ChunkExtra) -> bool {
        &&& self.outcome_root == other.outcome_root
        &&& self.validator_proposals@ == other.validator_proposals@
        &&& self.gas_used == other.gas_used
        &&& self.gas_limit == other.gas_limit
        &&& self.balance_burnt == other.balance_burnt
    }
}

impl Clone for ChunkExtra {
    fn clone(&self) -> (r: ChunkExtra)
        ensures
            r.state_root == self.state_root,
            r.agrees_but_for_root(*self),
            r.outcome_root == self.outcome_root,
            r.validator_proposals@ == self.validator_proposals@,
            r.gas_used == self.gas_used,
            r.gas_limit == self.gas_limit,
            r.balance_burnt == self.balance_burnt,
    {
        let validator_proposals = self.validator_proposals.clone();
        assert(validator_proposals@ =~= self.validator_proposals@);
        ChunkExtra {
            state_root: self.state_root,
            outcome_root: self.outcome_root,
            validator_proposals,
            gas_used: self.gas_used,
            gas_limit: self.gas_limit,
            balance_burnt: self.balance_burnt,
        }
    }
}

/// A shard together with the version of the layout that it belongs to.
#[derive(Clone, Copy, Debug, PartialEq, Eq)]
pub struct ShardUId {
    pub version: u32,
    pub shard_id: u32,
}

/// How a shard stands to the node at a block.
#[derive(Clone, Copy, Debug, PartialEq, Eq)]
pub struct ShardContext {
    pub shard_uid: ShardUId,
    pub cares_about_shard_this_epoch: bool,
    pub will_shard_layout_change: bool,
    pub should_apply_chunk: bool,
    pub need_to_reshard: bool,
}

/// How a shard stands to a node that validates one of its chunks, which the block either has anew
/// or has not.
pub open spec fn validators_context(shard_uid: ShardUId, has_new_chunk: bool) -> ShardContext {
    ShardContext {
        shard_uid,
        cares_about_shard_this_epoch: true,
        will_shard_layout_change: false,
        should_apply_chunk: has_new_chunk,
        need_to_reshard: false,
    }
}

/// The context in which the last new chunk is applied.
pub fn main_shard_context(shard_uid: ShardUId) -> (r: ShardContext)
    ensures
        r == validators_context(shard_uid, true),
{
    ShardContext {
        shard_uid,
        cares_about_shard_this_epoch: true,
        will_shard_layout_change: false,
        should_apply_chunk: true,
        need_to_reshard: false,
    }
}

/// The context in which a block without a new chunk is applied.
pub fn implicit_shard_context(shard_uid: ShardUId) -> (r: ShardContext)
    ensures
        r == validators_context(shard_uid, false),
{
    ShardContext {
        shard_uid,
        cares_about_shard_this_epoch: true,
        will_shard_layout_change: false,
        should_apply_chunk: false,
        need_to_reshard: false,
    }
}

/// What to run in order to apply a block without a new chunk.
#[derive(Debug)]
pub struct OldChunkData {
    pub prev_chunk_extra: ChunkExtra,
    /// The states that a split of the shard leads to, if the shard is split in this block.
    pub resharding_state_roots: Option<Vec<CryptoHash>>,
    pub block: ApplyChunkBlockContext,
    pub storage_context: StorageContext,
}

/// What a chunk's successor has to say about it, from what applying it came to.
pub fn apply_result_to_chunk_extra(apply_result: ApplyChunkResult, chunk: &ShardChunkHeader) -> (r:
    ChunkExtra)
    ensures
        r == (ChunkExtra {
            state_root: apply_result.new_root,
            outcome_root: apply_result.outcome_root,
            validator_proposals: apply_result.validator_proposals,
            gas_used: apply_result.total_gas_burnt,
            gas_limit: chunk.inner.gas_limit,
            balance_burnt: apply_result.total_balance_burnt,
        }),
        r.state_root == apply_result.new_root,
        r.outcome_root == apply_result.outcome_root,
        r.validator_proposals == apply_result.validator_proposals,
        r.gas_used == apply_result.total_gas_burnt,
        r.gas_limit == chunk.inner.gas_limit,
        r.balance_burnt == apply_result.total_balance_burnt,
{
    ChunkExtra {
        state_root: apply_result.new_root,
        outcome_root: apply_result.outcome_root,
        validator_proposals: apply_result.validator_proposals,
        gas_used: apply_result.total_gas_burnt,
        gas_limit: chunk.inner.gas_limit,
        balance_burnt: apply_result.total_balance_burnt,
    }
}

/// A validation of which the last new chunk has been applied, and of the blocks after it the
/// first few.
#[derive(Debug)]
pub struct WitnessValidation {
    /// The header of the chunk that is validated.
    pub chunk_header: ShardChunkHeader,
    /// The state that the last new chunk leads to, as the witness has it.
    pub main_post_state_root: CryptoHash,
    /// The blocks after the last new chunk, oldest first.
    pub blocks: Vec<ApplyChunkBlockContext>,
    /// The transitions of these blocks, as the witness has them.
    pub transitions: Vec<ChunkStateTransition>,
    /// How many of the blocks have been applied.
    pub applied: usize,
    /// What has been computed so far.
    pub chunk_extra: ChunkExtra,
    /// The receipts that the last new chunk sends.
    pub outgoing_receipts: Vec<Receipt>,
}

/// What a validation needs done next.
#[derive(Clone, Copy, Debug, PartialEq, Eq)]
pub enum ValidationStep {
    /// Apply the next block that has no new chunk.
    ApplyOldChunk,
    /// Hash the outgoing receipts, by the shard layout that follows this block.
    HashOutgoingReceipts { prev_block_hash: CryptoHash },
}

impl WitnessValidation {
    /// How many blocks there are to apply. Where the witness has fewer transitions than there are
    /// blocks, or more, the rest is left alone.
    pub open spec fn to_apply(self) -> int {
        if self.blocks@.len() <= self.transitions@.len() {
            self.blocks@.len() as int
        } else {
            self.transitions@.len() as int
        }
    }

    /// The state that the witness claims after the blocks applied so far.
    pub open spec fn claimed_root(self) -> CryptoHash {
        if self.applied == 0 {
            self.main_post_state_root
        } else {
            self.transitions@[self.applied - 1].post_state_root
        }
    }

    /// The state computed so far is the one that the witness claims.
    pub open spec fn wf(self) -> bool {
        &&& self.applied <= self.to_apply()
        &&& self.chunk_extra.state_root == self.claimed_root()
    }

    /// The validation once the next block has been applied and has led to the given state, which
    /// has to be the one that the witness claims.
    pub open spec fn after_applied(self, root: CryptoHash) -> Result<WitnessValidation, Error> {
        let expected = self.transitions@[self.applied as int].post_state_root;
        if root == expected {
            Ok(
                WitnessValidation {
                    applied: (self.applied + 1) as usize,
                    chunk_extra: ChunkExtra { state_root: root, ..self.chunk_extra },
                    ..self
                },
            )
        } else {
            Err(
                Error::InvalidChunkStateWitness(
                    WitnessFault::ImplicitPostStateRoot {
                        computed: root,
                        block_hash: self.blocks@[self.applied as int].block_hash,
                        expected,
                    },
                ),
            )
        }
    }

    /// The validation once one block after the other has been applied and has led to the given
    /// states, if all of them are those that the witness claims.
    pub open spec fn after_all_applied(self, roots: Seq<CryptoHash>) -> Option<WitnessValidation>
        decreases roots.len(),
    {
        if roots.len() == 0 {
            Some(self)
        } else {
            match self.after_all_applied(roots.drop_last()) {
                Some(validation) => match validation.after_applied(roots.last()) {
                    Ok(next) => Some(next),
                    Err(_) => None,
                },
                None => None,
            }
        }
    }

    /// The next blocks lead to these states, as the witness has it.
    pub open spec fn claims_all(self, roots: Seq<CryptoHash>) -> bool {
        forall|i: int|
            0 <= i < roots.len() ==> #[trigger] roots[i] == self.transitions@[self.applied
                + i].post_state_root
    }

    /// What is to be done next.
    pub fn next(&self) -> (r: ValidationStep)
        requires
            self.wf(),
        ensures
            r == (if self.applied < self.to_apply() {
                ValidationStep::ApplyOldChunk
            } else {
                ValidationStep::HashOutgoingReceipts {
                    prev_block_hash: self.chunk_header.inner.prev_block_hash,
                }
            }),
    {
        if self.applied < self.blocks.len() && self.applied < self.transitions.len() {
            ValidationStep::ApplyOldChunk
        } else {
            ValidationStep::HashOutgoingReceipts {
                prev_block_hash: self.chunk_header.inner.prev_block_hash,
            }
        }
    }

    /// What to run in order to apply the next block.
    pub fn old_chunk_data(&self) -> (r: OldChunkData)
        requires
            self.wf(),
            self.applied < self.to_apply(),
        ensures
            r.prev_chunk_extra.state_root == self.chunk_extra.state_root,
            r.prev_chunk_extra.agrees_but_for_root(self.chunk_extra),
            r.prev_chunk_extra.outcome_root == self.chunk_extra.outcome_root,
            r.prev_chunk_extra.validator_proposals@ == self.chunk_extra.validator_proposals@,
            r.prev_chunk_extra.gas_used == self.chunk_extra.gas_used,
            r.prev_chunk_extra.gas_limit == self.chunk_extra.gas_limit,
            r.prev_chunk_extra.balance_burnt == self.chunk_extra.balance_burnt,
            r.resharding_state_roots is None,
            r.block == self.blocks@[self.applied as int],
            nodes_view(r.storage_context.recorded_nodes@) == nodes_view(
                self.transitions@[self.applied as int].base_state@,
            ),
            ({
                let nodes = r.storage_context.recorded_nodes@;
                let given = self.transitions@[self.applied as int].base_state@;
                &&& nodes.len() == given.len()
                &&& forall|i: int| 0 <= i < nodes.len() ==> (#[trigger] nodes[i])@ == given[i]@
            }),
            !r.storage_context.record_storage,
    {
        OldChunkData {
            prev_chunk_extra: self.chunk_extra.clone(),
            resharding_state_roots: None,
            block: self.blocks[self.applied],
            storage_context: StorageContext {
                recorded_nodes: clone_nodes(&self.transitions[self.applied].base_state),
                record_storage: false,
            },
        }
    }

    /// Takes up the state that applying the next block led to. It has to be the one that the
    /// witness claims.
    pub fn old_chunk_applied(&mut self, new_root: Result<CryptoHash, Error>) -> (r: Result<
        (),
        Error,
    >)
        requires
            old(self).wf(),
            old(self).applied < old(self).to_apply(),
        ensures
            match new_root {
                Err(error) => r == Err::<(), Error>(error) && *final(self) == *old(self),
                Ok(root) => match old(self).after_applied(root) {
                    Ok(next) => {
                        &&& r == Ok::<(), Error>(())
                        &&& *final(self) == next
                        &&& final(self).wf()
                    },
                    Err(error) => r == Err::<(), Error>(error) && *final(self) == *old(self),
                },
            },
    {
        let root = match new_root {
            Ok(root) => root,
            Err(error) => {
                return Err(error);
            },
        };
        let expected = self.transitions[self.applied].post_state_root;
        if root != expected {
            return Err(
                Error::InvalidChunkStateWitness(
                    WitnessFault::ImplicitPostStateRoot {
                        computed: root,
                        block_hash: self.blocks[self.applied].block_hash,
                        expected,
                    },
                ),
            );
        }
        self.chunk_extra.state_root = root;
        let claimed = self.transitions.len();
        assert(self.applied < claimed);
        self.applied = self.applied + 1;
        Ok(())
    }

    /// The root of the tree over the hashes of the outgoing receipts. Together with
    /// `chunk_extra` it is what the header of the validated chunk is held against.
    pub fn outgoing_receipts_root(&self, hashes: Result<Vec<CryptoHash>, Error>) -> (r: Result<
        CryptoHash,
        Error,
    >)
        requires
            self.wf(),
            self.applied == self.to_apply(),
        ensures
            match hashes {
                Ok(hashes) => r matches Ok(root) && root.0@ == merkle_root_of_hashes(
                    hashes_view(hashes@),
                ),
                Err(error) => r == Err::<CryptoHash, Error>(error),
            },
    {
        match hashes {
            Ok(hashes) => Ok(merklize_hashes(&hashes)),
            Err(error) => Err(error),
        }
    }
}

/// A validation of which the last new chunk has been applied, or why there is none.
pub open spec fn validation_started(
    state_witness: ChunkStateWitnessInner,
    last_chunk_header: ShardChunkHeader,
    implicit_transition_params: Vec<ApplyChunkBlockContext>,
    main_apply_result: Result<ApplyChunkResult, Error>,
) -> Result<WitnessValidation, Error> {
    match main_apply_result {
        Err(error) => Err(error),
        Ok(result) => if result.new_root == state_witness.main_state_transition.post_state_root {
            Ok(
                WitnessValidation {
                    chunk_header: state_witness.chunk_header,
                    main_post_state_root: state_witness.main_state_transition.post_state_root,
                    blocks: implicit_transition_params,
                    transitions: state_witness.implicit_transitions,
                    applied: 0,
                    chunk_extra: ChunkExtra {
                        state_root: result.new_root,
                        outcome_root: result.outcome_root,
                        validator_proposals: result.validator_proposals,
                        gas_used: result.total_gas_burnt,
                        gas_limit: last_chunk_header.inner.gas_limit,
                        balance_burnt: result.total_balance_burnt,
                    },
                    outgoing_receipts: result.outgoing_receipts,
                },
            )
        } else {
            Err(
                Error::InvalidChunkStateWitness(
                    WitnessFault::MainPostStateRoot {
                        computed: result.new_root,
                        expected: state_witness.main_state_transition.post_state_root,
                    },
                ),
            )
        },
    }
}

/// Starts a validation with what applying the last new chunk, whose header is given, came to. The
/// state that it led to has to be the one that the witness claims.
pub fn validate_chunk_state_witness(
    state_witness: ChunkStateWitnessInner,
    last_chunk_header: &ShardChunkHeader,
    implicit_transition_params: Vec<ApplyChunkBlockContext>,
    main_apply_result: Result<ApplyChunkResult, Error>,
) -> (r: Result<WitnessValidation, Error>)
    ensures
        r == validation_started(
            state_witness,
            *last_chunk_header,
            implicit_transition_params,
            main_apply_result,
        ),
        r matches Ok(validation) ==> validation.wf(),
        main_apply_result matches Err(error) ==> r == Err::<WitnessValidation, Error>(error),
        main_apply_result matches Ok(result) ==> {
            let claimed = state_witness.main_state_transition.post_state_root;
            &&& r is Ok <==> result.new_root == claimed
            &&& r matches Err(error) ==> error == Error::InvalidChunkStateWitness(
                WitnessFault::MainPostStateRoot { computed: result.new_root, expected: claimed },
            )
            &&& r matches Ok(validation) ==> {
                &&& validation.chunk_extra.state_root == result.new_root
                &&& validation.chunk_extra.outcome_root == result.outcome_root
                &&& validation.chunk_extra.validator_proposals == result.validator_proposals
                &&& validation.chunk_extra.gas_used == result.total_gas_burnt
                &&& validation.chunk_extra.gas_limit == last_chunk_header.inner.gas_limit
                &&& validation.chunk_extra.balance_burnt == result.total_balance_burnt
                &&& validation.outgoing_receipts == result.outgoing_receipts
                &&& validation.chunk_header == state_witness.chunk_header
                &&& validation.main_post_state_root == claimed
                &&& validation.blocks == implicit_transition_params
                &&& validation.transitions == state_witness.implicit_transitions
                &&& validation.applied == 0
            }
        },
{
    let ApplyChunkResult {
        new_root,
        outcome_root,
        outgoing_receipts,
        validator_proposals,
        total_gas_burnt,
        total_balance_burnt,
    } = match main_apply_result {
        Ok(result) => result,
        Err(error) => {
            return Err(error);
        },
    };
    let chunk_extra = apply_result_to_chunk_extra(
        ApplyChunkResult {
            new_root,
            outcome_root,
            outgoing_receipts: Vec::new(),
            validator_proposals,
            total_gas_burnt,
            total_balance_burnt,
        },
        last_chunk_header,
    );
    let expected = state_witness.main_state_transition.post_state_root;
    if chunk_extra.state_root != expected {
        return Err(
            Error::InvalidChunkStateWitness(
                WitnessFault::MainPostStateRoot { computed: chunk_extra.state_root, expected },
            ),
        );
    }
    Ok(
        WitnessValidation {
            chunk_header: state_witness.chunk_header,
            main_post_state_root: expected,
            blocks: implicit_transition_params,
            transitions: state_witness.implicit_transitions,
            applied: 0,
            chunk_extra,
            outgoing_receipts,
        },
    )
}

/// A validation gets through the blocks exactly if each of them leads to the state that the
/// witness claims for it. What it has then computed leads to the last of these states, and is
/// otherwise what the last new chunk came to.
pub proof fn law_validation_matches_every_claim(
    validation: WitnessValidation,
    roots: Seq<CryptoHash>,
)
    requires
        validation.wf(),
        validation.applied + roots.len() <= validation.to_apply(),
    ensures
        validation.after_all_applied(roots) is Some <==> validation.claims_all(roots),
        validation.after_all_applied(roots) matches Some(done) ==> {
            &&& done.wf()
            &&& done.applied == validation.applied + roots.len()
            &&& done.chunk_extra.state_root == done.claimed_root()
            &&& done.chunk_extra.agrees_but_for_root(validation.chunk_extra)
            &&& done.chunk_header == validation.chunk_header
            &&& done.blocks == validation.blocks
            &&& done.transitions == validation.transitions
            &&& done.main_post_state_root == validation.main_post_state_root
            &&& done.outgoing_receipts == validation.outgoing_receipts
        },
    decreases roots.len(),
{
    if roots.len() > 0 {
        let earlier = roots.drop_last();
        let last = roots.len() - 1;
        law_validation_matches_every_claim(validation, earlier);
        assert(validation.applied + roots.len() <= validation.transitions.len());
        assert(forall|i: int| 0 <= i < earlier.len() ==> earlier[i] == roots[i]);
        if validation.after_all_applied(roots) is Some {
            assert forall|i: int| 0 <= i < roots.len() implies #[trigger] roots[i]
                == validation.transitions@[validation.applied + i].post_state_root by {
                if i < last {
                    assert(earlier[i] == roots[i]);
                }
            }
        }
        if validation.claims_all(roots) {
            assert(roots[last] == validation.transitions@[validation.applied
                + last].post_state_root);
        }
    }
}

/// A validation starts exactly if applying the last new chunk led to the state that the witness
/// claims for it. What has then been computed is what applying the chunk came to, each part of it
/// in its own place, and the gas limit is that of the chunk that was applied. The receipts that
/// the chunk sends are kept beside it.
pub proof fn law_started_validation_carries_the_result(
    state_witness: ChunkStateWitnessInner,
    last_chunk_header: ShardChunkHeader,
    blocks: Vec<ApplyChunkBlockContext>,
    result: ApplyChunkResult,
)
    ensures
        ({
            let claimed = state_witness.main_state_transition.post_state_root;
            match validation_started(state_witness, last_chunk_header, blocks, Ok(result)) {
                Ok(validation) => {
                    let extra = validation.chunk_extra;
                    &&& result.new_root == claimed
                    &&& extra.state_root == result.new_root
                    &&& extra.outcome_root == result.outcome_root
                    &&& extra.validator_proposals == result.validator_proposals
                    &&& extra.gas_used == result.total_gas_burnt
                    &&& extra.balance_burnt == result.total_balance_burnt
                    &&& extra.gas_limit == last_chunk_header.inner.gas_limit
                    &&& validation.outgoing_receipts == result.outgoing_receipts
                },
                Err(error) => {
                    &&& result.new_root != claimed
                    &&& error matches Error::InvalidChunkStateWitness(fault)
                    &&& fault matches WitnessFault::MainPostStateRoot { computed, expected }
                    &&& computed == result.new_root
                    &&& expected == claimed
                },
            }
        }),
{
}

/// A validation that has started has applied none of the blocks that it was given, holds the
/// transitions that the witness has for them, and is for the chunk that the witness is for.
pub proof fn law_started_validation_has_all_blocks_before_it(
    state_witness: ChunkStateWitnessInner,
    last_chunk_header: ShardChunkHeader,
    blocks: Vec<ApplyChunkBlockContext>,
    main_apply_result: Result<ApplyChunkResult, Error>,
)
    ensures
        match validation_started(state_witness, last_chunk_header, blocks, main_apply_result) {
            Ok(validation) => {
                &&& main_apply_result is Ok
                &&& validation.applied == 0
                &&& validation.blocks == blocks
                &&& validation.transitions == state_witness.implicit_transitions
                &&& validation.chunk_header == state_witness.chunk_header
                &&& validation.main_post_state_root
                    == state_witness.main_state_transition.post_state_root
            },
            Err(error) => main_apply_result matches Err(failure) ==> error == failure,
        },
{
}

/// Two results of applying the last new chunk that differ in a part that the next chunk's header
/// has to state start validations that differ in it too.
pub proof fn law_different_results_are_told_apart(
    state_witness: ChunkStateWitnessInner,
    last_chunk_header: ShardChunkHeader,
    blocks: Vec<ApplyChunkBlockContext>,
    one: ApplyChunkResult,
    other: ApplyChunkResult,
)
    requires
        validation_started(state_witness, last_chunk_header, blocks, Ok(one))
            == validation_started(state_witness, last_chunk_header, blocks, Ok(other)),
        one.new_root == state_witness.main_state_transition.post_state_root,
    ensures
        one.new_root == other.new_root,
        one.outcome_root == other.outcome_root,
        one.validator_proposals == other.validator_proposals,
        one.total_gas_burnt == other.total_gas_burnt,
        one.total_balance_burnt == other.total_balance_burnt,
        one.outgoing_receipts == other.outgoing_receipts,
{
    let v = validation_started(state_witness, last_chunk_header, blocks, Ok(one))->Ok_0;
    let w = validation_started(state_witness, last_chunk_header, blocks, Ok(other))->Ok_0;
    assert(v.chunk_extra == w.chunk_extra);
}

/// Applying the next block takes a validation on by exactly one block, and of what has been
/// computed it changes the state alone. It does so exactly if the block led to the state that the
/// witness claims for that block; otherwise the fault names the block and both states.
pub proof fn law_next_block_has_to_lead_to_its_claim(
    validation: WitnessValidation,
    root: CryptoHash,
)
    requires
        validation.applied < validation.transitions@.len(),
    ensures
        ({
            let at = validation.applied as int;
            let claimed = validation.transitions@[at].post_state_root;
            match validation.after_applied(root) {
                Ok(next) => {
                    &&& root == claimed
                    &&& next.applied == validation.applied + 1
                    &&& next.chunk_extra.state_root == root
                    &&& next.chunk_extra.outcome_root == validation.chunk_extra.outcome_root
                    &&& next.chunk_extra.validator_proposals
                        == validation.chunk_extra.validator_proposals
                    &&& next.chunk_extra.gas_used == validation.chunk_extra.gas_used
                    &&& next.chunk_extra.gas_limit == validation.chunk_extra.gas_limit
                    &&& next.chunk_extra.balance_burnt == validation.chunk_extra.balance_burnt
                    &&& next.blocks == validation.blocks
                    &&& next.transitions == validation.transitions
                    &&& next.outgoing_receipts == validation.outgoing_receipts
                    &&& next.chunk_header == validation.chunk_header
                    &&& next.main_post_state_root == validation.main_post_state_root
                },
                Err(error) => {
                    &&& root != claimed
                    &&& error matches Error::InvalidChunkStateWitness(fault)
                    &&& fault matches WitnessFault::ImplicitPostStateRoot {
                        computed,
                        block_hash,
                        expected,
                    }
                    &&& computed == root
                    &&& block_hash == validation.blocks@[at].block_hash
                    &&& expected == claimed
                },
            }
        }),
{
    assert(validation.applied < validation.transitions.len());
}

/// Blocks are applied as long as there are both a block and a transition left: no more of them
/// than either, and all of the one that there are fewer of.
pub proof fn law_blocks_and_transitions_go_in_pairs(validation: WitnessValidation)
    ensures
        validation.to_apply() <= validation.blocks@.len(),
        validation.to_apply() <= validation.transitions@.len(),
        validation.to_apply() == validation.blocks@.len() || validation.to_apply()
            == validation.transitions@.len(),
{
}

/// A validator applies the shard that it is given, as one that matters to it and does not change
/// its layout. The two contexts differ in one thing: whether there is a chunk to apply.
pub proof fn law_contexts_differ_in_the_chunk_alone(shard_uid: ShardUId)
    ensures
        ({
            let main = validators_context(shard_uid, true);
            let implicit = validators_context(shard_uid, false);
            &&& main.should_apply_chunk
            &&& !implicit.should_apply_chunk
            &&& implicit == (ShardContext { should_apply_chunk: false, ..main })
            &&& main.shard_uid == shard_uid
            &&& main.cares_about_shard_this_epoch
            &&& !main.will_shard_layout_change
            &&& !main.need_to_reshard
        }),
{
}

/// Two results agree but for the state exactly if they have the same outcomes, proposals, gas and
/// burnt balance; their states do not matter.
pub proof fn law_agreement_leaves_out_the_state_alone(one: ChunkExtra, other: ChunkExtra)
    ensures
        one.agrees_but_for_root(other) <==> {
            &&& one.outcome_root == other.outcome_root
            &&& one.validator_proposals@ == other.validator_proposals@
            &&& one.gas_used == other.gas_used
            &&& one.gas_limit == other.gas_limit
            &&& one.balance_burnt == other.balance_burnt
        },
{
}

/// After some blocks the witness claims the state of the last of their transitions, and before the
/// first that of the last new chunk. A validation that is sound stands at the state claimed, and
/// has applied no more blocks than there are.
pub proof fn law_sound_validation_stands_at_the_claimed_state(validation: WitnessValidation)
    ensures
        validation.applied == 0 ==> validation.claimed_root() == validation.main_post_state_root,
        0 < validation.applied <= validation.transitions@.len() ==> validation.claimed_root()
            == validation.transitions@[validation.applied - 1].post_state_root,
        validation.wf() ==> {
            &&& validation.applied <= validation.blocks@.len()
            &&& validation.applied <= validation.transitions@.len()
            &&& validation.chunk_extra.state_root == validation.claimed_root()
        },
{
}

} // verus!
