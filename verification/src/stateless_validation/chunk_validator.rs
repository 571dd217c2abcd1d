//! Chunk validation: which witnesses this node takes on, and what it does about the outcome.
use vstd::prelude::*;
use crate::stateless_validation::endorsement_cache::{recorded, ChunkEndorsementTracker};
use crate::stateless_validation::errors::{Error, WitnessFault};
use crate::types::{
    contains_account, lists_account, AccountId, BlockHeight, CryptoHash, PeerId, ReasonForBan,
    ShardChunkHeader, ShardId, Signature,
};

verus! {

/// How many block producers an endorsement is sent to.
///
/// The producer at the chunk's own height is the one that needs it. Blocks may be skipped, though,
/// and then a later producer picks the chunk up, so the next few are sent the endorsement as well.
pub const NUM_NEXT_BLOCK_PRODUCERS_TO_SEND_CHUNK_ENDORSEMENT: u64 = 5;

/// An account's word that a chunk is valid.
#[derive(Debug, PartialEq, Eq)]
pub struct ChunkEndorsement {
    pub chunk_hash: CryptoHash,
    pub account_id: AccountId,
    pub signature: Signature,
}

impl Clone for ChunkEndorsement {
    fn clone(&self) -> (r: ChunkEndorsement)
        ensures
            r == *self,
    {
        ChunkEndorsement {
            chunk_hash: self.chunk_hash,
            account_id: self.account_id.clone(),
            signature: self.signature,
        }
    }
}

/// An endorsement on its way to a block producer.
#[derive(Debug, PartialEq, Eq)]
pub struct EndorsementMessage {
    pub block_producer: AccountId,
    pub endorsement: ChunkEndorsement,
}

/// What to ask about a chunk in order to know who validates it.
#[derive(Clone, Copy, Debug, PartialEq, Eq)]
pub struct WitnessQuestion {
    /// Which epoch follows this block, and which chunk of the shard stands in it?
    pub prev_block_hash: CryptoHash,
    /// Who validates, in that epoch, the chunk of this shard ...
    pub shard_id: ShardId,
    /// ... at this height?
    pub height: BlockHeight,
}

/// The question about the chunk that a witness is for.
pub open spec fn witness_question_of(chunk_header: ShardChunkHeader) -> WitnessQuestion {
    WitnessQuestion {
        prev_block_hash: chunk_header.inner.prev_block_hash,
        shard_id: chunk_header.inner.shard_id,
        height: chunk_header.inner.height_created,
    }
}

/// What to ask about the chunk that a witness is for.
pub fn witness_question(chunk_header: &ShardChunkHeader) -> (r: WitnessQuestion)
    ensures
        r == witness_question_of(*chunk_header),
{
    WitnessQuestion {
        prev_block_hash: chunk_header.inner.prev_block_hash,
        shard_id: chunk_header.inner.shard_id,
        height: chunk_header.inner.height_created,
    }
}

/// Validates chunks for one node.
#[derive(Debug)]
pub struct ChunkValidator {
    /// The account that this node signs for, if it is a validator.
    pub my_signer: Option<AccountId>,
}

/// What to do once a witness has been validated.
#[derive(Debug, PartialEq, Eq)]
pub enum ValidationOutcome {
    /// Endorse the chunk.
    Endorse,
    /// Ban the peer that sent the witness.
    BanPeer { peer_id: PeerId, ban_reason: ReasonForBan },
    /// Do nothing more.
    Ignore,
}

/// A witness that is at fault bans its sender; a failure of another kind does not.
pub open spec fn outcome_of(result: Result<(), Error>, peer_id: PeerId) -> ValidationOutcome {
    match result {
        Ok(()) => ValidationOutcome::Endorse,
        Err(error) => if error.blames_witness() {
            ValidationOutcome::BanPeer { peer_id, ban_reason: ReasonForBan::BadChunkStateWitness }
        } else {
            ValidationOutcome::Ignore
        },
    }
}

impl ChunkValidator {
    /// A validator that signs with the given account, if any.
    pub fn new(my_signer: Option<AccountId>) -> (r: ChunkValidator)
        ensures
            r.my_signer == my_signer,
    {
        ChunkValidator { my_signer }
    }

    /// The account in whose name this node validates a chunk, or why it does not.
    pub open spec fn taken_on(
        self,
        signature_is_valid: Result<bool, Error>,
        epoch_id: Result<CryptoHash, Error>,
        chunk_validator_assignments: Result<Vec<AccountId>, Error>,
    ) -> Result<AccountId, Error> {
        match (signature_is_valid, self.my_signer, epoch_id, chunk_validator_assignments) {
            (Err(error), _, _, _) => Err(error),
            (Ok(false), _, _, _) => Err(
                Error::InvalidChunkStateWitness(WitnessFault::InvalidSignature),
            ),
            (_, None, _, _) => Err(Error::NotAValidator),
            (_, _, Err(error), _) => Err(error),
            (_, _, _, Err(error)) => Err(error),
            (_, Some(me), _, Ok(assignments)) => if lists_account(assignments@, me@) {
                Ok(me)
            } else {
                Err(Error::NotAChunkValidator)
            },
        }
    }

    /// Decides whether this node validates a chunk, from whether the witness's signature holds,
    /// whether the epoch of the chunk is known, and who is assigned to validate the chunk. Hands
    /// back the account that endorses the chunk once it is found valid.
    ///
    /// This node validates only chunks that it is assigned to. Where there are no assignments, as
    /// before chunk validators are introduced, it validates none.
    pub fn start_validating_chunk(
        &self,
        signature_is_valid: Result<bool, Error>,
        epoch_id: Result<CryptoHash, Error>,
        chunk_validator_assignments: Result<Vec<AccountId>, Error>,
    ) -> (r: Result<AccountId, Error>)
        ensures
            r == self.taken_on(signature_is_valid, epoch_id, chunk_validator_assignments),
            r matches Ok(account) ==> {
                &&& signature_is_valid == Ok::<bool, Error>(true)
                &&& self.my_signer == Some(account)
                &&& epoch_id is Ok
                &&& chunk_validator_assignments matches Ok(assignments)
                &&& exists|i: int|
                    0 <= i < assignments@.len() && (#[trigger] assignments@[i])@ == account@
            },
            signature_is_valid == Ok::<bool, Error>(true) && epoch_id is Ok ==> (match (
                self.my_signer,
                chunk_validator_assignments,
            ) {
                (Some(me), Ok(assignments)) => {
                    ||| r == Ok::<AccountId, Error>(me)
                    ||| {
                        &&& r == Err::<AccountId, Error>(Error::NotAChunkValidator)
                        &&& forall|i: int|
                            0 <= i < assignments@.len() ==> (#[trigger] assignments@[i])@ != me@
                    }
                },
                (None, _) => r == Err::<AccountId, Error>(Error::NotAValidator),
                (Some(_), Err(error)) => r == Err::<AccountId, Error>(error),
            }),
    {
        match signature_is_valid {
            Ok(true) => {},
            Ok(false) => {
                return Err(Error::InvalidChunkStateWitness(WitnessFault::InvalidSignature));
            },
            Err(error) => {
                return Err(error);
            },
        }
        let my_signer = match &self.my_signer {
            Some(my_signer) => my_signer,
            None => {
                return Err(Error::NotAValidator);
            },
        };
        match epoch_id {
            Ok(_) => {},
            Err(error) => {
                return Err(error);
            },
        }
        let assignments = match chunk_validator_assignments {
            Ok(assignments) => assignments,
            Err(error) => {
                return Err(error);
            },
        };
        if !contains_account(&assignments, my_signer) {
            return Err(Error::NotAChunkValidator);
        }
        Ok(my_signer.clone())
    }

    /// What to do once a witness that this node took on has been validated.
    pub fn validation_finished(result: Result<(), Error>, peer_id: PeerId) -> (r: ValidationOutcome)
        ensures
            r == outcome_of(result, peer_id),
    {
        match result {
            Ok(()) => ValidationOutcome::Endorse,
            Err(Error::InvalidChunkStateWitness(_)) => ValidationOutcome::BanPeer {
                peer_id,
                ban_reason: ReasonForBan::BadChunkStateWitness,
            },
            Err(_) => ValidationOutcome::Ignore,
        }
    }
}

/// The heights whose block producers an endorsement of a chunk is meant for.
pub fn endorsement_heights(chunk_header: &ShardChunkHeader) -> (r: Vec<BlockHeight>)
    requires
        chunk_header.inner.height_created + NUM_NEXT_BLOCK_PRODUCERS_TO_SEND_CHUNK_ENDORSEMENT
            <= u64::MAX + 1,
    ensures
        r@.len() == NUM_NEXT_BLOCK_PRODUCERS_TO_SEND_CHUNK_ENDORSEMENT,
        r@.len() == 5,
        forall|i: int|
            0 <= i < r@.len() ==> #[trigger] r@[i] == chunk_header.inner.height_created + i,
{
    let mut r: Vec<BlockHeight> = Vec::new();
    let mut i: u64 = 0;
    while i < NUM_NEXT_BLOCK_PRODUCERS_TO_SEND_CHUNK_ENDORSEMENT
        invariant
            i <= NUM_NEXT_BLOCK_PRODUCERS_TO_SEND_CHUNK_ENDORSEMENT,
            chunk_header.inner.height_created + NUM_NEXT_BLOCK_PRODUCERS_TO_SEND_CHUNK_ENDORSEMENT
                <= u64::MAX + 1,
            r@.len() == i,
            forall|j: int|
                0 <= j < i ==> #[trigger] r@[j] == chunk_header.inner.height_created + j,
        decreases NUM_NEXT_BLOCK_PRODUCERS_TO_SEND_CHUNK_ENDORSEMENT - i,
    {
        r.push(chunk_header.inner.height_created + i);
        i += 1;
    }
    r
}

/// The block producers that are known before the first one that is not.
pub open spec fn known_producers(producers: Seq<Option<AccountId>>) -> Seq<AccountId>
    decreases producers.len(),
{
    if producers.len() == 0 {
        Seq::empty()
    } else {
        match producers[0] {
            Some(producer) => seq![producer] + known_producers(producers.drop_first()),
            None => Seq::empty(),
        }
    }
}

/// The messages that carry an endorsement to all of the producers but this node itself.
pub open spec fn messages_to_others(
    producers: Seq<AccountId>,
    endorsement: ChunkEndorsement,
) -> Seq<EndorsementMessage>
    decreases producers.len(),
{
    if producers.len() == 0 {
        Seq::empty()
    } else {
        let before = messages_to_others(producers.drop_last(), endorsement);
        if producers.last()@ == endorsement.account_id@ {
            before
        } else {
            before.push(EndorsementMessage { block_producer: producers.last(), endorsement })
        }
    }
}

/// Every producer but this node itself is sent the endorsement, and nobody else is.
pub proof fn law_endorsement_goes_to_other_producers(
    producers: Seq<AccountId>,
    endorsement: ChunkEndorsement,
)
    ensures
        ({
            let messages = messages_to_others(producers, endorsement);
            &&& forall|i: int|
                0 <= i < producers.len() && (#[trigger] producers[i])@ != endorsement.account_id@
                    ==> messages.contains(
                    EndorsementMessage { block_producer: producers[i], endorsement },
                )
            &&& forall|j: int|
                0 <= j < messages.len() ==> {
                    let message = #[trigger] messages[j];
                    &&& message.endorsement == endorsement
                    &&& message.block_producer@ != endorsement.account_id@
                    &&& producers.contains(message.block_producer)
                }
        }),
    decreases producers.len(),
{
    if producers.len() > 0 {
        let earlier = producers.drop_last();
        let last = producers.len() - 1;
        law_endorsement_goes_to_other_producers(earlier, endorsement);
        let before = messages_to_others(earlier, endorsement);
        let messages = messages_to_others(producers, endorsement);
        assert forall|i: int|
            0 <= i < producers.len() && (#[trigger] producers[i])@
                != endorsement.account_id@ implies messages.contains(
            EndorsementMessage { block_producer: producers[i], endorsement },
        ) by {
            let message = EndorsementMessage { block_producer: producers[i], endorsement };
            if i < last {
                assert(earlier[i] == producers[i]);
                let j = choose|j: int| 0 <= j < before.len() && before[j] == message;
                assert(messages[j] == message);
            } else {
                assert(messages[messages.len() - 1] == message);
            }
        }
        assert forall|j: int| 0 <= j < messages.len() implies ({
            let message = #[trigger] messages[j];
            &&& message.endorsement == endorsement
            &&& message.block_producer@ != endorsement.account_id@
            &&& producers.contains(message.block_producer)
        }) by {
            if j < before.len() {
                assert(messages[j] == before[j]);
                let i = choose|i: int|
                    0 <= i < earlier.len() && earlier[i] == before[j].block_producer;
                assert(producers[i] == before[j].block_producer);
            } else {
                assert(producers[last] == messages[j].block_producer);
            }
        }
    }
}

/// What the node's own tracker holds once an endorsement has been sent out: the endorsement is
/// recorded where the node itself is one of the producers that it is meant for.
pub open spec fn tracked_after(
    entries: Seq<(Seq<u8>, Map<Seq<char>, Seq<u8>>)>,
    capacity: nat,
    block_producers: Seq<Option<AccountId>>,
    endorsement: ChunkEndorsement,
) -> Seq<(Seq<u8>, Map<Seq<char>, Seq<u8>>)> {
    if lists_account(known_producers(block_producers), endorsement.account_id@) {
        recorded(
            entries,
            capacity,
            endorsement.chunk_hash.0@,
            endorsement.account_id@,
            endorsement.signature.0@,
        )
    } else {
        entries
    }
}

proof fn lemma_known_producers(producers: Seq<Option<AccountId>>, n: int)
    requires
        0 <= n <= producers.len(),
        forall|i: int| 0 <= i < n ==> (#[trigger] producers[i]) is Some,
        n < producers.len() ==> producers[n] is None,
    ensures
        known_producers(producers).len() == n,
        forall|i: int|
            0 <= i < n ==> producers[i] == Some(#[trigger] known_producers(producers)[i]),
    decreases n,
{
    if n > 0 {
        let rest = producers.drop_first();
        assert forall|i: int| 0 <= i < n - 1 implies (#[trigger] rest[i]) is Some by {
            assert(producers[i + 1] is Some);
        }
        lemma_known_producers(rest, n - 1);
        assert(producers[0] is Some);
        assert forall|i: int| 0 <= i < n implies producers[i] == Some(
            #[trigger] known_producers(producers)[i],
        ) by {
            if i > 0 {
                assert(rest[i - 1] == Some(known_producers(rest)[i - 1]));
            }
        }
    }
}

/// Endorses a chunk towards the next block producers, `block_producers` being what is known of
/// the producer at each height of [`endorsement_heights`]. At the end of an epoch the later ones
/// are not known; what comes behind the first that is not known is left out.
///
/// The network does not carry a message of this node to itself, so where this node is one of the
/// producers the endorsement is recorded right away. The others get the messages handed back.
pub fn send_chunk_endorsement_to_block_producers(
    chunk_header: &ShardChunkHeader,
    block_producers: &Vec<Option<AccountId>>,
    validator_id: &AccountId,
    signature: Signature,
    my_chunk_endorsements: &mut ChunkEndorsementTracker,
) -> (r: Vec<EndorsementMessage>)
    requires
        block_producers@.len() > 0,
        block_producers@[0] is Some,
    ensures
        ({
            let endorsement = ChunkEndorsement {
                chunk_hash: chunk_header.inner.chunk_hash,
                account_id: *validator_id,
                signature,
            };
            &&& r@ == messages_to_others(known_producers(block_producers@), endorsement)
            &&& final(my_chunk_endorsements)@ == tracked_after(
                old(my_chunk_endorsements)@,
                old(my_chunk_endorsements).capacity(),
                block_producers@,
                endorsement,
            )
        }),
        final(my_chunk_endorsements).capacity() == old(my_chunk_endorsements).capacity(),
{
    let mut known: usize = 0;
    while known < block_producers.len() && block_producers[known].is_some()
        invariant
            known <= block_producers@.len(),
            forall|i: int| 0 <= i < known ==> (#[trigger] block_producers@[i]) is Some,
        decreases block_producers@.len() - known,
    {
        known += 1;
    }
    let ghost producers = known_producers(block_producers@);
    proof {
        lemma_known_producers(block_producers@, known as int);
    }
    let endorsement = ChunkEndorsement {
        chunk_hash: chunk_header.inner.chunk_hash,
        account_id: validator_id.clone(),
        signature,
    };
    let mut messages: Vec<EndorsementMessage> = Vec::new();
    let mut is_producer = false;
    let mut i: usize = 0;
    assert(producers.take(0) =~= Seq::empty());
    while i < known
        invariant
            i <= known <= block_producers@.len(),
            producers.len() == known,
            forall|j: int| 0 <= j < known ==> block_producers@[j] == Some(#[trigger] producers[j]),
            endorsement == (ChunkEndorsement {
                chunk_hash: chunk_header.inner.chunk_hash,
                account_id: *validator_id,
                signature,
            }),
            messages@ == messages_to_others(producers.take(i as int), endorsement),
            is_producer == lists_account(producers.take(i as int), validator_id@),
        decreases known - i,
    {
        proof {
            assert(producers.take(i + 1).drop_last() =~= producers.take(i as int));
            assert(producers.take(i + 1).last() == producers[i as int]);
            assert(lists_account(producers.take(i + 1), validator_id@) == (lists_account(
                producers.take(i as int),
                validator_id@,
            ) || producers[i as int]@ == validator_id@)) by {
                let before = producers.take(i as int);
                let now = producers.take(i + 1);
                if lists_account(before, validator_id@) {
                    let j = choose|j: int|
                        0 <= j < before.len() && (#[trigger] before[j])@ == validator_id@;
                    assert(now[j]@ == validator_id@);
                }
                if producers[i as int]@ == validator_id@ {
                    assert(now[i as int]@ == validator_id@);
                }
                if lists_account(now, validator_id@) {
                    let j = choose|j: int|
                        0 <= j < now.len() && (#[trigger] now[j])@ == validator_id@;
                    if j < i {
                        assert(before[j]@ == validator_id@);
                    }
                }
            }
        }
        match &block_producers[i] {
            Some(block_producer) => {
                assert(*block_producer == producers[i as int]);
                if *validator_id == *block_producer {
                    is_producer = true;
                } else {
                    messages.push(
                        EndorsementMessage {
                            block_producer: block_producer.clone(),
                            endorsement: endorsement.clone(),
                        },
                    );
                }
            },
            None => {
                assert(block_producers@[i as int] == Some(producers[i as int]));
            },
        }
        i += 1;
    }
    assert(producers.take(i as int) =~= producers);
    if is_producer {
        my_chunk_endorsements.record(&endorsement.chunk_hash, validator_id, &signature);
    }
    messages
}

/// What to do with a witness that has come in.
#[derive(Debug, PartialEq, Eq)]
pub enum WitnessAction {
    /// Endorse the chunk without looking at the witness, in the name of this account.
    Endorse(AccountId),
    /// Validate the witness.
    Validate,
}

/// Whom to ban after a witness was refused or taken on, and why.
pub open spec fn ban_after(result: Result<(), Error>, peer_id: PeerId) -> Option<
    (PeerId, ReasonForBan),
> {
    match result {
        Err(error) => if error.blames_witness() {
            Some((peer_id, ReasonForBan::BadChunkStateWitness))
        } else {
            None
        },
        Ok(()) => None,
    }
}

/// The node's part in stateless validation.
pub struct Client {
    pub validator_signer: Option<AccountId>,
    pub chunk_validator: ChunkValidator,
}

impl Client {
    /// What to do with a witness: it is checked, unless the chunk before stands in the first block.
    pub open spec fn action_on(
        self,
        prev_chunk_header: Result<ShardChunkHeader, Error>,
    ) -> Result<WitnessAction, Error> {
        match prev_chunk_header {
            Err(error) => Err(error),
            Ok(header) => if header.inner.prev_block_hash.is_zero() {
                match self.validator_signer {
                    Some(me) => Ok(WitnessAction::Endorse(me)),
                    None => Err(Error::NotAChunkValidator),
                }
            } else {
                Ok(WitnessAction::Validate)
            },
        }
    }

    /// Decides what to do with a witness that a chunk's producer sent, `prev_chunk_header` being
    /// the header of the chunk before the one that the witness is for.
    ///
    /// The chunks of the first block cannot be run, so there is no witness to check for the first
    /// chunk after them; it is endorsed as it is.
    pub fn process_chunk_state_witness(
        &self,
        prev_chunk_header: Result<ShardChunkHeader, Error>,
    ) -> (r: Result<WitnessAction, Error>)
        ensures
            r == self.action_on(prev_chunk_header),
    {
        let prev_chunk_header = match prev_chunk_header {
            Ok(header) => header,
            Err(error) => {
                return Err(error);
            },
        };
        if prev_chunk_header.inner.prev_block_hash.is_default() {
            return match &self.validator_signer {
                Some(signer) => Ok(WitnessAction::Endorse(signer.clone())),
                None => Err(Error::NotAChunkValidator),
            };
        }
        Ok(WitnessAction::Validate)
    }

    /// Whom to ban after a witness was refused or taken on, and why: the peer that sent it, where
    /// the witness itself is at fault.
    pub fn witness_processed(result: &Result<(), Error>, peer_id: PeerId) -> (r: Option<
        (PeerId, ReasonForBan),
    >)
        ensures
            r == ban_after(*result, peer_id),
    {
        match result {
            Err(Error::InvalidChunkStateWitness(_)) => Some(
                (peer_id, ReasonForBan::BadChunkStateWitness),
            ),
            _ => None,
        }
    }
}

/// A node takes a chunk on exactly if the witness's signature holds, all that it asked for was
/// answered, and its own account is one of those that are assigned to the chunk. It does so in the
/// name of that account.
pub proof fn law_node_validates_only_what_it_is_assigned_to(
    validator: ChunkValidator,
    signature_is_valid: Result<bool, Error>,
    epoch_id: Result<CryptoHash, Error>,
    chunk_validator_assignments: Result<Vec<AccountId>, Error>,
    account: AccountId,
)
    ensures
        validator.taken_on(signature_is_valid, epoch_id, chunk_validator_assignments) == Ok::<
            AccountId,
            Error,
        >(account) <==> {
            &&& signature_is_valid == Ok::<bool, Error>(true)
            &&& validator.my_signer == Some(account)
            &&& epoch_id is Ok
            &&& chunk_validator_assignments matches Ok(assignments)
            &&& exists|i: int|
                0 <= i < assignments@.len() && (#[trigger] assignments@[i])@ == account@
        },
{
}

/// A node that has an account, and to which everything was answered, declines a chunk whose
/// witness is signed for one reason only: none of the accounts that are assigned to the chunk is
/// its own.
pub proof fn law_node_declines_what_it_is_not_assigned_to(
    validator: ChunkValidator,
    me: AccountId,
    epoch_id: CryptoHash,
    assignments: Vec<AccountId>,
)
    requires
        validator.my_signer == Some(me),
    ensures
        validator.taken_on(Ok(true), Ok(epoch_id), Ok(assignments)) == Err::<AccountId, Error>(
            Error::NotAChunkValidator,
        ) <==> (forall|i: int|
            0 <= i < assignments@.len() ==> (#[trigger] assignments@[i])@ != me@),
        validator.taken_on(Ok(true), Ok(epoch_id), Ok(assignments)) matches Err(error)
            ==> error == Error::NotAChunkValidator,
{
}

/// A witness is looked at in a fixed order: first its signature, then whether the node has an
/// account at all, then the epoch, and last the assignments. The first of these that stands in the
/// way is the reason given.
pub proof fn law_first_obstacle_is_the_reason(
    validator: ChunkValidator,
    error: Error,
    epoch_id: Result<CryptoHash, Error>,
    assignments: Result<Vec<AccountId>, Error>,
)
    ensures
        validator.taken_on(Err(error), epoch_id, assignments) == Err::<AccountId, Error>(error),
        validator.taken_on(Ok(false), epoch_id, assignments) == Err::<AccountId, Error>(
            Error::InvalidChunkStateWitness(WitnessFault::InvalidSignature),
        ),
        validator.my_signer is None ==> validator.taken_on(Ok(true), epoch_id, assignments)
            == Err::<AccountId, Error>(Error::NotAValidator),
        validator.my_signer is Some ==> validator.taken_on(Ok(true), Err(error), assignments)
            == Err::<AccountId, Error>(error),
        validator.my_signer is Some && epoch_id is Ok ==> validator.taken_on(
            Ok(true),
            epoch_id,
            Err(error),
        ) == Err::<AccountId, Error>(error),
{
}

/// A peer is banned because of a witness exactly if the witness itself was found at fault, and a
/// chunk is endorsed exactly if its witness was found valid. Any other failure is nobody's fault.
pub proof fn law_only_a_faulty_witness_bans(result: Result<(), Error>, peer_id: PeerId)
    ensures
        outcome_of(result, peer_id) is Endorse <==> result is Ok,
        outcome_of(result, peer_id) is BanPeer <==> (result matches Err(error)
            && error is InvalidChunkStateWitness),
        outcome_of(result, peer_id) matches ValidationOutcome::BanPeer {
            peer_id: banned,
            ban_reason,
        } ==> banned == peer_id && ban_reason == ReasonForBan::BadChunkStateWitness,
{
}

/// A chunk is endorsed unseen exactly if the chunk before it stands in the first block, which is
/// the one that no block comes before, and the node has an account to endorse it with.
pub proof fn law_endorsed_unseen_only_after_the_first_block(client: Client, prev: ShardChunkHeader)
    ensures
        ({
            let is_first = forall|i: int|
                0 <= i < 32 ==> #[trigger] prev.inner.prev_block_hash.0@[i] == 0;
            match client.action_on(Ok(prev)) {
                Ok(WitnessAction::Endorse(account)) => is_first && client.validator_signer == Some(
                    account,
                ),
                Ok(WitnessAction::Validate) => !is_first,
                Err(error) => {
                    &&& is_first
                    &&& client.validator_signer is None
                    &&& error == Error::NotAChunkValidator
                },
            }
        }),
        forall|error: Error| #[trigger]
            client.action_on(Err(error)) == Err::<WitnessAction, Error>(error),
{
}

/// The producers that an endorsement is meant for are those at the front of the list that are
/// known, in their order: all of them, up to the first that is not known.
pub proof fn law_producers_up_to_the_first_unknown(producers: Seq<Option<AccountId>>)
    ensures
        ({
            let known = known_producers(producers);
            let n = known.len() as int;
            &&& n <= producers.len()
            &&& forall|i: int| 0 <= i < n ==> producers[i] == Some(#[trigger] known[i])
            &&& n < producers.len() ==> producers[n] is None
        }),
    decreases producers.len(),
{
    if producers.len() > 0 && producers[0] is Some {
        let rest = producers.drop_first();
        law_producers_up_to_the_first_unknown(rest);
        let known = known_producers(producers);
        assert forall|i: int| 0 <= i < known.len() implies producers[i] == Some(
            #[trigger] known[i],
        ) by {
            if i > 0 {
                assert(rest[i - 1] == Some(known_producers(rest)[i - 1]));
            }
        }
        let n = known.len() as int;
        if n < producers.len() {
            assert(rest[n - 1] == producers[n]);
        }
    }
}

/// Each place in the list of producers is worth one message, unless it is the endorsing account's
/// own: the messages for a list with one more producer are those for the list, and then the one
/// for that producer.
pub proof fn law_one_message_for_each_place(
    producers: Seq<AccountId>,
    next: AccountId,
    endorsement: ChunkEndorsement,
)
    ensures
        messages_to_others(Seq::empty(), endorsement).len() == 0,
        next@ == endorsement.account_id@ ==> messages_to_others(producers.push(next), endorsement)
            == messages_to_others(producers, endorsement),
        next@ != endorsement.account_id@ ==> messages_to_others(producers.push(next), endorsement)
            == messages_to_others(producers, endorsement) + seq![
            EndorsementMessage { block_producer: next, endorsement },
        ],
{
    assert(producers.push(next).drop_last() =~= producers);
    assert(messages_to_others(producers, endorsement) + seq![
        EndorsementMessage { block_producer: next, endorsement },
    ] =~= messages_to_others(producers, endorsement).push(
        EndorsementMessage { block_producer: next, endorsement },
    ));
}

/// The sender of a witness is banned at once exactly if the witness was refused as faulty.
pub proof fn law_only_a_refused_witness_bans_at_once(result: Result<(), Error>, peer_id: PeerId)
    ensures
        match ban_after(result, peer_id) {
            Some((banned, reason)) => {
                &&& result is Err
                &&& result->Err_0 is InvalidChunkStateWitness
                &&& banned == peer_id
                &&& reason == ReasonForBan::BadChunkStateWitness
            },
            None => result is Ok || !(result->Err_0 is InvalidChunkStateWitness),
        },
{
}

/// Who validates a chunk is asked for the chunk's own shard, at the height that it was created for,
/// in the epoch that follows the block that it builds on.
pub proof fn law_validators_are_asked_for_the_chunk_itself(chunk_header: ShardChunkHeader)
    ensures
        witness_question_of(chunk_header).prev_block_hash == chunk_header.inner.prev_block_hash,
        witness_question_of(chunk_header).shard_id == chunk_header.inner.shard_id,
        witness_question_of(chunk_header).height == chunk_header.inner.height_created,
{
}

/// A node records its own endorsement exactly if it is the producer at one of the heights up to the
/// first whose producer is not known: under the chunk's hash, with its own name and signature.
pub proof fn law_own_endorsement_is_recorded_if_the_node_produces(
    entries: Seq<(Seq<u8>, Map<Seq<char>, Seq<u8>>)>,
    capacity: nat,
    block_producers: Seq<Option<AccountId>>,
    endorsement: ChunkEndorsement,
    at: int,
)
    requires
        0 <= at <= block_producers.len(),
        forall|i: int| 0 <= i < at ==> (#[trigger] block_producers[i]) is Some,
        at < block_producers.len() ==> block_producers[at] is None,
    ensures
        ({
            let me = endorsement.account_id@;
            let produces = exists|i: int|
                0 <= i < at && (#[trigger] block_producers[i])->Some_0@ == me;
            tracked_after(entries, capacity, block_producers, endorsement) == (if produces {
                recorded(
                    entries,
                    capacity,
                    endorsement.chunk_hash.0@,
                    me,
                    endorsement.signature.0@,
                )
            } else {
                entries
            })
        }),
{
    let me = endorsement.account_id@;
    let known = known_producers(block_producers);
    lemma_known_producers(block_producers, at);
    if lists_account(known, me) {
        let i = choose|i: int| 0 <= i < known.len() && (#[trigger] known[i])@ == me;
        assert(block_producers[i]->Some_0@ == me);
    }
    if exists|i: int| 0 <= i < at && (#[trigger] block_producers[i])->Some_0@ == me {
        let i = choose|i: int| 0 <= i < at && (#[trigger] block_producers[i])->Some_0@ == me;
        assert(block_producers[i] == Some(known[i]));
        assert(known[i]@ == me);
    }
}

} // verus!
