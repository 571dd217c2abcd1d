//! Duties that come with being a validator: approving blocks, taking one's turn, and announcing
//! one's account.
use vstd::prelude::*;
use crate::client::actor::{ClientActor, RunLater, Task};
use crate::client::announce::{
    announce_fault, header_agrees, law_own_announcement_is_accepted, AnnounceAccount,
    AnnounceAccountRoute,
};
use crate::client::errors::{ChainError, Error};
use crate::crypto::{announcement_hash, build_header_hash, name_fits};
use crate::types::{
    contains_account, lists_account, AccountId, Block, BlockHeader, BlockHeight, CryptoHash, Nanos,
    Signature, Tip,
};

verus! {

/// A wish to look at whose turn it is to produce the block after `check_height`.
#[derive(Clone, Copy, Debug, PartialEq, Eq)]
pub struct Scheduling {
    /// The block to build on.
    pub block_hash: CryptoHash,
    /// The height of the head when this was wished for.
    pub last_height: BlockHeight,
    /// The last height that is not waited for any more.
    pub check_height: BlockHeight,
}

/// An approval that is to be signed and sent to the producer of the next block.
#[derive(Debug, PartialEq, Eq)]
pub struct ApprovalRequest {
    pub block_hash: CryptoHash,
    pub target: AccountId,
}

/// How far an approval has come: a question to answer next, or an end.
#[derive(Debug, PartialEq, Eq)]
pub enum ApprovalStep {
    /// Which epoch follows this block?
    AskEpoch { block_hash: CryptoHash },
    /// Who produces the block at this height in this epoch?
    AskNextProducer { epoch_hash: CryptoHash, height: BlockHeight },
    /// Who are the validators of this epoch?
    AskValidators { epoch_hash: CryptoHash, next_block_producer: AccountId },
    /// Sign this approval, and send it along.
    Sign(ApprovalRequest),
    /// There is nothing to approve.
    Nothing,
}

/// How an approval goes on once the epoch after the block is known.
pub open spec fn after_approval_epoch(
    block: Block,
    epoch_hash: Result<CryptoHash, String>,
) -> ApprovalStep {
    match epoch_hash {
        Ok(epoch_hash) => ApprovalStep::AskNextProducer {
            epoch_hash,
            height: (block.header.height + 1) as u64,
        },
        Err(_) => ApprovalStep::Nothing,
    }
}

/// A question about who produces the block at a height in an epoch.
#[derive(Clone, Copy, Debug, PartialEq, Eq)]
pub struct ProducerQuestion {
    pub epoch_hash: CryptoHash,
    pub height: BlockHeight,
}

/// A wish to see whether to announce the client's account.
#[derive(Clone, Copy, Debug, PartialEq, Eq)]
pub struct AnnounceWish {
    /// The epoch to announce the account for. It begins with the block of the same hash.
    pub epoch_hash: CryptoHash,
    /// The block whose epoch tells whether the account is a validator now.
    pub prev_hash: CryptoHash,
}

/// The first place of an account in a list.
pub open spec fn account_position(accounts: Seq<AccountId>, account_id: Seq<char>) -> Option<int>
    decreases accounts.len(),
{
    if accounts.len() == 0 {
        None
    } else {
        match account_position(accounts.drop_last(), account_id) {
            Some(i) => Some(i),
            None => if accounts.last()@ == account_id {
                Some(accounts.len() - 1)
            } else {
                None
            },
        }
    }
}

proof fn lemma_account_position(accounts: Seq<AccountId>, account_id: Seq<char>, n: int)
    requires
        0 <= n <= accounts.len(),
        forall|i: int| 0 <= i < n ==> (#[trigger] accounts[i])@ != account_id,
        n < accounts.len() ==> accounts[n]@ == account_id,
    ensures
        account_position(accounts, account_id) == (if n < accounts.len() {
            Some(n)
        } else {
            None
        }),
    decreases accounts.len(),
{
    if accounts.len() > 0 {
        if n == accounts.len() {
            lemma_account_position(accounts.drop_last(), account_id, n - 1);
        } else {
            lemma_account_position(accounts.drop_last(), account_id, n);
        }
    }
}

fn find_account(accounts: &Vec<AccountId>, account_id: &AccountId) -> (r: Option<usize>)
    ensures
        match r {
            Some(i) => account_position(accounts@, account_id@) == Some(i as int) && i
                < accounts@.len(),
            None => account_position(accounts@, account_id@) is None,
        },
{
    let mut i: usize = 0;
    while i < accounts.len()
        invariant
            i <= accounts@.len(),
            forall|j: int| 0 <= j < i ==> (#[trigger] accounts@[j])@ != account_id@,
        decreases accounts@.len() - i,
    {
        if accounts[i] == *account_id {
            proof {
                lemma_account_position(accounts@, account_id@, i as int);
            }
            return Some(i);
        }
        i += 1;
    }
    proof {
        lemma_account_position(accounts@, account_id@, i as int);
    }
    None
}

/// What a turn that failed calls for: another look at whose turn the same block is.
pub open spec fn retry_of(
    result: Result<(), Error>,
    block_hash: CryptoHash,
    last_height: BlockHeight,
    next_height: BlockHeight,
) -> Option<Scheduling> {
    match result {
        Ok(()) => None,
        Err(_) => Some(
            Scheduling { block_hash, last_height, check_height: (next_height - 1) as u64 },
        ),
    }
}

/// What a block that has been waited for calls for.
pub open spec fn timeout_of(
    last_height: BlockHeight,
    check_height: BlockHeight,
    head: Result<Tip, ChainError>,
) -> Option<Scheduling> {
    match head {
        Ok(head) => if head.height == last_height {
            Some(
                Scheduling {
                    block_hash: head.last_block_hash,
                    last_height,
                    check_height: (check_height + 1) as u64,
                },
            )
        } else {
            None
        },
        Err(_) => None,
    }
}

/// The approvals that are kept once an account's approval has been judged, or nothing where it is
/// not reasonable.
pub open spec fn approvals_after(
    approvals: Map<usize, Signature>,
    account_id: Seq<char>,
    signature: Signature,
    validators: Result<Vec<AccountId>, String>,
    signature_is_valid: bool,
) -> Option<Map<usize, Signature>> {
    match validators {
        Ok(validators) => match account_position(validators@, account_id) {
            Some(position) if signature_is_valid => Some(
                approvals.insert(position as usize, signature),
            ),
            _ => None,
        },
        Err(_) => None,
    }
}

impl Scheduling {
    /// The block whose turn is looked at, once the epoch that follows the block to build on is
    /// known.
    pub fn producer_question(&self, epoch_hash: CryptoHash) -> (r: ProducerQuestion)
        requires
            self.check_height < u64::MAX,
        ensures
            r.epoch_hash == epoch_hash,
            r.height == self.check_height + 1,
    {
        ProducerQuestion { epoch_hash, height: self.check_height + 1 }
    }
}

impl ClientActor {
    /// Begins to see which approval of a block to sign. The epoch that follows the block is asked
    /// for first.
    ///
    /// Only a validator approves, and only a block that somebody else builds on.
    pub fn get_block_approval(block: &Block) -> (r: ApprovalStep)
        ensures
            r == (ApprovalStep::AskEpoch { block_hash: block.header.hash }),
    {
        ApprovalStep::AskEpoch { block_hash: block.header.hash }
    }

    /// Goes on with an approval, given the epoch that follows the block: the producer of the next
    /// block in it is asked for.
    pub fn approval_epoch_answered(
        block: &Block,
        epoch_hash: Result<CryptoHash, String>,
    ) -> (r: ApprovalStep)
        requires
            epoch_hash is Ok ==> block.header.height < u64::MAX,
        ensures
            r == after_approval_epoch(*block, epoch_hash),
    {
        match epoch_hash {
            Ok(epoch_hash) => ApprovalStep::AskNextProducer {
                epoch_hash,
                height: block.header.height + 1,
            },
            Err(_) => ApprovalStep::Nothing,
        }
    }

    /// Goes on with an approval, given the producer of the next block: the validators of the
    /// block's own epoch are asked for, unless the client is that producer or has no account.
    pub fn approval_producer_answered(
        &self,
        block: &Block,
        next_block_producer: Result<AccountId, Error>,
    ) -> (r: ApprovalStep)
        ensures
            r == self.after_approval_producer(*block, next_block_producer),
    {
        match (&self.block_producer, next_block_producer) {
            (Some(me), Ok(next)) => {
                if *me == next {
                    ApprovalStep::Nothing
                } else {
                    ApprovalStep::AskValidators {
                        epoch_hash: block.header.epoch_hash,
                        next_block_producer: next,
                    }
                }
            },
            _ => ApprovalStep::Nothing,
        }
    }

    /// Ends with an approval or without, given the validators of the block's own epoch.
    pub fn approval_validators_answered(
        &self,
        block: &Block,
        next_block_producer: AccountId,
        validators: Result<Vec<AccountId>, String>,
    ) -> (r: ApprovalStep)
        ensures
            r == self.after_approval_validators(*block, next_block_producer, validators),
    {
        match (&self.block_producer, validators) {
            (Some(me), Ok(validators)) => {
                if contains_account(&validators, me) {
                    ApprovalStep::Sign(
                        ApprovalRequest {
                            block_hash: block.header.hash,
                            target: next_block_producer,
                        },
                    )
                } else {
                    ApprovalStep::Nothing
                }
            },
            _ => ApprovalStep::Nothing,
        }
    }

    /// How an approval goes on once the producer of the next block is known.
    pub open spec fn after_approval_producer(
        self,
        block: Block,
        next_block_producer: Result<AccountId, Error>,
    ) -> ApprovalStep {
        match (self.block_producer, next_block_producer) {
            (Some(me), Ok(next)) => if me@ == next@ {
                ApprovalStep::Nothing
            } else {
                ApprovalStep::AskValidators {
                    epoch_hash: block.header.epoch_hash,
                    next_block_producer: next,
                }
            },
            _ => ApprovalStep::Nothing,
        }
    }

    /// How an approval ends once the validators are known.
    pub open spec fn after_approval_validators(
        self,
        block: Block,
        next_block_producer: AccountId,
        validators: Result<Vec<AccountId>, String>,
    ) -> ApprovalStep {
        match (self.block_producer, validators) {
            (Some(me), Ok(validators)) => if lists_account(validators@, me@) {
                ApprovalStep::Sign(
                    ApprovalRequest {
                        block_hash: block.header.hash,
                        target: next_block_producer,
                    },
                )
            } else {
                ApprovalStep::Nothing
            },
            _ => ApprovalStep::Nothing,
        }
    }

    /// How an approval ends, given all that it asks for.
    pub open spec fn approval_outcome(
        self,
        block: Block,
        epoch_hash: Result<CryptoHash, String>,
        next_block_producer: Result<AccountId, Error>,
        validators: Result<Vec<AccountId>, String>,
    ) -> ApprovalStep {
        match after_approval_epoch(block, epoch_hash) {
            ApprovalStep::AskNextProducer { .. } => match self.after_approval_producer(
                block,
                next_block_producer,
            ) {
                ApprovalStep::AskValidators {
                    next_block_producer,
                    ..
                } => self.after_approval_validators(block, next_block_producer, validators),
                other => other,
            },
            other => other,
        }
    }

    /// Takes up an account's approval of a block, given what is known of the block's header, of
    /// the validators of its epoch, and of whether the account's signature holds. Hands back
    /// whether the approval was reasonable; an approval of a block that is not known counts as
    /// such, but is not kept.
    pub fn collect_block_approval(
        &mut self,
        account_id: &AccountId,
        signature: &Signature,
        header: Result<BlockHeader, ChainError>,
        validators: Result<Vec<AccountId>, String>,
        signature_is_valid: bool,
    ) -> (r: bool)
        ensures
            *final(self) == (ClientActor { approvals: final(self).approvals, ..*old(self) }),
            header is Err ==> r && *final(self) == *old(self),
            header is Ok ==> match approvals_after(
                old(self).approvals@,
                account_id@,
                *signature,
                validators,
                signature_is_valid,
            ) {
                Some(approvals) => r && final(self).approvals@ == approvals,
                None => !r && *final(self) == *old(self),
            },
    {
        broadcast use vstd::std_specs::hash::group_hash_axioms;

        match header {
            Ok(_) => {},
            Err(_) => {
                return true;
            },
        }
        let position = match validators {
            Ok(validators) => find_account(&validators, account_id),
            Err(_) => {
                return false;
            },
        };
        match position {
            Some(position) => {
                if !signature_is_valid {
                    return false;
                }
                self.approvals.insert(position, *signature);
                true
            },
            None => false,
        }
    }

    /// What a client does about the block after `check_height`: its producer produces it after a
    /// short delay, and any other producer looks after a longer one whether it has come.
    pub open spec fn next_duty(
        self,
        wish: Scheduling,
        epoch_hash: Result<CryptoHash, String>,
        next_block_producer: Result<AccountId, Error>,
    ) -> Option<RunLater> {
        match (epoch_hash, next_block_producer, self.block_producer) {
            (Ok(_), Ok(next), Some(me)) => Some(
                if me@ == next@ {
                    RunLater {
                        delay: self.config.min_block_production_delay,
                        task: Task::ProduceBlock {
                            block_hash: wish.block_hash,
                            last_height: wish.last_height,
                            next_height: (wish.check_height + 1) as u64,
                        },
                    }
                } else {
                    RunLater {
                        delay: self.config.max_block_production_delay,
                        task: Task::CheckBlockTimeout {
                            last_height: wish.last_height,
                            check_height: wish.check_height,
                        },
                    }
                },
            ),
            _ => None,
        }
    }

    /// What to do about the block after `check_height`, given what is known of the epoch that
    /// follows `wish.block_hash`, and the answer to [`Scheduling::producer_question`]. Its producer
    /// produces it after a short delay; any other producer looks after a longer one whether the
    /// block has come.
    pub fn handle_scheduling_block_production(
        &self,
        wish: Scheduling,
        epoch_hash: Result<CryptoHash, String>,
        next_block_producer: Result<AccountId, Error>,
    ) -> (r: Option<RunLater>)
        requires
            epoch_hash is Ok ==> wish.check_height < u64::MAX,
        ensures
            r == self.next_duty(wish, epoch_hash, next_block_producer),
    {
        match (epoch_hash, next_block_producer, &self.block_producer) {
            (Ok(_), Ok(next), Some(me)) => {
                if *me == next {
                    Some(
                        RunLater {
                            delay: self.config.min_block_production_delay,
                            task: Task::ProduceBlock {
                                block_hash: wish.block_hash,
                                last_height: wish.last_height,
                                next_height: wish.check_height + 1,
                            },
                        },
                    )
                } else {
                    Some(
                        RunLater {
                            delay: self.config.max_block_production_delay,
                            task: Task::CheckBlockTimeout {
                                last_height: wish.last_height,
                                check_height: wish.check_height,
                            },
                        },
                    )
                }
            },
            _ => None,
        }
    }

    /// What to do once a block has been waited for: where the head has moved, nothing. Otherwise
    /// the block is skipped, the clock starts again, and the turn of the producer after it is
    /// looked at.
    pub fn check_block_timeout(
        &mut self,
        last_height: BlockHeight,
        check_height: BlockHeight,
        head: Result<Tip, ChainError>,
        now: Nanos,
    ) -> (r: Option<Scheduling>)
        requires
            head matches Ok(head) ==> (head.height == last_height ==> check_height < u64::MAX),
        ensures
            r == timeout_of(last_height, check_height, head),
            *final(self) == (if r is Some {
                ClientActor { last_block_processed: now, ..*old(self) }
            } else {
                *old(self)
            }),
    {
        match head {
            Ok(head) => {
                if head.height != last_height {
                    return None;
                }
                self.last_block_processed = now;
                Some(
                    Scheduling {
                        block_hash: head.last_block_hash,
                        last_height,
                        check_height: check_height + 1,
                    },
                )
            },
            Err(_) => None,
        }
    }

    /// What to do once producing a block has been tried: where it failed, the turn is looked at
    /// again.
    pub fn produce_block(
        result: &Result<(), Error>,
        block_hash: CryptoHash,
        last_height: BlockHeight,
        next_height: BlockHeight,
    ) -> (r: Option<Scheduling>)
        requires
            *result is Err ==> next_height > 0,
        ensures
            r == retry_of(*result, block_hash, last_height, next_height),
    {
        match result {
            Ok(()) => None,
            Err(_) => Some(Scheduling { block_hash, last_height, check_height: next_height - 1 }),
        }
    }

    /// A client that is not a validator now has to announce its account for an epoch that begins
    /// at the given height and has the given validators: it is one of them, and has not announced
    /// itself for this height or a later one.
    pub open spec fn has_to_announce(
        self,
        epoch_height: Option<BlockHeight>,
        validators: Option<Vec<AccountId>>,
    ) -> bool {
        &&& self.block_producer matches Some(me)
        &&& epoch_height matches Some(height)
        &&& self.last_val_announce_height matches Some(last) ==> last < height
        &&& validators matches Some(validators)
        &&& lists_account(validators@, me@)
    }

    /// The epoch whose validators are validators now, given the header of the block that the wish
    /// to announce the account names.
    pub fn current_epoch(prev_header: Result<BlockHeader, ChainError>) -> (r: Option<CryptoHash>)
        ensures
            r == (match prev_header {
                Ok(header) => Some(header.epoch_hash),
                Err(_) => None,
            }),
    {
        match prev_header {
            Ok(header) => Some(header.epoch_hash),
            Err(_) => None,
        }
    }

    /// Tells whether the client's account is one of an epoch's validators, if they are known.
    pub fn is_validator(&self, validators: &Option<Vec<AccountId>>) -> (r: bool)
        ensures
            r == (self.block_producer matches Some(me) && *validators matches Some(validators)
                && lists_account(validators@, me@)),
    {
        match (&self.block_producer, validators) {
            (Some(me), Some(validators)) => contains_account(validators, me),
            _ => false,
        }
    }

    /// Decides whether to announce the client's account for an epoch, and notes that it was. The
    /// account is announced where it is about to become a validator, and not where it is one now.
    pub fn check_send_announce_account(
        &mut self,
        is_validator_now: bool,
        epoch_height: Option<BlockHeight>,
        validators: Option<Vec<AccountId>>,
    ) -> (r: bool)
        ensures
            r == (!is_validator_now && old(self).has_to_announce(epoch_height, validators)),
            *final(self) == (if r {
                ClientActor { last_val_announce_height: epoch_height, ..*old(self) }
            } else {
                *old(self)
            }),
    {
        if is_validator_now {
            return false;
        }
        let height = match epoch_height {
            Some(height) => height,
            None => {
                return false;
            },
        };
        match self.last_val_announce_height {
            Some(last) => {
                if last >= height {
                    return false;
                }
            },
            None => {},
        }
        let is_validator = self.is_validator(&validators);
        if is_validator {
            self.last_val_announce_height = epoch_height;
        }
        is_validator
    }

    /// The hash to sign in order to announce the client's account for an epoch. There is none
    /// where the client has no account.
    pub fn sign_announce_account(&self, epoch_hash: CryptoHash) -> (r: Result<CryptoHash, ()>)
        requires
            self.block_producer matches Some(me) ==> name_fits(me@),
        ensures
            match self.block_producer {
                Some(me) => r matches Ok(hash) && hash.0@ == announcement_hash(
                    me@,
                    self.node_id.0.0@,
                    epoch_hash.0@,
                ),
                None => r == Err::<CryptoHash, ()>(()),
            },
    {
        match &self.block_producer {
            Some(me) => Ok(build_header_hash(me, &self.node_id, &epoch_hash)),
            None => Err(()),
        }
    }

    /// The client's announcement of its account, from the hash and its signature.
    pub fn own_announcement(
        &self,
        epoch_hash: CryptoHash,
        hash: CryptoHash,
        signature: Signature,
    ) -> (r: Option<AnnounceAccount>)
        ensures
            match r {
                Some(announce) => {
                    &&& self.block_producer == Some(announce.account_id)
                    &&& announce.epoch == epoch_hash
                    &&& announce.route@ == seq![
                        AnnounceAccountRoute { peer_id: self.node_id, hash, signature },
                    ]
                },
                None => self.block_producer is None,
            },
    {
        match &self.block_producer {
            Some(me) => Some(
                AnnounceAccount::new(me.clone(), epoch_hash, self.node_id, hash, signature),
            ),
            None => None,
        }
    }
}

/// A block is approved exactly if the client is a validator of the block's epoch and somebody else
/// produces the next block; the approval goes to that producer.
pub proof fn law_validator_approves_blocks_of_others(
    client: ClientActor,
    block: Block,
    epoch_hash: Result<CryptoHash, String>,
    next_block_producer: Result<AccountId, Error>,
    validators: Result<Vec<AccountId>, String>,
)
    ensures
        client.approval_outcome(block, epoch_hash, next_block_producer, validators) == (match (
            epoch_hash,
            client.block_producer,
            next_block_producer,
            validators,
        ) {
            (Ok(_), Some(me), Ok(next), Ok(validators)) => if me@ != next@ && lists_account(
                validators@,
                me@,
            ) {
                ApprovalStep::Sign(
                    ApprovalRequest { block_hash: block.header.hash, target: next },
                )
            } else {
                ApprovalStep::Nothing
            },
            _ => ApprovalStep::Nothing,
        }),
{
}

/// A turn that failed is taken again, after the short delay, for the same block and the same head,
/// as long as it is still the client's.
pub proof fn law_failed_turn_is_retried(
    client: ClientActor,
    error: Error,
    block_hash: CryptoHash,
    last_height: BlockHeight,
    next_height: BlockHeight,
    epoch_hash: CryptoHash,
    proposer: AccountId,
)
    requires
        next_height > 0,
        client.produces_for(proposer@),
    ensures
        retry_of(Err(error), block_hash, last_height, next_height) matches Some(wish)
            && client.next_duty(wish, Ok(epoch_hash), Ok(proposer)) == Some(
            RunLater {
                delay: client.config.min_block_production_delay,
                task: Task::ProduceBlock { block_hash, last_height, next_height },
            },
        ),
{
}

/// Once the client has announced itself for an epoch, it does not do so again for that epoch or
/// an earlier one.
pub proof fn law_announced_once(
    before: ClientActor,
    after: ClientActor,
    height: BlockHeight,
    validators: Option<Vec<AccountId>>,
    later_height: Option<BlockHeight>,
    later_validators: Option<Vec<AccountId>>,
)
    requires
        before.has_to_announce(Some(height), validators),
        after == (ClientActor { last_val_announce_height: Some(height), ..before }),
        later_height matches Some(h) ==> h <= height,
    ensures
        !after.has_to_announce(later_height, later_validators),
{
}

/// An announcement that the client makes of itself, over the hash that it computes for the
/// purpose, passes the check of others as long as its signature holds.
pub proof fn law_client_announcement_is_accepted(
    client: ClientActor,
    announce: AnnounceAccount,
    epoch_hash: CryptoHash,
    hash: CryptoHash,
    signature: Signature,
)
    requires
        client.block_producer == Some(announce.account_id),
        announcement_hash(announce.account_id@, client.node_id.0.0@, epoch_hash.0@)
            == hash.0@,
        announce.epoch == epoch_hash,
        announce.route@ == seq![
            AnnounceAccountRoute { peer_id: client.node_id, hash, signature },
        ],
    ensures
        header_agrees(announce),
        announce_fault(announce, true) is None,
{
    law_own_announcement_is_accepted(announce, client.node_id, hash, signature);
}

/// The place of an account among others is the first at which it stands, and there is none exactly
/// if it stands nowhere.
pub proof fn law_place_of_an_account_is_its_first(
    accounts: Seq<AccountId>,
    account_id: Seq<char>,
)
    ensures
        match account_position(accounts, account_id) {
            Some(place) => {
                &&& 0 <= place < accounts.len()
                &&& accounts[place]@ == account_id
                &&& forall|i: int| 0 <= i < place ==> (#[trigger] accounts[i])@ != account_id
            },
            None => forall|i: int|
                0 <= i < accounts.len() ==> (#[trigger] accounts[i])@ != account_id,
        },
    decreases accounts.len(),
{
    if accounts.len() > 0 {
        let earlier = accounts.drop_last();
        law_place_of_an_account_is_its_first(earlier, account_id);
        match account_position(earlier, account_id) {
            Some(place) => {
                assert forall|i: int| 0 <= i < place implies (#[trigger] accounts[i])@
                    != account_id by {
                    assert(earlier[i] == accounts[i]);
                }
            },
            None => {
                assert forall|i: int| 0 <= i < earlier.len() implies (#[trigger] accounts[i])@
                    != account_id by {
                    assert(earlier[i] == accounts[i]);
                }
            },
        }
    }
}

/// Of two accounts that are both listed, the places differ.
pub proof fn law_accounts_have_places_of_their_own(
    accounts: Seq<AccountId>,
    one: Seq<char>,
    other: Seq<char>,
)
    requires
        account_position(accounts, one) is Some,
        account_position(accounts, one) == account_position(accounts, other),
    ensures
        one == other,
{
    law_place_of_an_account_is_its_first(accounts, one);
    law_place_of_an_account_is_its_first(accounts, other);
}

/// A client has something to do about the next block exactly if the epoch and the block's producer
/// are known and it has an account of its own. It produces the block, at the height after the last
/// that is not waited for, exactly if that account is the producer, and waits for the shorter time;
/// otherwise it looks whether the block has come after the longer time.
pub proof fn law_producer_produces_and_others_watch(
    client: ClientActor,
    wish: Scheduling,
    epoch_hash: Result<CryptoHash, String>,
    next_block_producer: Result<AccountId, Error>,
)
    requires
        wish.check_height < u64::MAX,
    ensures
        ({
            let duty = client.next_duty(wish, epoch_hash, next_block_producer);
            &&& duty is Some <==> epoch_hash is Ok && next_block_producer is Ok
                && client.block_producer is Some
            &&& duty matches Some(run_later) ==> {
                let me = client.block_producer->Some_0;
                let producer = next_block_producer->Ok_0;
                match run_later.task {
                    Task::ProduceBlock { block_hash, last_height, next_height } => {
                        &&& me@ == producer@
                        &&& run_later.delay == client.config.min_block_production_delay
                        &&& block_hash == wish.block_hash
                        &&& last_height == wish.last_height
                        &&& next_height == wish.check_height + 1
                    },
                    Task::CheckBlockTimeout { last_height, check_height } => {
                        &&& me@ != producer@
                        &&& run_later.delay == client.config.max_block_production_delay
                        &&& last_height == wish.last_height
                        &&& check_height == wish.check_height
                    },
                    _ => false,
                }
            }
        }),
{
}

/// A turn is looked at again exactly if producing the block failed: the turn for the same height on
/// the same block, as seen from the same head.
pub proof fn law_only_a_failed_turn_is_looked_at_again(
    result: Result<(), Error>,
    block_hash: CryptoHash,
    last_height: BlockHeight,
    next_height: BlockHeight,
)
    requires
        next_height > 0,
    ensures
        match retry_of(result, block_hash, last_height, next_height) {
            Some(wish) => {
                &&& result is Err
                &&& wish.block_hash == block_hash
                &&& wish.last_height == last_height
                &&& wish.check_height + 1 == next_height
            },
            None => result is Ok,
        },
{
}

/// An account has to be announced exactly if it is the client's, it is one of the validators of
/// the epoch, and the epoch begins above every height that the client has announced itself for.
pub proof fn law_account_is_announced_for_epochs_to_come(
    client: ClientActor,
    epoch_height: Option<BlockHeight>,
    validators: Option<Vec<AccountId>>,
)
    ensures
        client.has_to_announce(epoch_height, validators) <==> (match (
            client.block_producer,
            epoch_height,
            validators,
        ) {
            (Some(me), Some(height), Some(validators)) => {
                &&& client.last_val_announce_height is None
                    || client.last_val_announce_height->Some_0 < height
                &&& exists|i: int|
                    0 <= i < validators@.len() && (#[trigger] validators@[i])@ == me@
            },
            _ => false,
        }),
{
}

/// An approval asks for the producer at the height right after the block's, in the epoch that
/// follows it, and for nothing where that epoch is not known.
pub proof fn law_approval_goes_to_the_next_height(
    block: Block,
    epoch_hash: Result<CryptoHash, String>,
)
    requires
        block.header.height < u64::MAX,
    ensures
        match after_approval_epoch(block, epoch_hash) {
            ApprovalStep::AskNextProducer { epoch_hash: epoch, height } => {
                &&& epoch_hash == Ok::<CryptoHash, String>(epoch)
                &&& height == block.header.height + 1
            },
            ApprovalStep::Nothing => epoch_hash is Err,
            _ => false,
        },
{
}

/// The validators are asked for, in the block's own epoch, exactly if the client has an account and
/// the producer of the next block is known and is another one.
pub proof fn law_own_block_needs_no_approval(
    client: ClientActor,
    block: Block,
    next_block_producer: Result<AccountId, Error>,
)
    ensures
        match client.after_approval_producer(block, next_block_producer) {
            ApprovalStep::AskValidators { epoch_hash, next_block_producer: next } => {
                &&& client.block_producer is Some
                &&& client.block_producer->Some_0@ != next@
                &&& next_block_producer == Ok::<AccountId, Error>(next)
                &&& epoch_hash == block.header.epoch_hash
            },
            ApprovalStep::Nothing => {
                ||| client.block_producer is None
                ||| next_block_producer is Err
                ||| client.block_producer->Some_0@ == next_block_producer->Ok_0@
            },
            _ => false,
        },
{
}

/// An approval is signed exactly if the client's account stands somewhere among the validators. It
/// is of the block, and is meant for the producer of the next one.
pub proof fn law_only_a_validator_approves(
    client: ClientActor,
    block: Block,
    next_block_producer: AccountId,
    validators: Result<Vec<AccountId>, String>,
)
    ensures
        ({
            let r = client.after_approval_validators(block, next_block_producer, validators);
            &&& r is Sign || r is Nothing
            &&& r is Sign <==> (match (client.block_producer, validators) {
                (Some(me), Ok(validators)) => exists|i: int|
                    0 <= i < validators@.len() && (#[trigger] validators@[i])@ == me@,
                _ => false,
            })
            &&& r matches ApprovalStep::Sign(request) ==> request.block_hash == block.header.hash
                && request.target == next_block_producer
        }),
{
}

/// A block that has been waited for is skipped exactly if the head is still where it was: then the
/// turn after it is looked at, on top of that same head.
pub proof fn law_block_is_skipped_if_the_head_has_not_moved(
    last_height: BlockHeight,
    check_height: BlockHeight,
    head: Result<Tip, ChainError>,
)
    requires
        check_height < u64::MAX,
    ensures
        match timeout_of(last_height, check_height, head) {
            Some(wish) => {
                &&& head is Ok
                &&& head->Ok_0.height == last_height
                &&& wish.block_hash == head->Ok_0.last_block_hash
                &&& wish.last_height == last_height
                &&& wish.check_height == check_height + 1
            },
            None => head is Err || head->Ok_0.height != last_height,
        },
{
}

/// An approval is kept exactly if the account is one of the validators and its signature holds: at
/// the account's first place among them, in place of what stood there, and with all others as they
/// were.
pub proof fn law_approval_is_kept_at_the_validators_place(
    approvals: Map<usize, Signature>,
    account_id: Seq<char>,
    signature: Signature,
    validators: Vec<AccountId>,
    signature_is_valid: bool,
    place: usize,
)
    requires
        place < validators@.len(),
        validators@[place as int]@ == account_id,
        forall|i: int| 0 <= i < place ==> (#[trigger] validators@[i])@ != account_id,
    ensures
        ({
            let kept = approvals_after(
                approvals,
                account_id,
                signature,
                Ok(validators),
                signature_is_valid,
            );
            &&& kept is Some <==> signature_is_valid
            &&& kept matches Some(after) ==> {
                &&& after.contains_key(place)
                &&& after[place] == signature
                &&& forall|other: usize|
                    other != place ==> (#[trigger] after.contains_key(other)
                        <==> approvals.contains_key(other))
                &&& forall|other: usize|
                    other != place && #[trigger] approvals.contains_key(other) ==> after[other]
                        == approvals[other]
            }
        }),
{
    lemma_account_position(validators@, account_id, place as int);
}

/// An approval of somebody who is not a validator is not reasonable, and neither is one where the
/// validators are not known.
pub proof fn law_approval_of_a_stranger_is_not_kept(
    approvals: Map<usize, Signature>,
    account_id: Seq<char>,
    signature: Signature,
    validators: Result<Vec<AccountId>, String>,
    signature_is_valid: bool,
)
    requires
        validators is Err || forall|i: int|
            0 <= i < validators->Ok_0@.len() ==> (#[trigger] validators->Ok_0@[i])@ != account_id,
    ensures
        approvals_after(approvals, account_id, signature, validators, signature_is_valid) is None,
{
    if validators is Ok {
        lemma_account_position(
            validators->Ok_0@,
            account_id,
            validators->Ok_0@.len() as int,
        );
    }
}

} // verus!
