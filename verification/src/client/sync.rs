//! Keeping in step with the peers: whether to sync, and what each step of it leads to.
use std::collections::HashMap;
use vstd::prelude::*;
use crate::client::actor::{
    ClientActor, ClientConfig, FullPeerInfo, RunLater, ShardStatuses, ShardSyncStatus, SyncStatus,
    Task,
};
use crate::client::duties::{AnnounceWish, Scheduling};
use crate::client::errors::ChainError;
use crate::types::{BlockHeight, CryptoHash, Nanos, ShardId, Tip};

verus! {

/// The shard whose state is fetched when the client is too far behind to fetch blocks.
pub const TRACKED_SHARD: ShardId = 0;

/// What a round of fetching state came to.
#[derive(Clone, Copy, Debug, PartialEq, Eq)]
pub enum StateSyncResult {
    /// No shard got any further.
    Unchanged,
    /// Some shard got further.
    Changed,
    /// All shards are done.
    Completed,
}

/// The end of a run of the sync job.
#[derive(Debug, PartialEq, Eq)]
pub struct SyncEnd {
    /// Where the client has just got in step: the announcement to see about, and the turn to look
    /// at.
    pub in_step: Option<(AnnounceWish, Scheduling)>,
    /// When to run the job again.
    pub run_later: RunLater,
}

/// How far a run of the sync job has come: something to do next, or its end.
#[derive(Debug)]
pub enum SyncStep {
    /// Look at the head: the client is in step.
    AskHead,
    /// Fetch headers up to this height.
    RunHeaderSync { highest_height: BlockHeight },
    /// Fetch blocks up to this height.
    RunBlockSync { highest_height: BlockHeight },
    /// Look for the block at which to fetch the state.
    FindSyncHash,
    /// Fetch the state of the tracked shards at this block.
    RunStateSync { sync_hash: CryptoHash, shard_statuses: ShardStatuses },
    /// Make the chain start from the state that was fetched.
    ResetHeads { sync_hash: CryptoHash },
    Done(SyncEnd),
}

/// A run of the sync job that ends here, to be taken up again after `delay`.
pub open spec fn sync_again(delay: Nanos) -> SyncStep {
    SyncStep::Done(SyncEnd { in_step: None, run_later: RunLater { delay, task: Task::Sync } })
}

impl SyncStep {
    /// Where the run ends here, the job is run again, after one of the two periods.
    pub open spec fn runs_again(self, config: ClientConfig) -> bool {
        self matches SyncStep::Done(end) ==> {
            &&& end.run_later.task == Task::Sync
            &&& end.run_later.delay == config.sync_step_period || end.run_later.delay
                == config.sync_check_period
        }
    }
}

/// What the peer with the heaviest chain calls for: whether to sync, and up to which height.
pub open spec fn sync_wanted(client: ClientActor, head: Tip, peer: Option<FullPeerInfo>) -> (
    bool,
    BlockHeight,
) {
    match peer {
        None => (false, 0),
        Some(peer) => (
            if client.sync_status.syncing() {
                peer.chain_info.total_weight > head.total_weight
            } else {
                &&& peer.chain_info.total_weight > head.total_weight
                    + client.config.sync_weight_threshold
                &&& peer.chain_info.height > head.height + client.config.sync_height_threshold
            },
            peer.chain_info.height,
        ),
    }
}

/// The sums that a comparison with a peer needs can be formed.
pub open spec fn can_compare(client: ClientActor, head: Tip, peer: Option<FullPeerInfo>) -> bool {
    match peer {
        Some(peer) if !client.sync_status.syncing() => {
            let weight = head.total_weight + client.config.sync_weight_threshold;
            &&& weight <= u64::MAX
            &&& peer.chain_info.total_weight > weight ==> head.height
                + client.config.sync_height_threshold <= u64::MAX
        },
        _ => true,
    }
}

/// What a run of the sync job begins with.
pub open spec fn first_sync_step(
    client: ClientActor,
    head: Result<Tip, ChainError>,
    peer: Option<FullPeerInfo>,
) -> SyncStep {
    match head {
        Err(_) => sync_again(client.config.sync_step_period),
        Ok(head) => {
            let (needed, highest_height) = sync_wanted(client, head, peer);
            if needed {
                SyncStep::RunHeaderSync { highest_height }
            } else if client.sync_status.syncing() {
                SyncStep::AskHead
            } else {
                sync_again(client.config.sync_check_period)
            }
        },
    }
}

/// How a run ends after which the client is in step.
pub open spec fn in_step_end(config: ClientConfig, head: Result<Tip, ChainError>) -> SyncStep {
    match head {
        Err(_) => sync_again(config.sync_step_period),
        Ok(head) => SyncStep::Done(
            SyncEnd {
                in_step: Some(
                    (
                        AnnounceWish {
                            epoch_hash: head.epoch_hash,
                            prev_hash: head.prev_block_hash,
                        },
                        Scheduling {
                            block_hash: head.last_block_hash,
                            last_height: head.height,
                            check_height: head.height,
                        },
                    ),
                ),
                run_later: RunLater { delay: config.sync_check_period, task: Task::Sync },
            },
        ),
    }
}

/// The step fetches the state at a block, for shards that stand as given.
pub open spec fn fetches_state(
    step: SyncStep,
    sync_hash: CryptoHash,
    statuses: Map<ShardId, ShardSyncStatus>,
) -> bool {
    &&& step matches SyncStep::RunStateSync { sync_hash: hash, shard_statuses }
    &&& hash == sync_hash
    &&& shard_statuses@ == statuses
}

/// How a run goes on once headers have been fetched.
pub open spec fn follows_headers(
    step: SyncStep,
    client: ClientActor,
    highest_height: BlockHeight,
    result: Result<(), ChainError>,
    header_head: Result<Tip, ChainError>,
) -> bool {
    match (result, header_head) {
        (Ok(()), Ok(header_head)) => if header_head.height != highest_height {
            step == sync_again(client.config.sync_step_period)
        } else {
            match client.sync_status {
                SyncStatus::StateSync(sync_hash, statuses) => fetches_state(
                    step,
                    sync_hash,
                    statuses@,
                ),
                _ => step == (SyncStep::RunBlockSync { highest_height }),
            }
        },
        _ => step == sync_again(client.config.sync_step_period),
    }
}

/// How a run goes on once blocks have been fetched.
pub open spec fn follows_blocks(
    step: SyncStep,
    client: ClientActor,
    result: Result<bool, ChainError>,
) -> bool {
    match (result, client.sync_status) {
        (Ok(true), SyncStatus::StateSync(sync_hash, statuses)) => fetches_state(
            step,
            sync_hash,
            statuses@,
        ),
        (Ok(true), _) => step is FindSyncHash,
        _ => step == sync_again(client.config.sync_step_period),
    }
}

/// How a run goes on once a round of fetching state is over.
pub open spec fn after_state_round(
    config: ClientConfig,
    sync_hash: CryptoHash,
    result: Result<StateSyncResult, ChainError>,
) -> SyncStep {
    match result {
        Ok(StateSyncResult::Completed) => SyncStep::ResetHeads { sync_hash },
        _ => sync_again(config.sync_step_period),
    }
}

/// For how long to wait for peers before the first run, if at all.
pub open spec fn wait_for_peers(client: ClientActor) -> Option<RunLater> {
    if client.network_info.num_active_peers < client.config.min_num_peers
        && !client.config.skip_sync_wait {
        Some(RunLater { delay: client.config.sync_step_period, task: Task::StartSync })
    } else {
        None
    }
}

/// The shards whose state is fetched.
pub fn tracked_shards() -> (r: Vec<ShardId>)
    ensures
        r@ == seq![TRACKED_SHARD],
{
    let mut r: Vec<ShardId> = Vec::new();
    r.push(TRACKED_SHARD);
    r
}

fn run_sync_later(delay: Nanos) -> (r: SyncStep)
    ensures
        r == sync_again(delay),
{
    SyncStep::Done(SyncEnd { in_step: None, run_later: RunLater { delay, task: Task::Sync } })
}

impl ClientActor {
    /// Decides whether to sync, given the head and the peer with the heaviest chain, if any.
    ///
    /// A client that is in step begins only where the peer is ahead by more than a threshold, in
    /// weight and in height; one that is syncing goes on until it has the peer's weight.
    pub fn needs_syncing(&self, head: Result<Tip, ChainError>, peer: Option<FullPeerInfo>) -> (r:
        Result<(bool, BlockHeight), ChainError>)
        requires
            head matches Ok(head) ==> can_compare(*self, head, peer),
        ensures
            r == (match head {
                Ok(head) => Ok::<(bool, BlockHeight), ChainError>(sync_wanted(*self, head, peer)),
                Err(error) => Err::<(bool, BlockHeight), ChainError>(error),
            }),
            match (head, peer) {
                (Err(error), _) => r == Err::<(bool, BlockHeight), ChainError>(error),
                (Ok(_), None) => r == Ok::<(bool, BlockHeight), ChainError>((false, 0)),
                (Ok(head), Some(peer)) => {
                    let ahead = peer.chain_info.total_weight - head.total_weight;
                    let above = peer.chain_info.height - head.height;
                    &&& r matches Ok((needed, highest_height))
                    &&& highest_height == peer.chain_info.height
                    &&& self.sync_status is NoSync ==> (needed <==> ahead
                        > self.config.sync_weight_threshold && above
                        > self.config.sync_height_threshold)
                    &&& !(self.sync_status is NoSync) ==> (needed <==> ahead > 0)
                },
            },
    {
        let head = match head {
            Ok(head) => head,
            Err(error) => {
                return Err(error);
            },
        };
        let peer = match peer {
            Some(peer) => peer,
            None => {
                return Ok((false, 0));
            },
        };
        let needed = if self.sync_status.is_syncing() {
            peer.chain_info.total_weight > head.total_weight
        } else {
            peer.chain_info.total_weight > head.total_weight + self.config.sync_weight_threshold
                && peer.chain_info.height > head.height + self.config.sync_height_threshold
        };
        Ok((needed, peer.chain_info.height))
    }

    /// Waits for peers before the first run of the sync job: nothing is handed back once there
    /// are enough of them, or where the client does not wait at all.
    pub fn start_sync(&self) -> (r: Option<RunLater>)
        ensures
            r == wait_for_peers(*self),
    {
        if self.network_info.num_active_peers < self.config.min_num_peers
            && !self.config.skip_sync_wait {
            Some(RunLater { delay: self.config.sync_step_period, task: Task::StartSync })
        } else {
            None
        }
    }

    /// Begins a run of the sync job, given the head and the peer with the heaviest chain.
    ///
    /// Where there is no need to sync, the run ends, and the next one comes after the longer
    /// period. A client that was syncing is then in step, and looks at the head once more.
    pub fn sync(
        &mut self,
        head: Result<Tip, ChainError>,
        peer: Option<FullPeerInfo>,
        now: Nanos,
    ) -> (r: SyncStep)
        requires
            head matches Ok(head) ==> can_compare(*old(self), head, peer),
        ensures
            r.runs_again(old(self).config),
            r == first_sync_step(*old(self), head, peer),
            *final(self) == (if r is AskHead {
                ClientActor {
                    sync_status: SyncStatus::NoSync,
                    last_block_processed: now,
                    ..*old(self)
                }
            } else {
                *old(self)
            }),
    {
        let head = match head {
            Ok(head) => head,
            Err(_) => {
                return run_sync_later(self.config.sync_step_period);
            },
        };
        let (needed, highest_height) = match self.needs_syncing(Ok(head), peer) {
            Ok(answer) => answer,
            Err(_) => {
                return run_sync_later(self.config.sync_step_period);
            },
        };
        if needed {
            return SyncStep::RunHeaderSync { highest_height };
        }
        if !self.sync_status.is_syncing() {
            return run_sync_later(self.config.sync_check_period);
        }
        self.last_block_processed = now;
        self.sync_status = SyncStatus::NoSync;
        SyncStep::AskHead
    }

    /// Ends a run after which the client is in step, given the head: it takes up its duties again,
    /// and the next run comes after the longer period. Where the head is not to be had, there is
    /// nothing to take up, and the next run comes after the shorter period.
    pub fn in_step_head_answered(&self, head: Result<Tip, ChainError>) -> (r: SyncStep)
        ensures
            r.runs_again(self.config),
            r == in_step_end(self.config, head),
    {
        match head {
            Ok(head) => SyncStep::Done(
                SyncEnd {
                    in_step: Some(
                        (
                            AnnounceWish {
                                epoch_hash: head.epoch_hash,
                                prev_hash: head.prev_block_hash,
                            },
                            Scheduling {
                                block_hash: head.last_block_hash,
                                last_height: head.height,
                                check_height: head.height,
                            },
                        ),
                    ),
                    run_later: RunLater {
                        delay: self.config.sync_check_period,
                        task: Task::Sync,
                    },
                },
            ),
            Err(_) => run_sync_later(self.config.sync_step_period),
        }
    }

    /// Goes on with a run once headers have been fetched, given the latest header. Blocks and
    /// state are fetched only once all headers are there; a fetch of state that has begun goes
    /// on.
    pub fn header_sync_ran(
        &self,
        highest_height: BlockHeight,
        result: Result<(), ChainError>,
        header_head: Result<Tip, ChainError>,
    ) -> (r: SyncStep)
        ensures
            r.runs_again(self.config),
            follows_headers(r, *self, highest_height, result, header_head),
    {
        let header_head = match (result, header_head) {
            (Ok(()), Ok(header_head)) => header_head,
            _ => {
                return run_sync_later(self.config.sync_step_period);
            },
        };
        if header_head.height != highest_height {
            return run_sync_later(self.config.sync_step_period);
        }
        match &self.sync_status {
            SyncStatus::StateSync(_, _) => self.start_state_sync(),
            _ => SyncStep::RunBlockSync { highest_height },
        }
    }

    /// Goes on with a run once blocks have been fetched, `result` saying whether the client is
    /// too far behind for that.
    pub fn block_sync_ran(&self, result: Result<bool, ChainError>) -> (r: SyncStep)
        ensures
            r.runs_again(self.config),
            follows_blocks(r, *self, result),
    {
        match result {
            Ok(true) => self.start_state_sync(),
            _ => run_sync_later(self.config.sync_step_period),
        }
    }

    fn start_state_sync(&self) -> (r: SyncStep)
        ensures
            match self.sync_status {
                SyncStatus::StateSync(sync_hash, statuses) => {
                    &&& r matches SyncStep::RunStateSync { sync_hash: hash, shard_statuses }
                    &&& hash == sync_hash
                    &&& shard_statuses@ == statuses@
                },
                _ => r is FindSyncHash,
            },
    {
        match &self.sync_status {
            SyncStatus::StateSync(sync_hash, shard_statuses) => {
                SyncStep::RunStateSync {
                    sync_hash: *sync_hash,
                    shard_statuses: shard_statuses.clone(),
                }
            },
            _ => SyncStep::FindSyncHash,
        }
    }

    /// Goes on with a run once the block at which to fetch the state has been looked for. No
    /// shard has been fetched there so far.
    pub fn sync_hash_found(&self, sync_hash: Result<CryptoHash, ChainError>) -> (r: SyncStep)
        ensures
            r.runs_again(self.config),
            match sync_hash {
                Ok(sync_hash) => fetches_state(
                    r,
                    sync_hash,
                    Map::<ShardId, ShardSyncStatus>::empty(),
                ),
                Err(_) => r == sync_again(self.config.sync_step_period),
            },
    {
        match sync_hash {
            Ok(sync_hash) => SyncStep::RunStateSync {
                sync_hash,
                shard_statuses: HashMap::new(),
            },
            Err(_) => run_sync_later(self.config.sync_step_period),
        }
    }

    /// Goes on with a run once a round of fetching state is over, which has left the shards as
    /// `shard_statuses` says. That is kept only where some shard got further.
    pub fn state_sync_ran(
        &mut self,
        sync_hash: CryptoHash,
        shard_statuses: ShardStatuses,
        result: Result<StateSyncResult, ChainError>,
    ) -> (r: SyncStep)
        ensures
            r.runs_again(old(self).config),
            r == after_state_round(old(self).config, sync_hash, result),
            *final(self) == (if result == Ok::<StateSyncResult, ChainError>(
                StateSyncResult::Changed,
            ) {
                ClientActor {
                    sync_status: SyncStatus::StateSync(sync_hash, shard_statuses),
                    ..*old(self)
                }
            } else {
                *old(self)
            }),
    {
        match result {
            Ok(StateSyncResult::Completed) => SyncStep::ResetHeads { sync_hash },
            Ok(StateSyncResult::Changed) => {
                self.sync_status = SyncStatus::StateSync(sync_hash, shard_statuses);
                run_sync_later(self.config.sync_step_period)
            },
            _ => run_sync_later(self.config.sync_step_period),
        }
    }

    /// Ends a run once the chain was to start from the state that was fetched. From there on,
    /// blocks are fetched.
    pub fn heads_reset(&mut self, result: Result<(), ChainError>) -> (r: SyncStep)
        ensures
            r.runs_again(old(self).config),
            r == sync_again(old(self).config.sync_step_period),
            *final(self) == (match result {
                Ok(()) => ClientActor {
                    sync_status: SyncStatus::BodySync { current_height: 0, highest_height: 0 },
                    ..*old(self)
                },
                Err(_) => *old(self),
            }),
    {
        match result {
            Ok(()) => {
                self.sync_status = SyncStatus::BodySync { current_height: 0, highest_height: 0 };
            },
            Err(_) => {},
        }
        run_sync_later(self.config.sync_step_period)
    }
}

/// A client that is in step does not begin to sync because of a peer that is ahead by no more
/// than a threshold, and one that has begun goes on at least as long as it would have begun.
pub proof fn law_sync_thresholds(
    in_step: ClientActor,
    syncing: ClientActor,
    head: Tip,
    peer: Option<FullPeerInfo>,
)
    requires
        !in_step.sync_status.syncing(),
        syncing.sync_status.syncing(),
        syncing.config == in_step.config,
    ensures
        sync_wanted(in_step, head, peer).0 ==> sync_wanted(syncing, head, peer).0,
        sync_wanted(in_step, head, peer).0 ==> {
            let info = peer->Some_0.chain_info;
            &&& info.total_weight - head.total_weight > in_step.config.sync_weight_threshold
            &&& info.height - head.height > in_step.config.sync_height_threshold
        },
{
}

/// A client that is in step begins to sync exactly if the heaviest peer is ahead of it by more
/// than the one threshold in weight and by more than the other in height.
pub proof fn law_in_step_client_begins_beyond_both_thresholds(
    client: ClientActor,
    head: Tip,
    peer: FullPeerInfo,
)
    requires
        client.sync_status is NoSync,
    ensures
        sync_wanted(client, head, Some(peer)).0 <==> {
            &&& peer.chain_info.total_weight - head.total_weight
                > client.config.sync_weight_threshold
            &&& peer.chain_info.height - head.height > client.config.sync_height_threshold
        },
{
}

/// A client that is syncing goes on exactly as long as the heaviest peer's chain weighs more than
/// its own, whatever the thresholds and the heights are.
pub proof fn law_syncing_client_goes_on_until_it_has_the_weight(
    client: ClientActor,
    head: Tip,
    peer: FullPeerInfo,
)
    requires
        !(client.sync_status is NoSync),
    ensures
        sync_wanted(client, head, Some(peer)).0 <==> peer.chain_info.total_weight
            > head.total_weight,
{
}

/// The height to sync up to is the heaviest peer's, whether or not there is need to sync. Without
/// a peer there is no need, and nothing to sync up to.
pub proof fn law_sync_goes_up_to_the_peer(
    client: ClientActor,
    head: Tip,
    peer: Option<FullPeerInfo>,
)
    ensures
        peer matches Some(peer) ==> sync_wanted(client, head, Some(peer)).1
            == peer.chain_info.height,
        peer is None ==> !sync_wanted(client, head, peer).0 && sync_wanted(client, head, peer).1
            == 0,
{
}

/// A peer that is further ahead, in weight and in height, calls for syncing wherever one that is
/// less far ahead does.
pub proof fn law_heavier_peer_calls_for_sync_as_well(
    client: ClientActor,
    head: Tip,
    peer: FullPeerInfo,
    further: FullPeerInfo,
)
    requires
        sync_wanted(client, head, Some(peer)).0,
        further.chain_info.total_weight >= peer.chain_info.total_weight,
        further.chain_info.height >= peer.chain_info.height,
    ensures
        sync_wanted(client, head, Some(further)).0,
{
}

/// A run that ends early is taken up again after the time given, and nothing else comes of it.
pub proof fn law_run_that_ends_early_is_taken_up_again(delay: Nanos)
    ensures
        sync_again(delay) matches SyncStep::Done(end) && end.in_step is None
            && end.run_later.task is Sync && end.run_later.delay == delay,
{
}

/// A run fetches headers exactly if the head is known and the heaviest peer is far enough ahead,
/// and then up to that peer's height. A client that was syncing and is no longer behind looks at
/// the head once more; one that is in step waits for the longer period, and one that does not know
/// its head for the shorter.
pub proof fn law_run_begins_with_headers_if_behind(
    client: ClientActor,
    head: Result<Tip, ChainError>,
    peer: Option<FullPeerInfo>,
)
    ensures
        ({
            let step = first_sync_step(client, head, peer);
            let is_in_step = client.sync_status is NoSync;
            let ahead = peer->Some_0.chain_info.total_weight - head->Ok_0.total_weight;
            let above = peer->Some_0.chain_info.height - head->Ok_0.height;
            let is_behind = peer is Some && if is_in_step {
                &&& ahead > client.config.sync_weight_threshold
                &&& above > client.config.sync_height_threshold
            } else {
                ahead > 0
            };
            &&& head is Ok && is_behind ==> step == (SyncStep::RunHeaderSync {
                highest_height: peer->Some_0.chain_info.height,
            })
            &&& head is Ok && !is_behind && !is_in_step ==> step is AskHead
            &&& head is Ok && !is_behind && is_in_step ==> {
                &&& step matches SyncStep::Done(end)
                &&& end.in_step is None
                &&& end.run_later == (RunLater {
                    delay: client.config.sync_check_period,
                    task: Task::Sync,
                })
            }
            &&& head is Err ==> {
                &&& step matches SyncStep::Done(end)
                &&& end.in_step is None
                &&& end.run_later == (RunLater {
                    delay: client.config.sync_step_period,
                    task: Task::Sync,
                })
            }
        }),
{
}

/// A client that has just got in step sees about announcing itself for the head's epoch and about
/// the turn after the head, and looks again after the longer period. Where the head is not to be
/// had, it does neither, and looks again after the shorter one.
pub proof fn law_client_in_step_takes_up_its_duties(
    config: ClientConfig,
    head: Result<Tip, ChainError>,
)
    ensures
        ({
            let step = in_step_end(config, head);
            &&& step matches SyncStep::Done(end)
            &&& end.run_later.task is Sync
            &&& end.in_step is Some <==> head is Ok
            &&& end.run_later.delay == (if head is Ok {
                config.sync_check_period
            } else {
                config.sync_step_period
            })
            &&& end.in_step matches Some((announce, turn)) ==> {
                let tip = head->Ok_0;
                &&& announce.epoch_hash == tip.epoch_hash
                &&& announce.prev_hash == tip.prev_block_hash
                &&& turn.block_hash == tip.last_block_hash
                &&& turn.last_height == tip.height
                &&& turn.check_height == tip.height
            }
        }),
{
}

/// Blocks or state are fetched exactly if all headers are there, up to the height that was wanted:
/// state where a fetch of it has begun, from where that stands, and blocks otherwise, up to the
/// same height.
pub proof fn law_headers_come_before_blocks_and_state(
    step: SyncStep,
    client: ClientActor,
    highest_height: BlockHeight,
    result: Result<(), ChainError>,
    header_head: Result<Tip, ChainError>,
)
    requires
        follows_headers(step, client, highest_height, result, header_head),
    ensures
        ({
            let has_all = result is Ok && header_head is Ok && header_head->Ok_0.height
                == highest_height;
            &&& step is Done <==> !has_all
            &&& step is RunStateSync <==> has_all && client.sync_status is StateSync
            &&& step is RunBlockSync <==> has_all && !(client.sync_status is StateSync)
            &&& step matches SyncStep::RunBlockSync { highest_height: up_to } ==> up_to
                == highest_height
            &&& step matches SyncStep::RunStateSync { sync_hash, shard_statuses } ==> sync_hash
                == client.sync_status->StateSync_0 && shard_statuses@
                == client.sync_status->StateSync_1@
            &&& step matches SyncStep::Done(end) ==> end.in_step is None && end.run_later.delay
                == client.config.sync_step_period
        }),
{
}

/// The state is fetched exactly if the client is too far behind to fetch blocks: where a fetch of
/// it has begun, from where that stands, and otherwise at a block that is yet to be found.
pub proof fn law_state_is_fetched_when_too_far_behind(
    step: SyncStep,
    client: ClientActor,
    result: Result<bool, ChainError>,
)
    requires
        follows_blocks(step, client, result),
    ensures
        ({
            let is_too_far = result is Ok && result->Ok_0;
            &&& step is Done <==> !is_too_far
            &&& step is RunStateSync <==> is_too_far && client.sync_status is StateSync
            &&& step is FindSyncHash <==> is_too_far && !(client.sync_status is StateSync)
            &&& step matches SyncStep::RunStateSync { sync_hash, shard_statuses } ==> sync_hash
                == client.sync_status->StateSync_0 && shard_statuses@
                == client.sync_status->StateSync_1@
            &&& step matches SyncStep::Done(end) ==> end.in_step is None && end.run_later.delay
                == client.config.sync_step_period
        }),
{
}

/// The chain is made to start from a fetched state exactly if all shards are done; otherwise the
/// next round comes after the shorter period.
pub proof fn law_heads_are_reset_when_all_shards_are_done(
    config: ClientConfig,
    sync_hash: CryptoHash,
    result: Result<StateSyncResult, ChainError>,
)
    ensures
        match after_state_round(config, sync_hash, result) {
            SyncStep::ResetHeads { sync_hash: at } => {
                &&& at == sync_hash
                &&& result is Ok
                &&& result->Ok_0 is Completed
            },
            SyncStep::Done(end) => {
                &&& result is Err || !(result->Ok_0 is Completed)
                &&& end.in_step is None
                &&& end.run_later.delay == config.sync_step_period
                &&& end.run_later.task is Sync
            },
            _ => false,
        },
{
}

/// The first run waits exactly if there are fewer peers than wanted and waiting is not skipped, and
/// then for the shorter period.
pub proof fn law_first_run_waits_for_peers(client: ClientActor)
    ensures
        match wait_for_peers(client) {
            Some(run_later) => {
                &&& client.network_info.num_active_peers < client.config.min_num_peers
                &&& !client.config.skip_sync_wait
                &&& run_later.delay == client.config.sync_step_period
                &&& run_later.task is StartSync
            },
            None => client.network_info.num_active_peers >= client.config.min_num_peers
                || client.config.skip_sync_wait,
        },
{
}

} // verus!
