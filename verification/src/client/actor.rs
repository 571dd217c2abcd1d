//! The client's state.
use std::collections::HashMap;
use vstd::prelude::*;
use crate::crypto::{hash_text, hash_to_string};
use crate::hash_index::HashIndex;
use crate::text::{decimal, decimal_text};
use crate::types::{AccountId, BlockHeight, CryptoHash, Nanos, PeerId, ShardId, Signature};

verus! {

/// How far a shard's state has been fetched.
#[derive(Debug, PartialEq, Eq)]
pub enum ShardSyncStatus {
    /// The state was asked for at this time.
    StateDownload { start_time: Nanos },
    /// The state has arrived and is being checked.
    StateValidation,
    /// The state is in place.
    StateDone,
    /// The state could not be had or put in place.
    Error(StateFault),
}

/// Why a shard's state is not in place.
#[derive(Debug, PartialEq, Eq)]
pub enum StateFault {
    /// The chain did not take the state of a shard at a block, for the reason given.
    SetState { shard_id: ShardId, hash: CryptoHash, reason: String },
    /// The state could not be had, for the reason given.
    Fetch(String),
}

impl StateFault {
    /// The words for a fault.
    pub open spec fn words(self) -> Seq<char> {
        match self {
            StateFault::SetState { shard_id, hash, reason } => {
                "Failed to set state for "@ + decimal(shard_id as nat) + " @ "@ + hash_text(hash.0@)
                    + ": "@ + reason@
            },
            StateFault::Fetch(reason) => reason@,
        }
    }

    /// The fault in words.
    pub fn message(&self) -> (r: String)
        ensures
            r@ == self.words(),
    {
        match self {
            StateFault::SetState { shard_id, hash, reason } => {
                "Failed to set state for "
                    .to_string()
                    .concat(decimal_text(*shard_id as u128).as_str())
                    .concat(" @ ")
                    .concat(hash_to_string(hash).as_str())
                    .concat(": ")
                    .concat(reason.as_str())
            },
            StateFault::Fetch(reason) => reason.clone(),
        }
    }
}

impl Clone for StateFault {
    fn clone(&self) -> (r: StateFault)
        ensures
            r == *self,
    {
        match self {
            StateFault::SetState { shard_id, hash, reason } => StateFault::SetState {
                shard_id: *shard_id,
                hash: *hash,
                reason: reason.clone(),
            },
            StateFault::Fetch(reason) => StateFault::Fetch(reason.clone()),
        }
    }
}

impl Clone for ShardSyncStatus {
    fn clone(&self) -> (r: ShardSyncStatus)
        ensures
            r == *self,
    {
        match self {
            ShardSyncStatus::StateDownload { start_time } => ShardSyncStatus::StateDownload {
                start_time: *start_time,
            },
            ShardSyncStatus::StateValidation => ShardSyncStatus::StateValidation,
            ShardSyncStatus::StateDone => ShardSyncStatus::StateDone,
            ShardSyncStatus::Error(fault) => ShardSyncStatus::Error(fault.clone()),
        }
    }
}

/// For each shard that is being fetched, how far that has come.
pub type ShardStatuses = HashMap<ShardId, ShardSyncStatus>;

/// How far the client has caught up with its peers.
#[derive(Debug)]
pub enum SyncStatus {
    /// Waiting for enough peers to begin.
    AwaitingPeers,
    /// In step with the peers.
    NoSync,
    /// Fetching headers.
    HeaderSync { current_height: BlockHeight, highest_height: BlockHeight },
    /// Fetching the state at this block.
    StateSync(CryptoHash, ShardStatuses),
    /// Fetching blocks.
    BodySync { current_height: BlockHeight, highest_height: BlockHeight },
}

impl SyncStatus {
    /// The client is not yet in step with its peers.
    pub open spec fn syncing(self) -> bool {
        !(self is NoSync)
    }

    /// Tells whether the client is not yet in step with its peers.
    pub fn is_syncing(&self) -> (r: bool)
        ensures
            r == self.syncing(),
            r <==> !(*self is NoSync),
    {
        match self {
            SyncStatus::NoSync => false,
            _ => true,
        }
    }
}

/// What a peer says of its chain.
#[derive(Clone, Copy, Debug, PartialEq, Eq)]
pub struct PeerChainInfo {
    pub genesis: CryptoHash,
    pub height: BlockHeight,
    pub total_weight: u64,
}

/// A peer and its chain.
#[derive(Clone, Copy, Debug, PartialEq, Eq)]
pub struct FullPeerInfo {
    pub peer_id: PeerId,
    pub chain_info: PeerChainInfo,
}

/// What the network says of itself.
#[derive(Debug)]
pub struct NetworkInfo {
    pub num_active_peers: usize,
    pub peer_max_count: u32,
    pub most_weight_peers: Vec<FullPeerInfo>,
    pub received_bytes_per_sec: u64,
    pub sent_bytes_per_sec: u64,
    /// For each peer that routes are known to, the peers that lead there.
    pub routes: Option<Vec<(PeerId, Vec<PeerId>)>>,
}

/// Settings of the client.
#[derive(Debug)]
pub struct ClientConfig {
    pub version: String,
    pub chain_id: String,
    pub rpc_addr: String,
    /// How long to wait before producing a block.
    pub min_block_production_delay: Nanos,
    /// How long to wait for approvals, or for a block of someone else.
    pub max_block_production_delay: Nanos,
    /// How much the transactions of a chunk may weigh.
    pub block_expected_weight: u32,
    pub skip_sync_wait: bool,
    /// How often to see whether the client is in step.
    pub sync_check_period: Nanos,
    /// How often to take a step while it is not.
    pub sync_step_period: Nanos,
    pub sync_weight_threshold: u64,
    pub sync_height_threshold: u64,
    pub min_num_peers: usize,
    pub fetch_info_period: Nanos,
    pub log_summary_period: Nanos,
    pub produce_empty_blocks: bool,
    pub block_fetch_horizon: u64,
    /// How many blocks before the latest header the state is fetched at.
    pub state_fetch_horizon: u64,
}

/// The client.
#[derive(Debug)]
pub struct ClientActor {
    pub config: ClientConfig,
    pub sync_status: SyncStatus,
    /// For each block at which the state for the next epoch is being fetched, how far that has
    /// come.
    pub catchup_state_syncs: HashIndex<ShardStatuses>,
    /// The account that the client produces blocks and chunks for, if any.
    pub block_producer: Option<AccountId>,
    pub network_info: NetworkInfo,
    /// The client's own identity on the network.
    pub node_id: PeerId,
    /// Approvals of the next block, by the validator's place among the validators.
    pub approvals: HashMap<usize, Signature>,
    /// When the last block was taken up.
    pub last_block_processed: Nanos,
    /// Height of the epoch for which the client last announced its account.
    pub last_val_announce_height: Option<BlockHeight>,
}

/// Something that the client does later.
#[derive(Clone, Copy, Debug, PartialEq, Eq)]
pub enum Task {
    StartSync,
    Sync,
    FetchNetworkInfo,
    LogSummary,
    ProduceBlock { block_hash: CryptoHash, last_height: BlockHeight, next_height: BlockHeight },
    CheckBlockTimeout { last_height: BlockHeight, check_height: BlockHeight },
}

/// A task and the time to wait before it.
#[derive(Clone, Copy, Debug, PartialEq, Eq)]
pub struct RunLater {
    pub delay: Nanos,
    pub task: Task,
}

impl ClientActor {
    /// A client that has just come up: no peers known, no approvals, nothing announced.
    pub fn new(
        config: ClientConfig,
        node_id: PeerId,
        block_producer: Option<AccountId>,
        now: Nanos,
    ) -> (r: ClientActor)
        ensures
            r.config == config,
            r.sync_status is AwaitingPeers,
            r.catchup_state_syncs@ == Map::<CryptoHash, ShardStatuses>::empty(),
            r.block_producer == block_producer,
            r.network_info.num_active_peers == 0,
            r.network_info.peer_max_count == 0,
            r.network_info.most_weight_peers@.len() == 0,
            r.network_info.received_bytes_per_sec == 0,
            r.network_info.sent_bytes_per_sec == 0,
            r.network_info.routes is None,
            r.node_id == node_id,
            r.approvals@ == Map::<usize, Signature>::empty(),
            r.last_block_processed == now,
            r.last_val_announce_height is None,
    {
        ClientActor {
            config,
            sync_status: SyncStatus::AwaitingPeers,
            catchup_state_syncs: HashIndex::new(),
            block_producer,
            network_info: NetworkInfo {
                num_active_peers: 0,
                peer_max_count: 0,
                most_weight_peers: Vec::new(),
                received_bytes_per_sec: 0,
                sent_bytes_per_sec: 0,
                routes: None,
            },
            node_id,
            approvals: HashMap::new(),
            last_block_processed: now,
            last_val_announce_height: None,
        }
    }

    /// The client produces blocks and chunks for this account.
    pub open spec fn produces_for(self, account_id: Seq<char>) -> bool {
        self.block_producer matches Some(me) && me@ == account_id
    }

    /// Tells whether the client produces blocks and chunks for an account.
    pub fn is_producer(&self, account_id: &AccountId) -> (r: bool)
        ensures
            r == self.produces_for(account_id@),
            r <==> (self.block_producer matches Some(me) && me@ == account_id@),
    {
        match &self.block_producer {
            Some(me) => *me == *account_id,
            None => false,
        }
    }
}

/// The client is in step with its peers in one state only, and produces for one account at most:
/// the one that it was given.
pub proof fn law_client_has_one_account(client: ClientActor, one: Seq<char>, other: Seq<char>)
    ensures
        client.sync_status.syncing() <==> {
            ||| client.sync_status is AwaitingPeers
            ||| client.sync_status is HeaderSync
            ||| client.sync_status is StateSync
            ||| client.sync_status is BodySync
        },
        client.produces_for(one) && client.produces_for(other) ==> one == other,
        client.block_producer matches Some(me) ==> client.produces_for(me@),
        client.block_producer is None ==> !client.produces_for(one),
{
}

/// The words about a state that the chain did not take name the shard and the block, in this order,
/// and end with the chain's own reason; a state that could not be had is told in the reason's
/// words.
pub proof fn law_state_fault_ends_with_the_reason(
    shard_id: ShardId,
    hash: CryptoHash,
    reason: String,
)
    ensures
        ({
            let words = StateFault::SetState { shard_id, hash, reason }.words();
            &&& ("Failed to set state for "@ + decimal(shard_id as nat) + " @ "@ + hash_text(
                hash.0@,
            )).is_prefix_of(words)
            &&& reason@.is_suffix_of(words)
        }),
        StateFault::Fetch(reason).words() == reason@,
{
    let start = "Failed to set state for "@ + decimal(shard_id as nat) + " @ "@ + hash_text(
        hash.0@,
    );
    let words = start + ": "@ + reason@;
    assert(words.take(start.len() as int) =~= start);
    assert(words.skip(words.len() - reason@.len()) =~= reason@);
}

} // verus!
