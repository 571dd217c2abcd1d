//! What the client says of itself, and what it keeps itself informed of.
use vstd::prelude::*;
use crate::client::actor::{ClientActor, NetworkInfo, RunLater, Task};
use crate::client::errors::{ChainError, Error};
use crate::types::{
    contains_account, lists_account, AccountId, BlockHeader, BlockHeight, CryptoHash, Tip,
};

verus! {

/// How far the client has come.
#[derive(Clone, Copy, Debug, PartialEq, Eq)]
pub struct StatusSyncInfo {
    pub latest_block_hash: CryptoHash,
    pub latest_block_height: BlockHeight,
    pub latest_state_root: CryptoHash,
    pub latest_block_time: u64,
    pub syncing: bool,
}

/// What the client says of itself when asked.
#[derive(Debug)]
pub struct StatusResponse {
    pub version: String,
    pub chain_id: String,
    pub rpc_addr: String,
    /// The validators of the current epoch.
    pub validators: Vec<AccountId>,
    pub sync_info: StatusSyncInfo,
}

/// What the regular log line says of the chain and the client's part in it.
#[derive(Debug, PartialEq, Eq)]
pub struct Summary {
    pub head: Tip,
    pub is_validator: bool,
    pub num_validators: usize,
}

/// What to ask about the head of the chain.
#[derive(Clone, Copy, Debug, PartialEq, Eq)]
pub struct HeadQuestion {
    /// What is the header of this block?
    pub block_hash: CryptoHash,
    /// Who are the validators of this epoch?
    pub epoch_hash: CryptoHash,
}

/// What the client says of itself, given the head, its header and the validators of its epoch.
pub open spec fn status_of(
    client: ClientActor,
    head: Result<Tip, String>,
    prev_header: Result<BlockHeader, String>,
    validators: Result<Vec<AccountId>, String>,
) -> Result<StatusResponse, String> {
    match (head, prev_header, validators) {
        (Err(error), _, _) => Err(error),
        (Ok(_), Err(error), _) => Err(error),
        (Ok(_), Ok(_), Err(error)) => Err(error),
        (Ok(head), Ok(prev_header), Ok(validators)) => Ok(
            StatusResponse {
                version: client.config.version,
                chain_id: client.config.chain_id,
                rpc_addr: client.config.rpc_addr,
                validators,
                sync_info: StatusSyncInfo {
                    latest_block_hash: head.last_block_hash,
                    latest_block_height: head.height,
                    latest_state_root: prev_header.prev_state_root,
                    latest_block_time: prev_header.timestamp,
                    syncing: client.sync_status.syncing(),
                },
            },
        ),
    }
}

/// What the regular log line says, given the head and the validators of its epoch.
pub open spec fn summary_of(
    client: ClientActor,
    head: Result<Tip, ChainError>,
    validators: Result<Vec<AccountId>, Error>,
) -> Option<Summary> {
    match (head, validators) {
        (Ok(head), Ok(validators)) => Some(
            Summary {
                head,
                is_validator: client.block_producer matches Some(me) && lists_account(
                    validators@,
                    me@,
                ),
                num_validators: validators@.len() as usize,
            },
        ),
        _ => None,
    }
}

impl ClientActor {
    /// What to ask about the head, in order to tell the client's status or to log it.
    pub fn head_question(head: &Tip) -> (r: HeadQuestion)
        ensures
            r == (HeadQuestion { block_hash: head.last_block_hash, epoch_hash: head.epoch_hash }),
    {
        HeadQuestion { block_hash: head.last_block_hash, epoch_hash: head.epoch_hash }
    }

    /// Answers a question about the client's status, given the head, its header, and the
    /// validators of its epoch. The first of these that is not to be had is the error.
    pub fn status(
        &self,
        head: Result<Tip, String>,
        prev_header: Result<BlockHeader, String>,
        validators: Result<Vec<AccountId>, String>,
    ) -> (r: Result<StatusResponse, String>)
        ensures
            r == status_of(*self, head, prev_header, validators),
    {
        let head = match head {
            Ok(head) => head,
            Err(error) => {
                return Err(error);
            },
        };
        let prev_header = match prev_header {
            Ok(prev_header) => prev_header,
            Err(error) => {
                return Err(error);
            },
        };
        let validators = match validators {
            Ok(validators) => validators,
            Err(error) => {
                return Err(error);
            },
        };
        Ok(
            StatusResponse {
                version: self.config.version.clone(),
                chain_id: self.config.chain_id.clone(),
                rpc_addr: self.config.rpc_addr.clone(),
                validators,
                sync_info: StatusSyncInfo {
                    latest_block_hash: head.last_block_hash,
                    latest_block_height: head.height,
                    latest_state_root: prev_header.prev_state_root,
                    latest_block_time: prev_header.timestamp,
                    syncing: self.sync_status.is_syncing(),
                },
            },
        )
    }

    /// When to ask the network about itself again.
    pub fn fetch_network_info(&self) -> (r: RunLater)
        ensures
            r == (RunLater {
                delay: self.config.fetch_info_period,
                task: Task::FetchNetworkInfo,
            }),
    {
        RunLater { delay: self.config.fetch_info_period, task: Task::FetchNetworkInfo }
    }

    /// Takes up what the network says of itself, where it says something.
    pub fn network_info_fetched(&mut self, network_info: Result<Option<NetworkInfo>, String>)
        ensures
            *final(self) == (match network_info {
                Ok(Some(network_info)) => ClientActor { network_info, ..*old(self) },
                _ => *old(self),
            }),
    {
        match network_info {
            Ok(Some(network_info)) => {
                self.network_info = network_info;
            },
            _ => {},
        }
    }

    /// When to log next.
    pub fn log_summary(&self) -> (r: RunLater)
        ensures
            r == (RunLater { delay: self.config.log_summary_period, task: Task::LogSummary }),
    {
        RunLater { delay: self.config.log_summary_period, task: Task::LogSummary }
    }

    /// What to log, given the head and the validators of its epoch, and when to log next. Where one
    /// of them is not to be had there is nothing to log this time.
    pub fn summary(
        &self,
        head: Result<Tip, ChainError>,
        validators: Result<Vec<AccountId>, Error>,
    ) -> (r: (Option<Summary>, RunLater))
        ensures
            r.1 == (RunLater { delay: self.config.log_summary_period, task: Task::LogSummary }),
            r.0 == summary_of(*self, head, validators),
    {
        let summary = match (head, validators) {
            (Ok(head), Ok(validators)) => {
                let is_validator = match &self.block_producer {
                    Some(me) => contains_account(&validators, me),
                    None => false,
                };
                Some(Summary { head, is_validator, num_validators: validators.len() })
            },
            _ => None,
        };
        (summary, self.log_summary())
    }
}

/// The client tells its status exactly if the head, its header and the validators are all to be
/// had; the first of them that is not is the error. The block and its height are the head's, the
/// state and the time its header's, and the client counts as syncing unless it is in step.
pub proof fn law_status_is_that_of_the_head(
    client: ClientActor,
    head: Result<Tip, String>,
    prev_header: Result<BlockHeader, String>,
    validators: Result<Vec<AccountId>, String>,
)
    ensures
        match status_of(client, head, prev_header, validators) {
            Ok(status) => {
                &&& head is Ok
                &&& prev_header is Ok
                &&& validators == Ok::<Vec<AccountId>, String>(status.validators)
                &&& status.version == client.config.version
                &&& status.chain_id == client.config.chain_id
                &&& status.rpc_addr == client.config.rpc_addr
                &&& status.sync_info.latest_block_hash == head->Ok_0.last_block_hash
                &&& status.sync_info.latest_block_height == head->Ok_0.height
                &&& status.sync_info.latest_state_root == prev_header->Ok_0.prev_state_root
                &&& status.sync_info.latest_block_time == prev_header->Ok_0.timestamp
                &&& status.sync_info.syncing <==> !(client.sync_status is NoSync)
            },
            Err(error) => {
                ||| head == Err::<Tip, String>(error)
                ||| head is Ok && prev_header == Err::<BlockHeader, String>(error)
                ||| head is Ok && prev_header is Ok && validators == Err::<
                    Vec<AccountId>,
                    String,
                >(error)
            },
        },
{
}

/// There is something to log exactly if the head and the validators are to be had: the head, how
/// many validators there are, and whether the client's account is one of them.
pub proof fn law_summary_counts_the_validators(
    client: ClientActor,
    head: Result<Tip, ChainError>,
    validators: Result<Vec<AccountId>, Error>,
)
    ensures
        summary_of(client, head, validators) is Some <==> head is Ok && validators is Ok,
        summary_of(client, head, validators) matches Some(summary) ==> {
            let list = validators->Ok_0;
            &&& head == Ok::<Tip, ChainError>(summary.head)
            &&& summary.num_validators == list@.len()
            &&& summary.is_validator <==> client.block_producer is Some && exists|i: int|
                0 <= i < list@.len() && (#[trigger] list@[i])@ == client.block_producer->Some_0@
        },
{
    if validators is Ok {
        assert(validators->Ok_0.len() == validators->Ok_0@.len());
    }
}

} // verus!
