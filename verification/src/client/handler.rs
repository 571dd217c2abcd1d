//! Messages from the network, and what the client answers.
//!
//! A message leads to a first step, and the answer to a step leads to the next one, until there is
//! a response.
use vstd::prelude::*;
use crate::client::accepted::{CareQuestion, Provenance};
use crate::client::actor::{ClientActor, ShardSyncStatus, StateFault, SyncStatus};
use crate::client::announce::{
    announce_fault, check_signature_account_announce, AnnounceAccount, SignatureQuestion,
};
use crate::client::duties::approvals_after;
use crate::client::errors::ChainError;
use crate::crypto::{name_fits, SignedTransaction};
use crate::stateless_validation::receipts::Receipt;
use crate::types::{
    AccountId, Block, BlockHeader, BlockHeight, CryptoHash, PeerId, ReasonForBan,
    ShardChunkHeader, ShardId, Signature, Tip,
};

verus! {

/// A request for parts of a chunk, or parts of a chunk, in the encoding of the chunk store.
#[derive(Debug, PartialEq, Eq)]
pub struct ChunkPartMessage {
    pub encoded: Vec<u8>,
}

/// A part of a chunk that comes with the chunk's header.
#[derive(Debug, PartialEq, Eq)]
pub struct ChunkOnePartMessage {
    pub shard_id: ShardId,
    pub header: ShardChunkHeader,
    pub encoded: Vec<u8>,
}

impl ChunkOnePartMessage {
    /// What to ask in order to know whether the shard of the chunk matters to the client.
    pub fn care_question(&self) -> (r: CareQuestion)
        ensures
            r == (CareQuestion {
                parent_hash: self.header.inner.prev_block_hash,
                shard_id: self.shard_id,
            }),
    {
        CareQuestion {
            parent_hash: self.header.inner.prev_block_hash,
            shard_id: self.shard_id,
        }
    }
}

/// Receipts that go with a state, by the block that they come from.
pub type StateReceipts = Vec<(CryptoHash, Vec<Receipt>)>;

/// What the network has for the client.
#[derive(Debug)]
pub enum NetworkClientMessages {
    /// A transaction and the account that it comes from.
    Transaction(AccountId, SignedTransaction),
    BlockHeader(BlockHeader, PeerId),
    /// A block, the peer that sent it, and whether the client had asked for it.
    Block(Block, PeerId, bool),
    BlockRequest(CryptoHash),
    BlockHeadersRequest(Vec<CryptoHash>),
    GetChainInfo,
    BlockHeaders(Vec<BlockHeader>, PeerId),
    BlockApproval(AccountId, CryptoHash, Signature),
    StateRequest(ShardId, CryptoHash),
    StateResponse(ShardId, CryptoHash, Vec<u8>, StateReceipts),
    ChunkPartRequest(ChunkPartMessage, PeerId),
    ChunkOnePartRequest(ChunkPartMessage, PeerId),
    ChunkPart(ChunkPartMessage),
    ChunkOnePart(ChunkOnePartMessage),
    AnnounceAccount(AnnounceAccount),
}

/// What the client answers the network.
#[derive(Debug)]
pub enum NetworkClientResponses {
    NoResponse,
    ValidTx,
    /// The transaction is not valid, for the reason given.
    InvalidTx(String),
    Ban { ban_reason: ReasonForBan },
    Block(Block),
    BlockHeaders(Vec<BlockHeader>),
    ChainInfo { genesis: CryptoHash, height: BlockHeight, total_weight: u64 },
    StateResponse {
        shard_id: ShardId,
        hash: CryptoHash,
        payload: Vec<u8>,
        receipts: StateReceipts,
    },
}

/// What to do next about a message.
#[derive(Debug)]
pub enum HandleStep {
    /// Find the account's shard and the state that its last chunk led to.
    FindState { account_id: AccountId, transaction: SignedTransaction },
    /// Hold the transaction against the state.
    ValidateTransaction {
        shard_id: ShardId,
        state_root: CryptoHash,
        transaction: SignedTransaction,
    },
    /// Put the transaction into the shard's pool, and respond that it is valid.
    InsertTransaction { shard_id: ShardId, transaction: SignedTransaction },
    /// Hand the header to the chain.
    ProcessHeader { header: BlockHeader, peer_id: PeerId },
    /// Hand the block to the chain, and see whether its parent, which is given, waits for a parent
    /// itself.
    ProcessBlock {
        block: Block,
        provenance: Provenance,
        prev_hash: CryptoHash,
        peer_id: PeerId,
    },
    /// See whether the chain has the block.
    FindBlock { hash: CryptoHash, peer_id: PeerId },
    /// Ask the peer for the block; there is no response.
    RequestBlock { hash: CryptoHash, peer_id: PeerId },
    /// Ask the peers for the chunks; there is no response.
    RequestChunks(Vec<ShardChunkHeader>),
    /// Get the block from the chain.
    GetBlock(CryptoHash),
    /// Collect the headers that follow the latest of these blocks that the chain has.
    RetrieveHeaders(Vec<CryptoHash>),
    /// Get the head of the chain.
    GetHead,
    /// Hand the headers to the chain.
    SyncHeaders(Vec<BlockHeader>),
    /// Get the header of the block that is approved.
    CheckApproval { account_id: AccountId, hash: CryptoHash, signature: Signature },
    /// Get the validators of the epoch that the question names, and the answer to the question.
    JudgeApproval { header: BlockHeader, question: SignatureQuestion },
    /// Get the header of the block whose state was asked for.
    GetStateHeader { shard_id: ShardId, hash: CryptoHash },
    /// Get the state.
    DumpState { shard_id: ShardId, hash: CryptoHash, state_root: CryptoHash },
    /// Find the blocks at which the state for the next epoch is being fetched.
    FindStateSyncs {
        shard_id: ShardId,
        hash: CryptoHash,
        payload: Vec<u8>,
        receipts: StateReceipts,
    },
    /// Hand the state to the chain.
    SetState { shard_id: ShardId, hash: CryptoHash, payload: Vec<u8>, receipts: StateReceipts },
    /// Hand the request to the chunk store; there is no response.
    ProcessPartRequest(ChunkPartMessage, PeerId),
    /// Hand the request to the chunk store; there is no response.
    ProcessOnePartRequest(ChunkPartMessage, PeerId),
    /// Hand the part to the chunk store.
    ProcessPart(ChunkPartMessage),
    /// Hand the part to the chunk store, and see whether its shard matters to the client: ask what
    /// [`ChunkOnePartMessage::care_question`] gives.
    ProcessOnePart(ChunkOnePartMessage),
    /// Ask for the chunk, if one is given, and see whether blocks from this height on can go
    /// ahead; there is no response.
    RetryBlocks { request: Option<ShardChunkHeader>, height: BlockHeight },
    /// See whether the signature in the announcement's header is the account's: ask what
    /// [`AnnounceAccount::signature_question`] gives.
    CheckAnnouncement(AnnounceAccount),
    /// Pass the announcement on to the network; there is no response.
    Forward(AnnounceAccount),
    Respond(NetworkClientResponses),
}

/// The step that ends with no response.
pub open spec fn no_response() -> HandleStep {
    HandleStep::Respond(NetworkClientResponses::NoResponse)
}

/// The step that ends with a ban.
pub open spec fn ban(ban_reason: ReasonForBan) -> HandleStep {
    HandleStep::Respond(NetworkClientResponses::Ban { ban_reason })
}

/// A block that the client asked for serves to catch up.
pub open spec fn provenance_of(was_requested: bool) -> Provenance {
    if was_requested {
        Provenance::SYNC
    } else {
        Provenance::NONE
    }
}

/// The first step about a message.
pub open spec fn first_step(msg: NetworkClientMessages) -> HandleStep {
    match msg {
        NetworkClientMessages::Transaction(account_id, transaction) => HandleStep::FindState {
            account_id,
            transaction,
        },
        NetworkClientMessages::BlockHeader(header, peer_id) => HandleStep::ProcessHeader {
            header,
            peer_id,
        },
        NetworkClientMessages::Block(
            block,
            peer_id,
            was_requested,
        ) => HandleStep::ProcessBlock {
            block,
            provenance: provenance_of(was_requested),
            prev_hash: block.header.prev_hash,
            peer_id,
        },
        NetworkClientMessages::BlockRequest(hash) => HandleStep::GetBlock(hash),
        NetworkClientMessages::BlockHeadersRequest(hashes) => HandleStep::RetrieveHeaders(hashes),
        NetworkClientMessages::GetChainInfo => HandleStep::GetHead,
        NetworkClientMessages::BlockHeaders(headers, _) => if headers@.len() == 0 {
            no_response()
        } else {
            HandleStep::SyncHeaders(headers)
        },
        NetworkClientMessages::BlockApproval(
            account_id,
            hash,
            signature,
        ) => HandleStep::CheckApproval { account_id, hash, signature },
        NetworkClientMessages::StateRequest(shard_id, hash) => HandleStep::GetStateHeader {
            shard_id,
            hash,
        },
        NetworkClientMessages::StateResponse(
            shard_id,
            hash,
            payload,
            receipts,
        ) => HandleStep::FindStateSyncs { shard_id, hash, payload, receipts },
        NetworkClientMessages::ChunkPartRequest(msg, peer_id) => HandleStep::ProcessPartRequest(
            msg,
            peer_id,
        ),
        NetworkClientMessages::ChunkOnePartRequest(
            msg,
            peer_id,
        ) => HandleStep::ProcessOnePartRequest(msg, peer_id),
        NetworkClientMessages::ChunkPart(msg) => HandleStep::ProcessPart(msg),
        NetworkClientMessages::ChunkOnePart(msg) => HandleStep::ProcessOnePart(msg),
        NetworkClientMessages::AnnounceAccount(announce) => HandleStep::CheckAnnouncement(announce),
    }
}

impl ClientActor {
    /// The first step about a message from the network.
    pub fn handle(msg: NetworkClientMessages) -> (r: HandleStep)
        ensures
            r == first_step(msg),
    {
        match msg {
            NetworkClientMessages::Transaction(account_id, transaction) => HandleStep::FindState {
                account_id,
                transaction,
            },
            NetworkClientMessages::BlockHeader(header, peer_id) => HandleStep::ProcessHeader {
                header,
                peer_id,
            },
            NetworkClientMessages::Block(block, peer_id, was_requested) => {
                let provenance = if was_requested {
                    Provenance::SYNC
                } else {
                    Provenance::NONE
                };
                let prev_hash = block.header.prev_hash;
                HandleStep::ProcessBlock { block, provenance, prev_hash, peer_id }
            },
            NetworkClientMessages::BlockRequest(hash) => HandleStep::GetBlock(hash),
            NetworkClientMessages::BlockHeadersRequest(hashes) => HandleStep::RetrieveHeaders(
                hashes,
            ),
            NetworkClientMessages::GetChainInfo => HandleStep::GetHead,
            NetworkClientMessages::BlockHeaders(headers, _) => {
                if headers.len() == 0 {
                    HandleStep::Respond(NetworkClientResponses::NoResponse)
                } else {
                    HandleStep::SyncHeaders(headers)
                }
            },
            NetworkClientMessages::BlockApproval(
                account_id,
                hash,
                signature,
            ) => HandleStep::CheckApproval { account_id, hash, signature },
            NetworkClientMessages::StateRequest(shard_id, hash) => HandleStep::GetStateHeader {
                shard_id,
                hash,
            },
            NetworkClientMessages::StateResponse(
                shard_id,
                hash,
                payload,
                receipts,
            ) => HandleStep::FindStateSyncs { shard_id, hash, payload, receipts },
            NetworkClientMessages::ChunkPartRequest(
                msg,
                peer_id,
            ) => HandleStep::ProcessPartRequest(msg, peer_id),
            NetworkClientMessages::ChunkOnePartRequest(
                msg,
                peer_id,
            ) => HandleStep::ProcessOnePartRequest(msg, peer_id),
            NetworkClientMessages::ChunkPart(msg) => HandleStep::ProcessPart(msg),
            NetworkClientMessages::ChunkOnePart(msg) => HandleStep::ProcessOnePart(msg),
            NetworkClientMessages::AnnounceAccount(announce) => HandleStep::CheckAnnouncement(
                announce,
            ),
        }
    }
}

/// A list of hashes holds a hash.
fn contains_hash(hashes: &Vec<CryptoHash>, hash: &CryptoHash) -> (r: bool)
    ensures
        r == hashes@.contains(*hash),
{
    let mut i: usize = 0;
    while i < hashes.len()
        invariant
            i <= hashes@.len(),
            forall|j: int| 0 <= j < i ==> hashes@[j] != *hash,
        decreases hashes@.len() - i,
    {
        if hashes[i] == *hash {
            assert(hashes@[i as int] == *hash);
            return true;
        }
        i += 1;
    }
    false
}

/// The step about a transaction once its shard and that shard's state are known.
pub open spec fn after_state_lookup(
    transaction: SignedTransaction,
    shard_id: ShardId,
    state_root: Option<CryptoHash>,
) -> HandleStep {
    match state_root {
        Some(state_root) => HandleStep::ValidateTransaction { shard_id, state_root, transaction },
        None => no_response(),
    }
}

/// The step about a transaction once it has been held against the state.
pub open spec fn after_validation(
    shard_id: ShardId,
    result: Result<SignedTransaction, String>,
) -> HandleStep {
    match result {
        Ok(transaction) => HandleStep::InsertTransaction { shard_id, transaction },
        Err(reason) => HandleStep::Respond(NetworkClientResponses::InvalidTx(reason)),
    }
}

/// The step about a header once the chain has looked at it.
pub open spec fn after_header(
    header: BlockHeader,
    peer_id: PeerId,
    result: Result<(), ChainError>,
) -> HandleStep {
    match result {
        Ok(()) => HandleStep::FindBlock { hash: header.hash, peer_id },
        Err(ChainError::BadData(_)) => ban(ReasonForBan::BadBlockHeader),
        Err(_) => no_response(),
    }
}

/// The step about a block that is not at hand once the chain has been asked for it.
pub open spec fn after_block_lookup(
    hash: CryptoHash,
    peer_id: PeerId,
    exists: Result<bool, ChainError>,
) -> HandleStep {
    if exists == Ok::<bool, ChainError>(false) {
        HandleStep::RequestBlock { hash, peer_id }
    } else {
        no_response()
    }
}

/// The step about headers once the chain has looked at them.
pub open spec fn after_headers(result: Result<(), ChainError>) -> HandleStep {
    if result matches Err(ChainError::BadData(_)) {
        ban(ReasonForBan::BadBlockHeader)
    } else {
        no_response()
    }
}

/// The step about a question for the chain once the head is known.
pub open spec fn after_head_lookup(
    genesis: CryptoHash,
    head: Result<Tip, ChainError>,
) -> HandleStep {
    match head {
        Ok(head) => HandleStep::Respond(
            NetworkClientResponses::ChainInfo {
                genesis,
                height: head.height,
                total_weight: head.total_weight,
            },
        ),
        Err(_) => no_response(),
    }
}

/// The step about an approval once the header of the block is known.
pub open spec fn after_approved_header(
    account_id: AccountId,
    hash: CryptoHash,
    signature: Signature,
    header: Result<BlockHeader, ChainError>,
) -> HandleStep {
    match header {
        Ok(header) => HandleStep::JudgeApproval {
            header,
            question: SignatureQuestion {
                epoch_hash: header.epoch_hash,
                account_id,
                hash,
                signature,
            },
        },
        Err(_) => no_response(),
    }
}

/// The step about an announcement once its header's signature has been judged.
pub open spec fn after_announcement(
    announce: AnnounceAccount,
    header_signature_is_valid: bool,
) -> HandleStep {
    match announce_fault(announce, header_signature_is_valid) {
        None => HandleStep::Forward(announce),
        Some(reason) => ban(reason),
    }
}

/// The step about a request for state once the header of the block is known.
pub open spec fn after_state_header(
    shard_id: ShardId,
    hash: CryptoHash,
    header: Result<BlockHeader, ChainError>,
) -> HandleStep {
    match header {
        Ok(header) => HandleStep::DumpState { shard_id, hash, state_root: header.prev_state_root },
        Err(_) => no_response(),
    }
}

/// The step about a part of a chunk once the chunk store has taken it.
pub open spec fn after_part(result: Result<Option<BlockHeight>, String>) -> HandleStep {
    match result {
        Ok(Some(height)) => HandleStep::RetryBlocks { request: None, height },
        _ => no_response(),
    }
}

impl ClientActor {
    /// The step about a block once the chain has looked at it.
    pub open spec fn after_block(
        self,
        prev_hash: CryptoHash,
        peer_id: PeerId,
        result: Result<(), ChainError>,
        prev_is_orphan: bool,
    ) -> HandleStep {
        match result {
            Err(ChainError::BadData(_)) => ban(ReasonForBan::BadBlock),
            Err(ChainError::Orphan) => if !prev_is_orphan && !self.sync_status.syncing() {
                HandleStep::FindBlock { hash: prev_hash, peer_id }
            } else {
                no_response()
            },
            Err(ChainError::ChunksMissing(chunks)) => HandleStep::RequestChunks(chunks),
            _ => no_response(),
        }
    }

    /// The step about the first part of a chunk once the chunk store has taken it.
    pub open spec fn after_one_part(
        self,
        header: ShardChunkHeader,
        result: Result<bool, String>,
        cares: bool,
        head: Result<Tip, ChainError>,
    ) -> HandleStep {
        if result == Ok::<bool, String>(true) {
            HandleStep::RetryBlocks {
                request: if self.block_producer is Some && cares && (head matches Ok(head)
                    && head.last_block_hash == header.inner.prev_block_hash) {
                    Some(header)
                } else {
                    None
                },
                height: header.inner.height_created,
            }
        } else {
            no_response()
        }
    }

    /// The step about a state that has come in once the noted fetches are known.
    pub open spec fn after_state_syncs(
        self,
        shard_id: ShardId,
        hash: CryptoHash,
        payload: Vec<u8>,
        receipts: StateReceipts,
        sync_hashes: Seq<CryptoHash>,
    ) -> HandleStep {
        if self.wants_state(hash, sync_hashes) {
            HandleStep::SetState { shard_id, hash, payload, receipts }
        } else {
            no_response()
        }
    }
}

// Transactions.
impl ClientActor {
    /// Goes on with a transaction, given its shard and the state of that shard, if it is known.
    pub fn state_found(
        transaction: SignedTransaction,
        shard_id: ShardId,
        state_root: Option<CryptoHash>,
    ) -> (r: HandleStep)
        ensures
            r == after_state_lookup(transaction, shard_id, state_root),
    {
        match state_root {
            Some(state_root) => HandleStep::ValidateTransaction {
                shard_id,
                state_root,
                transaction,
            },
            None => HandleStep::Respond(NetworkClientResponses::NoResponse),
        }
    }

    /// Goes on with a transaction, given whether it holds against the state.
    pub fn transaction_validated(
        shard_id: ShardId,
        result: Result<SignedTransaction, String>,
    ) -> (r: HandleStep)
        ensures
            r == after_validation(shard_id, result),
    {
        match result {
            Ok(transaction) => HandleStep::InsertTransaction { shard_id, transaction },
            Err(reason) => HandleStep::Respond(NetworkClientResponses::InvalidTx(reason)),
        }
    }
}

// Blocks and headers.
impl ClientActor {
    /// Responds to a block, given its parent, the peer that sent it, what the chain made of it,
    /// and whether its parent waits for a parent itself.
    ///
    /// A malformed or dishonest block bans the peer. A block whose parent is not known calls for
    /// the parent, unless that has come too or the client is catching up anyway.
    pub fn receive_block(
        &self,
        prev_hash: CryptoHash,
        peer_id: PeerId,
        result: Result<(), ChainError>,
        prev_is_orphan: bool,
    ) -> (r: HandleStep)
        ensures
            r == self.after_block(prev_hash, peer_id, result, prev_is_orphan),
    {
        match result {
            Err(ChainError::BadData(_)) => HandleStep::Respond(
                NetworkClientResponses::Ban { ban_reason: ReasonForBan::BadBlock },
            ),
            Err(ChainError::Orphan) => {
                if !prev_is_orphan && !self.sync_status.is_syncing() {
                    HandleStep::FindBlock { hash: prev_hash, peer_id }
                } else {
                    HandleStep::Respond(NetworkClientResponses::NoResponse)
                }
            },
            Err(ChainError::ChunksMissing(chunks)) => HandleStep::RequestChunks(chunks),
            _ => HandleStep::Respond(NetworkClientResponses::NoResponse),
        }
    }

    /// Responds to a header, given the peer that sent it and what the chain made of it. A header
    /// that the chain took calls for its block; a malformed or dishonest one bans the peer.
    pub fn receive_header(
        header: &BlockHeader,
        peer_id: PeerId,
        result: Result<(), ChainError>,
    ) -> (r: HandleStep)
        ensures
            r == after_header(*header, peer_id, result),
    {
        match result {
            Ok(()) => HandleStep::FindBlock { hash: header.hash, peer_id },
            Err(ChainError::BadData(_)) => HandleStep::Respond(
                NetworkClientResponses::Ban { ban_reason: ReasonForBan::BadBlockHeader },
            ),
            Err(_) => HandleStep::Respond(NetworkClientResponses::NoResponse),
        }
    }

    /// Asks a peer for a block, given whether the chain has it already.
    pub fn request_block_by_hash(
        hash: CryptoHash,
        peer_id: PeerId,
        exists: Result<bool, ChainError>,
    ) -> (r: HandleStep)
        ensures
            r == after_block_lookup(hash, peer_id, exists),
    {
        match exists {
            Ok(false) => HandleStep::RequestBlock { hash, peer_id },
            _ => HandleStep::Respond(NetworkClientResponses::NoResponse),
        }
    }

    /// Responds to headers, of which there was at least one, given what the chain made of them.
    pub fn receive_headers(result: Result<(), ChainError>) -> (r: HandleStep)
        ensures
            r == after_headers(result),
    {
        match result {
            Err(ChainError::BadData(_)) => HandleStep::Respond(
                NetworkClientResponses::Ban { ban_reason: ReasonForBan::BadBlockHeader },
            ),
            _ => HandleStep::Respond(NetworkClientResponses::NoResponse),
        }
    }

    /// Responds to a request for a block, given what the chain has.
    pub fn block_answered(block: Result<Block, ChainError>) -> (r: HandleStep)
        ensures
            r == (match block {
                Ok(block) => HandleStep::Respond(NetworkClientResponses::Block(block)),
                Err(_) => no_response(),
            }),
    {
        match block {
            Ok(block) => HandleStep::Respond(NetworkClientResponses::Block(block)),
            Err(_) => HandleStep::Respond(NetworkClientResponses::NoResponse),
        }
    }

    /// Responds to a request for headers, given those that were collected.
    pub fn headers_answered(headers: Result<Vec<BlockHeader>, ChainError>) -> (r: HandleStep)
        ensures
            r == (match headers {
                Ok(headers) => HandleStep::Respond(NetworkClientResponses::BlockHeaders(headers)),
                Err(_) => no_response(),
            }),
    {
        match headers {
            Ok(headers) => HandleStep::Respond(NetworkClientResponses::BlockHeaders(headers)),
            Err(_) => HandleStep::Respond(NetworkClientResponses::NoResponse),
        }
    }

    /// Responds to a question about the chain, given its first block and its head.
    pub fn chain_info_answered(
        genesis: CryptoHash,
        head: Result<Tip, ChainError>,
    ) -> (r: HandleStep)
        ensures
            r == after_head_lookup(genesis, head),
    {
        match head {
            Ok(head) => HandleStep::Respond(
                NetworkClientResponses::ChainInfo {
                    genesis,
                    height: head.height,
                    total_weight: head.total_weight,
                },
            ),
            Err(_) => HandleStep::Respond(NetworkClientResponses::NoResponse),
        }
    }

    /// Goes on with an approval, given the header of the block: the validators of its epoch judge
    /// it. An approval of a block that is not known is left alone.
    pub fn approval_header_answered(
        account_id: AccountId,
        hash: CryptoHash,
        signature: Signature,
        header: Result<BlockHeader, ChainError>,
    ) -> (r: HandleStep)
        ensures
            r == after_approved_header(account_id, hash, signature, header),
    {
        match header {
            Ok(header) => HandleStep::JudgeApproval {
                header,
                question: SignatureQuestion {
                    epoch_hash: header.epoch_hash,
                    account_id,
                    hash,
                    signature,
                },
            },
            Err(_) => HandleStep::Respond(NetworkClientResponses::NoResponse),
        }
    }

    /// Responds to an approval, given the validators of the block's epoch and whether the signature
    /// is the account's. An approval that is not reasonable bans the peer.
    pub fn approval_checked(
        &mut self,
        header: BlockHeader,
        question: &SignatureQuestion,
        validators: Result<Vec<AccountId>, String>,
        signature_is_valid: bool,
    ) -> (r: HandleStep)
        ensures
            *final(self) == (ClientActor { approvals: final(self).approvals, ..*old(self) }),
            match approvals_after(
                old(self).approvals@,
                question.account_id@,
                question.signature,
                validators,
                signature_is_valid,
            ) {
                Some(approvals) => r == no_response() && final(self).approvals@ == approvals,
                None => {
                    &&& r == ban(ReasonForBan::BadBlockApproval)
                    &&& *final(self) == *old(self)
                },
            },
    {
        if self.collect_block_approval(
            &question.account_id,
            &question.signature,
            Ok(header),
            validators,
            signature_is_valid,
        ) {
            HandleStep::Respond(NetworkClientResponses::NoResponse)
        } else {
            HandleStep::Respond(
                NetworkClientResponses::Ban { ban_reason: ReasonForBan::BadBlockApproval },
            )
        }
    }

    /// Goes on with an announcement, given whether the signature in its header is the account's.
    /// A sound announcement is passed on; any other bans the peer.
    pub fn announcement_checked(
        announce_account: AnnounceAccount,
        header_signature_is_valid: bool,
    ) -> (r: HandleStep)
        requires
            announce_account.route@.len() > 0,
            name_fits(announce_account.account_id@),
        ensures
            r == after_announcement(announce_account, header_signature_is_valid),
    {
        match check_signature_account_announce(&announce_account, header_signature_is_valid) {
            Ok(()) => HandleStep::Forward(announce_account),
            Err(ban_reason) => HandleStep::Respond(NetworkClientResponses::Ban { ban_reason }),
        }
    }
}

/// How a shard stands once its state has been handed to the chain.
pub open spec fn status_after(
    shard_id: ShardId,
    hash: CryptoHash,
    result: Result<(), String>,
) -> ShardSyncStatus {
    match result {
        Ok(()) => ShardSyncStatus::StateDone,
        Err(reason) => ShardSyncStatus::Error(StateFault::SetState { shard_id, hash, reason }),
    }
}

// State.
impl ClientActor {
    /// The client is fetching the state at a block, because it is behind or for the next epoch.
    pub open spec fn wants_state(self, hash: CryptoHash, sync_hashes: Seq<CryptoHash>) -> bool {
        ||| self.syncs_state_at(hash)
        ||| self.catches_up_at(hash, sync_hashes)
    }

    /// The client is behind and fetches the state at a block.
    pub open spec fn syncs_state_at(self, hash: CryptoHash) -> bool {
        self.sync_status matches SyncStatus::StateSync(sync_hash, _) && sync_hash == hash
    }

    /// The client fetches the state at a block for the next epoch, `sync_hashes` being the blocks
    /// that the chain has noted for that.
    pub open spec fn catches_up_at(self, hash: CryptoHash, sync_hashes: Seq<CryptoHash>) -> bool {
        sync_hashes.contains(hash) && self.catchup_state_syncs@.contains_key(hash)
    }

    /// Goes on with a request for state, given the header of the block.
    pub fn state_request(
        shard_id: ShardId,
        hash: CryptoHash,
        header: Result<BlockHeader, ChainError>,
    ) -> (r: HandleStep)
        ensures
            r == after_state_header(shard_id, hash, header),
    {
        match header {
            Ok(header) => HandleStep::DumpState {
                shard_id,
                hash,
                state_root: header.prev_state_root,
            },
            Err(_) => HandleStep::Respond(NetworkClientResponses::NoResponse),
        }
    }

    /// Responds to a request for state, given the state. It goes without receipts.
    pub fn state_dumped(
        shard_id: ShardId,
        hash: CryptoHash,
        payload: Result<Vec<u8>, String>,
    ) -> (r: HandleStep)
        ensures
            match payload {
                Ok(payload) => {
                    &&& r matches HandleStep::Respond(
                        NetworkClientResponses::StateResponse {
                            shard_id: response_shard,
                            hash: response_hash,
                            payload: response_payload,
                            receipts,
                        },
                    )
                    &&& response_shard == shard_id
                    &&& response_hash == hash
                    &&& response_payload == payload
                    &&& receipts@.len() == 0
                },
                Err(_) => r == no_response(),
            },
    {
        match payload {
            Ok(payload) => HandleStep::Respond(
                NetworkClientResponses::StateResponse {
                    shard_id,
                    hash,
                    payload,
                    receipts: Vec::new(),
                },
            ),
            Err(_) => HandleStep::Respond(NetworkClientResponses::NoResponse),
        }
    }

    /// Goes on with a state that has come in, given the blocks at which the chain has noted that
    /// state is being fetched. A state that is not being fetched is left alone.
    pub fn state_syncs_found(
        &self,
        shard_id: ShardId,
        hash: CryptoHash,
        payload: Vec<u8>,
        receipts: StateReceipts,
        sync_hashes: &Vec<CryptoHash>,
    ) -> (r: HandleStep)
        ensures
            r == self.after_state_syncs(shard_id, hash, payload, receipts, sync_hashes@),
    {
        let is_syncing = match &self.sync_status {
            SyncStatus::StateSync(sync_hash, _) => *sync_hash == hash,
            _ => false,
        };
        let is_catching_up = contains_hash(sync_hashes, &hash)
            && self.catchup_state_syncs.contains_key(&hash);
        if is_syncing || is_catching_up {
            HandleStep::SetState { shard_id, hash, payload, receipts }
        } else {
            HandleStep::Respond(NetworkClientResponses::NoResponse)
        }
    }

    /// Notes what the chain made of a shard's state, wherever that state is being fetched.
    pub fn state_set(
        &mut self,
        shard_id: ShardId,
        hash: CryptoHash,
        sync_hashes: &Vec<CryptoHash>,
        result: Result<(), String>,
    ) -> (r: HandleStep)
        ensures
            r == no_response(),
            *final(self) == (ClientActor {
                sync_status: final(self).sync_status,
                catchup_state_syncs: final(self).catchup_state_syncs,
                ..*old(self)
            }),
            if old(self).syncs_state_at(hash) {
                &&& final(self).sync_status matches SyncStatus::StateSync(sync_hash, statuses)
                &&& sync_hash == hash
                &&& statuses@ == old(self).sync_status->StateSync_1@.insert(
                    shard_id,
                    status_after(shard_id, hash, result),
                )
            } else {
                final(self).sync_status == old(self).sync_status
            },
            if old(self).catches_up_at(hash, sync_hashes@) {
                let before = old(self).catchup_state_syncs@;
                let after = final(self).catchup_state_syncs@;
                &&& after == before.insert(hash, after[hash])
                &&& after[hash]@ == before[hash]@.insert(
                    shard_id,
                    status_after(shard_id, hash, result),
                )
            } else {
                final(self).catchup_state_syncs@ == old(self).catchup_state_syncs@
            },
    {
        broadcast use vstd::std_specs::hash::group_hash_axioms;

        let status = match result {
            Ok(()) => ShardSyncStatus::StateDone,
            Err(reason) => ShardSyncStatus::Error(
                StateFault::SetState { shard_id, hash, reason },
            ),
        };
        match &mut self.sync_status {
            SyncStatus::StateSync(sync_hash, statuses) => {
                if *sync_hash == hash {
                    statuses.insert(shard_id, status.clone());
                }
            },
            _ => {},
        }
        if contains_hash(sync_hashes, &hash) {
            match self.catchup_state_syncs.remove(&hash) {
                Some(mut statuses) => {
                    statuses.insert(shard_id, status);
                    self.catchup_state_syncs.insert(hash, statuses);
                },
                None => {},
            }
        }
        HandleStep::Respond(NetworkClientResponses::NoResponse)
    }
}

// Chunk parts.
impl ClientActor {
    /// Goes on with a part of a chunk, given the height of the chunk where the part completed it.
    pub fn part_processed(result: Result<Option<BlockHeight>, String>) -> (r: HandleStep)
        ensures
            r == after_part(result),
    {
        match result {
            Ok(Some(height)) => HandleStep::RetryBlocks { request: None, height },
            _ => HandleStep::Respond(NetworkClientResponses::NoResponse),
        }
    }

    /// Goes on with the first part of a chunk, `result` saying whether it was new. Where the chunk
    /// builds on the head and its shard matters to the client, the other parts are asked for.
    pub fn one_part_processed(
        &self,
        header: ShardChunkHeader,
        result: Result<bool, String>,
        cares: bool,
        head: Result<Tip, ChainError>,
    ) -> (r: HandleStep)
        ensures
            r == self.after_one_part(header, result, cares, head),
    {
        match result {
            Ok(true) => {},
            _ => {
                return HandleStep::Respond(NetworkClientResponses::NoResponse);
            },
        }
        let builds_on_head = match head {
            Ok(head) => head.last_block_hash == header.inner.prev_block_hash,
            Err(_) => false,
        };
        let height: BlockHeight = header.inner.height_created;
        let request = if self.block_producer.is_some() && cares && builds_on_head {
            Some(header)
        } else {
            None
        };
        HandleStep::RetryBlocks { request, height }
    }
}

/// Nothing that comes with a message about transactions, blocks or headers is lost or changed on
/// the way to its first step. A block that the client had asked for counts as fetched for catching
/// up, and any other as sent by the peer; either is handed on together with the hash of its own
/// parent. An empty list of headers, and nothing else, is left without a response at once.
pub proof fn law_chain_messages_reach_their_step(msg: NetworkClientMessages)
    ensures
        ({
            let step = first_step(msg);
            &&& msg matches NetworkClientMessages::Transaction(from, sent) ==> {
                &&& step matches HandleStep::FindState { account_id, transaction }
                &&& account_id == from
                &&& transaction == sent
            }
            &&& msg matches NetworkClientMessages::BlockHeader(sent, from) ==> {
                &&& step matches HandleStep::ProcessHeader { header, peer_id }
                &&& header == sent
                &&& peer_id == from
            }
            &&& msg matches NetworkClientMessages::Block(sent, from, was_requested) ==> {
                &&& step matches HandleStep::ProcessBlock { block, provenance, prev_hash, peer_id }
                &&& block == sent
                &&& peer_id == from
                &&& prev_hash == sent.header.prev_hash
                &&& provenance is SYNC <==> was_requested
                &&& provenance is NONE <==> !was_requested
            }
            &&& msg matches NetworkClientMessages::BlockRequest(wanted) ==> step
                == HandleStep::GetBlock(wanted)
            &&& msg matches NetworkClientMessages::BlockHeadersRequest(hashes) ==> step
                == HandleStep::RetrieveHeaders(hashes)
            &&& msg is GetChainInfo ==> step is GetHead
            &&& msg matches NetworkClientMessages::BlockHeaders(headers, _) ==> {
                &&& headers@.len() > 0 ==> step == HandleStep::SyncHeaders(headers)
                &&& headers@.len() == 0 ==> step is Respond
            }
            &&& step is Respond ==> {
                &&& msg is BlockHeaders
                &&& step == HandleStep::Respond(NetworkClientResponses::NoResponse)
            }
        }),
{
}

/// Nothing that comes with a message about approvals, state, chunks or announcements is lost or
/// changed on the way to its first step.
pub proof fn law_other_messages_reach_their_step(msg: NetworkClientMessages)
    ensures
        ({
            let step = first_step(msg);
            &&& msg matches NetworkClientMessages::BlockApproval(from, approved, signed) ==> {
                &&& step matches HandleStep::CheckApproval { account_id, hash, signature }
                &&& account_id == from
                &&& hash == approved
                &&& signature == signed
            }
            &&& msg matches NetworkClientMessages::StateRequest(shard, at) ==> {
                &&& step matches HandleStep::GetStateHeader { shard_id, hash }
                &&& shard_id == shard
                &&& hash == at
            }
            &&& msg matches NetworkClientMessages::StateResponse(shard, at, state, with) ==> {
                &&& step matches HandleStep::FindStateSyncs { shard_id, hash, payload, receipts }
                &&& shard_id == shard
                &&& hash == at
                &&& payload == state
                &&& receipts == with
            }
            &&& msg matches NetworkClientMessages::ChunkPartRequest(request, from) ==> step
                == HandleStep::ProcessPartRequest(request, from)
            &&& msg matches NetworkClientMessages::ChunkOnePartRequest(request, from) ==> step
                == HandleStep::ProcessOnePartRequest(request, from)
            &&& msg matches NetworkClientMessages::ChunkPart(part) ==> step
                == HandleStep::ProcessPart(part)
            &&& msg matches NetworkClientMessages::ChunkOnePart(part) ==> step
                == HandleStep::ProcessOnePart(part)
            &&& msg matches NetworkClientMessages::AnnounceAccount(announce) ==> step
                == HandleStep::CheckAnnouncement(announce)
        }),
{
}

/// A state that comes in is wanted exactly if the client fetches the state at that block because it
/// is behind, or the chain has noted a fetch there for the next epoch and the client has begun it.
pub proof fn law_only_a_fetched_state_is_wanted(
    client: ClientActor,
    hash: CryptoHash,
    sync_hashes: Seq<CryptoHash>,
)
    ensures
        client.syncs_state_at(hash) <==> client.sync_status is StateSync
            && client.sync_status->StateSync_0 == hash,
        client.catches_up_at(hash, sync_hashes) <==> client.catchup_state_syncs@.contains_key(hash)
            && exists|i: int| 0 <= i < sync_hashes.len() && #[trigger] sync_hashes[i] == hash,
        client.wants_state(hash, sync_hashes) <==> {
            ||| client.sync_status is StateSync && client.sync_status->StateSync_0 == hash
            ||| client.catchup_state_syncs@.contains_key(hash) && exists|i: int|
                0 <= i < sync_hashes.len() && #[trigger] sync_hashes[i] == hash
        },
{
}

/// A shard is done exactly if the chain took its state; otherwise the fault names the shard, the
/// block and the chain's reason. A ban is for the reason given, and no response is no response.
pub proof fn law_shard_is_done_when_its_state_is_taken(
    shard_id: ShardId,
    hash: CryptoHash,
    result: Result<(), String>,
    reason: ReasonForBan,
)
    ensures
        match status_after(shard_id, hash, result) {
            ShardSyncStatus::StateDone => result is Ok,
            ShardSyncStatus::Error(
                StateFault::SetState { shard_id: shard, hash: at, reason: why },
            ) => shard == shard_id && at == hash && result == Err::<(), String>(why),
            _ => false,
        },
        ban(reason) == HandleStep::Respond(NetworkClientResponses::Ban { ban_reason: reason }),
        no_response() == HandleStep::Respond(NetworkClientResponses::NoResponse),
{
}

/// A transaction is held against a state exactly if that state is known, and goes into the pool of
/// its shard exactly if it held; the reason why it did not is handed back as it is.
pub proof fn law_only_a_valid_transaction_gets_into_the_pool(
    transaction: SignedTransaction,
    shard_id: ShardId,
    state_root: Option<CryptoHash>,
    result: Result<SignedTransaction, String>,
)
    ensures
        match after_state_lookup(transaction, shard_id, state_root) {
            HandleStep::ValidateTransaction { shard_id: shard, state_root: root, transaction: t } =>
                shard == shard_id && state_root == Some(root) && t == transaction,
            HandleStep::Respond(NetworkClientResponses::NoResponse) => state_root is None,
            _ => false,
        },
        match after_validation(shard_id, result) {
            HandleStep::InsertTransaction { shard_id: shard, transaction: t } => shard == shard_id
                && result == Ok::<SignedTransaction, String>(t),
            HandleStep::Respond(NetworkClientResponses::InvalidTx(reason)) => result == Err::<
                SignedTransaction,
                String,
            >(reason),
            _ => false,
        },
{
}

/// A block bans its sender exactly if its data is bad. Its parent is looked for, in order to ask
/// the same peer, exactly if it is missing, does not wait for a parent itself, and the client is in
/// step. The chunks that are asked for are those that are missing. Nothing else calls for a
/// response.
pub proof fn law_block_leads_to_ban_parent_or_chunks(
    client: ClientActor,
    prev_hash: CryptoHash,
    peer_id: PeerId,
    result: Result<(), ChainError>,
    prev_is_orphan: bool,
)
    ensures
        ({
            let step = client.after_block(prev_hash, peer_id, result, prev_is_orphan);
            let is_bad = result is Err && result->Err_0 is BadData;
            let lacks_parent = result is Err && result->Err_0 is Orphan;
            let lacks_chunks = result is Err && result->Err_0 is ChunksMissing;
            let looks = lacks_parent && !prev_is_orphan && client.sync_status is NoSync;
            &&& is_bad ==> step == HandleStep::Respond(
                NetworkClientResponses::Ban { ban_reason: ReasonForBan::BadBlock },
            )
            &&& looks ==> step == HandleStep::FindBlock { hash: prev_hash, peer_id }
            &&& lacks_chunks ==> step == HandleStep::RequestChunks(
                result->Err_0->ChunksMissing_0,
            )
            &&& !is_bad && !looks && !lacks_chunks ==> step == HandleStep::Respond(
                NetworkClientResponses::NoResponse,
            )
        }),
{
}

/// A header calls for its own block, from the peer that sent it, exactly if the chain took it.
/// Headers, one or many, ban their sender exactly if their data is bad. A block is asked for
/// exactly if it is known that the chain does not have it.
pub proof fn law_header_leads_to_its_block_or_ban(
    header: BlockHeader,
    hash: CryptoHash,
    peer_id: PeerId,
    result: Result<(), ChainError>,
    exists_already: Result<bool, ChainError>,
)
    ensures
        ({
            let is_bad = result is Err && result->Err_0 is BadData;
            let step = after_header(header, peer_id, result);
            let many = after_headers(result);
            let none = HandleStep::Respond(NetworkClientResponses::NoResponse);
            let banned = HandleStep::Respond(
                NetworkClientResponses::Ban { ban_reason: ReasonForBan::BadBlockHeader },
            );
            &&& result is Ok ==> step == (HandleStep::FindBlock { hash: header.hash, peer_id })
            &&& is_bad ==> step == banned && many == banned
            &&& !is_bad ==> many == none
            &&& !is_bad && result is Err ==> step == none
        }),
        after_block_lookup(hash, peer_id, exists_already) is RequestBlock <==> exists_already is Ok
            && !exists_already->Ok_0,
        match after_block_lookup(hash, peer_id, exists_already) {
            HandleStep::RequestBlock { hash: wanted, peer_id: from } => wanted == hash && from
                == peer_id,
            HandleStep::Respond(NetworkClientResponses::NoResponse) => true,
            _ => false,
        },
{
}

/// What the client says of the chain is its first block, and the height and weight of its head;
/// without a head it says nothing.
pub proof fn law_chain_is_told_by_its_head(genesis: CryptoHash, head: Result<Tip, ChainError>)
    ensures
        match after_head_lookup(genesis, head) {
            HandleStep::Respond(
                NetworkClientResponses::ChainInfo { genesis: first, height, total_weight },
            ) => head is Ok && first == genesis && height == head->Ok_0.height && total_weight
                == head->Ok_0.total_weight,
            HandleStep::Respond(NetworkClientResponses::NoResponse) => head is Err,
            _ => false,
        },
{
}

/// An approval is judged by the validators of the approved block's own epoch: they are asked about
/// the very account, hash and signature that came. An approval of an unknown block is left alone.
pub proof fn law_approval_is_judged_in_the_blocks_epoch(
    account_id: AccountId,
    hash: CryptoHash,
    signature: Signature,
    header: Result<BlockHeader, ChainError>,
)
    ensures
        match after_approved_header(account_id, hash, signature, header) {
            HandleStep::JudgeApproval { header: approved, question } => {
                &&& header == Ok::<BlockHeader, ChainError>(approved)
                &&& question.epoch_hash == approved.epoch_hash
                &&& question.account_id == account_id
                &&& question.hash == hash
                &&& question.signature == signature
            },
            HandleStep::Respond(NetworkClientResponses::NoResponse) => header is Err,
            _ => false,
        },
{
}

/// An announcement is passed on exactly if nothing is wrong with it, and as it is; otherwise its
/// sender is banned for what is wrong.
pub proof fn law_sound_announcement_is_passed_on(
    announce: AnnounceAccount,
    header_signature_is_valid: bool,
)
    ensures
        match after_announcement(announce, header_signature_is_valid) {
            HandleStep::Forward(same) => {
                &&& same == announce
                &&& announce_fault(announce, header_signature_is_valid) is None
            },
            HandleStep::Respond(NetworkClientResponses::Ban { ban_reason }) => announce_fault(
                announce,
                header_signature_is_valid,
            ) == Some(ban_reason),
            _ => false,
        },
{
}

/// A state that is asked for is the one before the block, of the shard that was asked for. A state
/// that comes in is handed to the chain exactly if it is being fetched, and as it is.
pub proof fn law_state_is_that_before_the_block(
    client: ClientActor,
    shard_id: ShardId,
    hash: CryptoHash,
    header: Result<BlockHeader, ChainError>,
    payload: Vec<u8>,
    receipts: StateReceipts,
    sync_hashes: Seq<CryptoHash>,
)
    ensures
        match after_state_header(shard_id, hash, header) {
            HandleStep::DumpState { shard_id: shard, hash: at, state_root } => {
                &&& header is Ok
                &&& shard == shard_id
                &&& at == hash
                &&& state_root == header->Ok_0.prev_state_root
            },
            HandleStep::Respond(NetworkClientResponses::NoResponse) => header is Err,
            _ => false,
        },
        match client.after_state_syncs(shard_id, hash, payload, receipts, sync_hashes) {
            HandleStep::SetState { shard_id: shard, hash: at, payload: p, receipts: r } => {
                &&& client.wants_state(hash, sync_hashes)
                &&& shard == shard_id
                &&& at == hash
                &&& p == payload
                &&& r == receipts
            },
            HandleStep::Respond(NetworkClientResponses::NoResponse) => !client.wants_state(
                hash,
                sync_hashes,
            ),
            _ => false,
        },
{
}

/// A part that completes a chunk has the blocks looked at from the chunk's height on. A first part
/// that is new has the blocks looked at from the height that the chunk was created for, and the
/// chunk itself is asked for exactly if the client has an account, the shard matters to it and the
/// chunk builds on the head.
pub proof fn law_new_part_has_blocks_looked_at(
    client: ClientActor,
    part: Result<Option<BlockHeight>, String>,
    header: ShardChunkHeader,
    result: Result<bool, String>,
    cares: bool,
    head: Result<Tip, ChainError>,
)
    ensures
        match after_part(part) {
            HandleStep::RetryBlocks { request, height } => request is None && part == Ok::<
                Option<BlockHeight>,
                String,
            >(Some(height)),
            HandleStep::Respond(NetworkClientResponses::NoResponse) => part is Err
                || part->Ok_0 is None,
            _ => false,
        },
        match client.after_one_part(header, result, cares, head) {
            HandleStep::RetryBlocks { request, height } => {
                &&& result is Ok
                &&& result->Ok_0
                &&& height == header.inner.height_created
                &&& request is Some <==> {
                    &&& client.block_producer is Some
                    &&& cares
                    &&& head is Ok
                    &&& head->Ok_0.last_block_hash == header.inner.prev_block_hash
                }
                &&& request matches Some(wanted) ==> wanted == header
            },
            HandleStep::Respond(NetworkClientResponses::NoResponse) => result is Err
                || !result->Ok_0,
            _ => false,
        },
{
}

} // verus!
