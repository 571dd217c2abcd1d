use near_client::client::accepted::{CareQuestion, Provenance};
use near_client::client::actor::{
    ClientActor, ClientConfig, FullPeerInfo, NetworkInfo, PeerChainInfo, RunLater, ShardStatuses,
    ShardSyncStatus, StateFault, SyncStatus, Task,
};
use near_client::client::catchup::{CatchupStep, CatchupWalk};
use near_client::client::duties::{AnnounceWish, Scheduling};
use near_client::client::errors::{ChainError, Error};
use near_client::client::handler::{
    ChunkOnePartMessage, ChunkPartMessage, HandleStep, NetworkClientMessages,
    NetworkClientResponses,
};
use near_client::client::sync::{tracked_shards, StateSyncResult, SyncEnd, SyncStep};
use near_client::crypto::SignedTransaction;
use near_client::types::{
    Block, BlockHeader, CryptoHash, PeerId, PublicKey, ReasonForBan, ShardChunkHeader,
    ShardChunkHeaderInner, Signature, Tip,
};
use std::collections::HashMap;

fn h(n: u8) -> CryptoHash {
    CryptoHash([n; 32])
}

const PEER: PeerId = PeerId(PublicKey([4; 32]));

fn client(me: Option<&str>) -> ClientActor {
    let config = ClientConfig {
        version: "1.0".to_string(),
        chain_id: "test".to_string(),
        rpc_addr: "here".to_string(),
        min_block_production_delay: 100,
        max_block_production_delay: 2000,
        block_expected_weight: 77,
        skip_sync_wait: false,
        sync_check_period: 10,
        sync_step_period: 11,
        sync_weight_threshold: 5,
        sync_height_threshold: 3,
        min_num_peers: 2,
        fetch_info_period: 12,
        log_summary_period: 13,
        produce_empty_blocks: true,
        block_fetch_horizon: 50,
        state_fetch_horizon: 2,
    };
    ClientActor::new(config, PeerId(PublicKey([1; 32])), me.map(|s| s.to_string()), 1000)
}

fn in_step() -> ClientActor {
    let mut client = client(Some("me"));
    client.sync_status = SyncStatus::NoSync;
    client
}

fn tip(height: u64) -> Tip {
    Tip {
        height,
        last_block_hash: h(9),
        prev_block_hash: h(8),
        epoch_hash: h(100),
        total_weight: 70,
    }
}

fn peer(height: u64, total_weight: u64) -> Option<FullPeerInfo> {
    Some(FullPeerInfo {
        peer_id: PEER,
        chain_info: PeerChainInfo { genesis: h(0), height, total_weight },
    })
}

fn header() -> BlockHeader {
    BlockHeader {
        hash: h(9),
        prev_hash: h(8),
        epoch_hash: h(100),
        prev_state_root: h(33),
        height: 9,
        timestamp: 55,
    }
}

fn chunk() -> ShardChunkHeader {
    ShardChunkHeader {
        inner: ShardChunkHeaderInner {
            chunk_hash: h(1),
            prev_block_hash: h(9),
            prev_state_root: h(0),
            tx_root: h(0),
            prev_outgoing_receipts_root: h(0),
            height_created: 10,
            height_included: 0,
            shard_id: 2,
            gas_used: 0,
            gas_limit: 0,
        },
        validator_proposals: vec![],
    }
}

fn block() -> Block {
    Block { header: header(), chunks: vec![], num_transactions: 0 }
}

fn bad() -> ChainError {
    ChainError::BadData("lie".to_string())
}

fn failure() -> ChainError {
    ChainError::Failure("disk".to_string())
}

fn again(delay: u128) -> SyncEnd {
    SyncEnd { in_step: None, run_later: RunLater { delay, task: Task::Sync } }
}

fn is_again(step: SyncStep, delay: u128) -> bool {
    matches!(step, SyncStep::Done(end) if end == again(delay))
}

fn is_silent(step: HandleStep) -> bool {
    matches!(step, HandleStep::Respond(NetworkClientResponses::NoResponse))
}

fn is_ban(step: HandleStep, reason: ReasonForBan) -> bool {
    matches!(
        step,
        HandleStep::Respond(NetworkClientResponses::Ban { ban_reason }) if ban_reason == reason
    )
}

#[test]
fn new_client_waits_for_peers() {
    let mut client = client(None);
    assert!(client.sync_status.is_syncing());
    assert!(client.approvals.is_empty());
    assert_eq!(client.catchup_state_syncs.len(), 0);
    let wait = RunLater { delay: 11, task: Task::StartSync };
    assert_eq!(client.start_sync(), Some(wait));
    client.network_info.num_active_peers = 2;
    assert_eq!(client.start_sync(), None);
    client.network_info.num_active_peers = 1;
    client.config.skip_sync_wait = true;
    assert_eq!(client.start_sync(), None);
}

#[test]
fn sync_begins_above_thresholds_and_ends_at_weight() {
    let client = in_step();
    assert_eq!(client.needs_syncing(Ok(tip(9)), None), Ok((false, 0)));
    assert_eq!(client.needs_syncing(Ok(tip(9)), peer(13, 75)), Ok((false, 13)));
    assert_eq!(client.needs_syncing(Ok(tip(9)), peer(12, 76)), Ok((false, 12)));
    assert_eq!(client.needs_syncing(Ok(tip(9)), peer(13, 76)), Ok((true, 13)));
    let mut syncing = in_step();
    syncing.sync_status = SyncStatus::HeaderSync { current_height: 1, highest_height: 13 };
    assert_eq!(syncing.needs_syncing(Ok(tip(9)), peer(13, 71)), Ok((true, 13)));
    assert_eq!(syncing.needs_syncing(Ok(tip(9)), peer(13, 70)), Ok((false, 13)));
    assert_eq!(syncing.needs_syncing(Err(failure()), peer(13, 70)), Err(failure()));
}

#[test]
fn client_gets_in_step_once() {
    let mut client = client(Some("me"));
    let step = client.sync(Ok(tip(9)), None, 4000);
    let expected = SyncEnd {
        in_step: Some((
            AnnounceWish { epoch_hash: h(100), prev_hash: h(8) },
            Scheduling { block_hash: h(9), last_height: 9, check_height: 9 },
        )),
        run_later: RunLater { delay: 10, task: Task::Sync },
    };
    assert!(matches!(step, SyncStep::AskHead));
    assert!(!client.sync_status.is_syncing());
    assert_eq!(client.last_block_processed, 4000);
    assert!(matches!(
        client.in_step_head_answered(Ok(tip(9))),
        SyncStep::Done(end) if end == expected
    ));
    assert!(is_again(client.in_step_head_answered(Err(failure())), 11));
    assert!(is_again(client.sync(Ok(tip(9)), None, 5000), 10));
    assert_eq!(client.last_block_processed, 4000);
    assert!(is_again(client.sync(Err(failure()), None, 5000), 11));
}

#[test]
fn sync_fetches_headers_first() {
    let mut client = in_step();
    let step = client.sync(Ok(tip(9)), peer(20, 90), 4000);
    assert!(matches!(step, SyncStep::RunHeaderSync { highest_height: 20 }));
    assert!(is_again(client.header_sync_ran(20, Err(failure()), Ok(tip(20))), 11));
    assert!(is_again(client.header_sync_ran(20, Ok(()), Err(failure())), 11));
    assert!(is_again(client.header_sync_ran(20, Ok(()), Ok(tip(19))), 11));
    assert!(matches!(
        client.header_sync_ran(20, Ok(()), Ok(tip(20))),
        SyncStep::RunBlockSync { highest_height: 20 }
    ));
    assert!(is_again(client.block_sync_ran(Ok(false)), 11));
    assert!(is_again(client.block_sync_ran(Err(failure())), 11));
    assert!(matches!(client.block_sync_ran(Ok(true)), SyncStep::FindSyncHash));
    assert!(is_again(client.sync_hash_found(Err(failure())), 11));
    assert!(matches!(
        client.sync_hash_found(Ok(h(6))),
        SyncStep::RunStateSync { sync_hash, shard_statuses }
            if sync_hash == h(6) && shard_statuses.is_empty()
    ));
    assert_eq!(tracked_shards(), vec![0]);
}

#[test]
fn state_sync_is_kept_while_it_changes() {
    let mut client = in_step();
    let statuses = || {
        let mut statuses = HashMap::new();
        statuses.insert(0, ShardSyncStatus::StateValidation);
        statuses
    };
    assert!(is_again(
        client.state_sync_ran(h(6), statuses(), Ok(StateSyncResult::Unchanged)),
        11
    ));
    assert!(!client.sync_status.is_syncing());
    assert!(is_again(client.state_sync_ran(h(6), statuses(), Err(failure())), 11));
    assert!(is_again(client.state_sync_ran(h(6), statuses(), Ok(StateSyncResult::Changed)), 11));
    assert!(matches!(
        client.header_sync_ran(20, Ok(()), Ok(tip(20))),
        SyncStep::RunStateSync { sync_hash, shard_statuses }
            if sync_hash == h(6) && shard_statuses == statuses()
    ));
    assert!(matches!(
        client.state_sync_ran(h(6), statuses(), Ok(StateSyncResult::Completed)),
        SyncStep::ResetHeads { sync_hash } if sync_hash == h(6)
    ));
    assert!(is_again(client.heads_reset(Err(failure())), 11));
    assert!(matches!(client.sync_status, SyncStatus::StateSync(..)));
    assert!(is_again(client.heads_reset(Ok(())), 11));
    assert!(matches!(
        client.sync_status,
        SyncStatus::BodySync { current_height: 0, highest_height: 0 }
    ));
}

fn round(step: CatchupStep) -> (CryptoHash, Vec<u64>, ShardStatuses, CatchupWalk) {
    match step {
        CatchupStep::RunStateSync { sync_hash, shards, shard_statuses, walk } => {
            (sync_hash, shards, shard_statuses, walk)
        }
        other => panic!("{:?}", other),
    }
}

#[test]
fn catchup_goes_over_all_fetches_in_order() {
    let mut client = in_step();
    let step = client.catchup(vec![(h(6), vec![0, 1]), (h(5), vec![2]), (h(4), vec![3])]);
    let (sync_hash, shards, statuses, walk) = round(step);
    assert_eq!((sync_hash, shards), (h(6), vec![0, 1]));
    let step = client.catchup_state_sync_ran(walk, statuses, Ok(StateSyncResult::Unchanged));
    let (sync_hash, shards, statuses, walk) = round(step);
    assert_eq!((sync_hash, shards), (h(5), vec![2]));
    // The shards are done, so the blocks that follow are caught up with before the walk goes on.
    let step = client.catchup_state_sync_ran(walk, statuses, Ok(StateSyncResult::Completed));
    let walk = match step {
        CatchupStep::CatchupBlocks { sync_hash, walk } if sync_hash == h(5) => walk,
        other => panic!("{:?}", other),
    };
    let (sync_hash, shards, statuses, walk) = round(client.catchup_blocks_processed(walk, Ok(())));
    assert_eq!((sync_hash, shards), (h(4), vec![3]));
    let step = client.catchup_state_sync_ran(walk, statuses, Ok(StateSyncResult::Changed));
    assert!(matches!(step, CatchupStep::Done));
    assert!(matches!(client.catchup(vec![]), CatchupStep::Done));
}

#[test]
fn catchup_stops_at_the_first_failure() {
    let mut client = in_step();
    let other = || Error::Other("x".to_string());
    let syncs = || vec![(h(6), vec![0]), (h(5), vec![2])];
    let (_, _, statuses, walk) = round(client.catchup(syncs()));
    let step = client.catchup_state_sync_ran(walk, statuses, Err(other()));
    assert!(matches!(step, CatchupStep::Fail(error) if error == other()));
    assert!(client.catchup_state_syncs.contains_key(&h(6)));
    assert!(!client.catchup_state_syncs.contains_key(&h(5)));
    let (_, _, statuses, walk) = round(client.catchup(syncs()));
    let step = client.catchup_state_sync_ran(walk, statuses, Ok(StateSyncResult::Completed));
    let walk = match step {
        CatchupStep::CatchupBlocks { walk, .. } => walk,
        other => panic!("{:?}", other),
    };
    let step = client.catchup_blocks_processed(walk, Err(other()));
    assert!(matches!(step, CatchupStep::Fail(error) if error == other()));
    assert!(!client.catchup_state_syncs.contains_key(&h(5)));
}

#[test]
fn catchup_keeps_statuses_between_rounds() {
    let mut client = in_step();
    let syncs = || vec![(h(6), vec![1])];
    let (_, _, mut statuses, walk) = round(client.catchup(syncs()));
    assert!(statuses.is_empty());
    statuses.insert(1, ShardSyncStatus::StateDownload { start_time: 3 });
    client.catchup_state_sync_ran(walk, statuses, Ok(StateSyncResult::Changed));
    let (_, _, mut statuses, walk) = round(client.catchup(syncs()));
    assert_eq!(statuses.get(&1), Some(&ShardSyncStatus::StateDownload { start_time: 3 }));
    // What a round has reached is kept even where the round failed.
    statuses.insert(1, ShardSyncStatus::StateValidation);
    client.catchup_state_sync_ran(walk, statuses, Err(Error::Other("x".to_string())));
    let (_, _, statuses, _) = round(client.catchup(syncs()));
    assert_eq!(statuses.get(&1), Some(&ShardSyncStatus::StateValidation));
}

#[test]
fn messages_lead_to_first_steps() {
    let tx = || SignedTransaction { encoded: vec![1] };
    let part = || ChunkPartMessage { encoded: vec![2] };
    let one_part = || ChunkOnePartMessage { shard_id: 2, header: chunk(), encoded: vec![3] };
    let step = ClientActor::handle;
    assert!(matches!(
        step(NetworkClientMessages::Transaction("a".to_string(), tx())),
        HandleStep::FindState { account_id, transaction }
            if account_id == "a" && transaction == tx()
    ));
    assert!(matches!(
        step(NetworkClientMessages::BlockHeader(header(), PEER)),
        HandleStep::ProcessHeader { header: x, peer_id } if x == header() && peer_id == PEER
    ));
    assert!(matches!(
        step(NetworkClientMessages::Block(block(), PEER, true)),
        HandleStep::ProcessBlock { provenance: Provenance::SYNC, prev_hash, .. }
            if prev_hash == h(8)
    ));
    assert!(matches!(
        step(NetworkClientMessages::Block(block(), PEER, false)),
        HandleStep::ProcessBlock { provenance: Provenance::NONE, .. }
    ));
    assert!(matches!(
        step(NetworkClientMessages::BlockRequest(h(9))),
        HandleStep::GetBlock(hash) if hash == h(9)
    ));
    assert!(matches!(
        step(NetworkClientMessages::BlockHeadersRequest(vec![h(1), h(2)])),
        HandleStep::RetrieveHeaders(hashes) if hashes.len() == 2
    ));
    assert!(matches!(step(NetworkClientMessages::GetChainInfo), HandleStep::GetHead));
    assert!(is_silent(step(NetworkClientMessages::BlockHeaders(vec![], PEER))));
    assert!(matches!(
        step(NetworkClientMessages::BlockHeaders(vec![header()], PEER)),
        HandleStep::SyncHeaders(headers) if headers.len() == 1
    ));
    assert!(matches!(
        step(NetworkClientMessages::BlockApproval("a".to_string(), h(9), Signature([0; 64]))),
        HandleStep::CheckApproval { .. }
    ));
    assert!(matches!(
        step(NetworkClientMessages::StateRequest(2, h(9))),
        HandleStep::GetStateHeader { shard_id: 2, .. }
    ));
    assert!(matches!(
        step(NetworkClientMessages::StateResponse(2, h(9), vec![5], vec![])),
        HandleStep::FindStateSyncs { shard_id: 2, payload, .. } if payload == vec![5]
    ));
    assert!(matches!(
        step(NetworkClientMessages::ChunkPartRequest(part(), PEER)),
        HandleStep::ProcessPartRequest(msg, _) if msg == part()
    ));
    assert!(matches!(
        step(NetworkClientMessages::ChunkOnePartRequest(part(), PEER)),
        HandleStep::ProcessOnePartRequest(msg, _) if msg == part()
    ));
    assert!(matches!(
        step(NetworkClientMessages::ChunkPart(part())),
        HandleStep::ProcessPart(msg) if msg == part()
    ));
    assert!(matches!(
        step(NetworkClientMessages::ChunkOnePart(one_part())),
        HandleStep::ProcessOnePart(msg) if msg == one_part()
    ));
}

#[test]
fn transaction_is_held_against_state() {
    let tx = || SignedTransaction { encoded: vec![1] };
    assert!(is_silent(ClientActor::state_found(tx(), 2, None)));
    assert!(matches!(
        ClientActor::state_found(tx(), 2, Some(h(3))),
        HandleStep::ValidateTransaction { shard_id: 2, state_root, .. } if state_root == h(3)
    ));
    assert!(matches!(
        ClientActor::transaction_validated(2, Ok(tx())),
        HandleStep::InsertTransaction { shard_id: 2, transaction } if transaction == tx()
    ));
    assert!(matches!(
        ClientActor::transaction_validated(2, Err("poor".to_string())),
        HandleStep::Respond(NetworkClientResponses::InvalidTx(reason)) if reason == "poor"
    ));
}

#[test]
fn received_block_is_answered_by_kind_of_error() {
    let client = in_step();
    assert!(is_silent(client.receive_block(h(8), PEER, Ok(()), false)));
    assert!(is_ban(client.receive_block(h(8), PEER, Err(bad()), false), ReasonForBan::BadBlock));
    assert!(is_silent(client.receive_block(h(8), PEER, Err(failure()), false)));
    assert!(is_silent(client.receive_block(
        h(8),
        PEER,
        Err(ChainError::Refused("old".to_string())),
        false
    )));
    let orphan = || Err(ChainError::Orphan);
    assert!(matches!(
        client.receive_block(h(8), PEER, orphan(), false),
        HandleStep::FindBlock { hash, peer_id } if hash == h(8) && peer_id == PEER
    ));
    assert!(is_silent(client.receive_block(h(8), PEER, orphan(), true)));
    let syncing = self::client(Some("me"));
    assert!(is_silent(syncing.receive_block(h(8), PEER, orphan(), false)));
    let missing = Err(ChainError::ChunksMissing(vec![chunk()]));
    assert!(matches!(
        client.receive_block(h(8), PEER, missing, false),
        HandleStep::RequestChunks(chunks) if chunks == vec![chunk()]
    ));
}

#[test]
fn received_header_calls_for_its_block() {
    assert!(matches!(
        ClientActor::receive_header(&header(), PEER, Ok(())),
        HandleStep::FindBlock { hash, .. } if hash == h(9)
    ));
    let step = ClientActor::receive_header(&header(), PEER, Err(bad()));
    assert!(is_ban(step, ReasonForBan::BadBlockHeader));
    assert!(is_silent(ClientActor::receive_header(&header(), PEER, Err(failure()))));
    assert!(matches!(
        ClientActor::request_block_by_hash(h(9), PEER, Ok(false)),
        HandleStep::RequestBlock { hash, .. } if hash == h(9)
    ));
    assert!(is_silent(ClientActor::request_block_by_hash(h(9), PEER, Ok(true))));
    assert!(is_silent(ClientActor::request_block_by_hash(h(9), PEER, Err(failure()))));
    assert!(is_silent(ClientActor::receive_headers(Ok(()))));
    assert!(is_silent(ClientActor::receive_headers(Err(ChainError::Orphan))));
    assert!(is_ban(ClientActor::receive_headers(Err(bad())), ReasonForBan::BadBlockHeader));
}

#[test]
fn questions_about_the_chain_are_answered() {
    assert!(matches!(
        ClientActor::block_answered(Ok(block())),
        HandleStep::Respond(NetworkClientResponses::Block(b)) if b == block()
    ));
    assert!(is_silent(ClientActor::block_answered(Err(failure()))));
    assert!(matches!(
        ClientActor::headers_answered(Ok(vec![header()])),
        HandleStep::Respond(NetworkClientResponses::BlockHeaders(x)) if x == vec![header()]
    ));
    assert!(is_silent(ClientActor::headers_answered(Err(failure()))));
    assert!(matches!(
        ClientActor::chain_info_answered(h(0), Ok(tip(9))),
        HandleStep::Respond(NetworkClientResponses::ChainInfo {
            genesis,
            height: 9,
            total_weight: 70
        }) if genesis == h(0)
    ));
    assert!(is_silent(ClientActor::chain_info_answered(h(0), Err(failure()))));
}

#[test]
fn unreasonable_approval_bans() {
    let mut client = in_step();
    let signature = Signature([2; 64]);
    let ask = |header: Result<BlockHeader, ChainError>| {
        ClientActor::approval_header_answered("a".to_string(), h(9), signature, header)
    };
    assert!(is_silent(ask(Err(failure()))));
    let (known, question) = match ask(Ok(header())) {
        HandleStep::JudgeApproval { header, question } => (header, question),
        other => panic!("{:?}", other),
    };
    assert_eq!(known, header());
    assert_eq!((question.epoch_hash, question.hash), (h(100), h(9)));
    let validators = || Ok(vec!["a".to_string()]);
    let step = client.approval_checked(header(), &question, validators(), false);
    assert!(is_ban(step, ReasonForBan::BadBlockApproval));
    let step = client.approval_checked(header(), &question, Err("x".to_string()), true);
    assert!(is_ban(step, ReasonForBan::BadBlockApproval));
    let step = client.approval_checked(header(), &question, validators(), true);
    assert!(is_silent(step));
    assert_eq!(client.approvals.get(&0), Some(&signature));
}

#[test]
fn state_is_served_from_the_header() {
    assert!(is_silent(ClientActor::state_request(2, h(9), Err(failure()))));
    assert!(matches!(
        ClientActor::state_request(2, h(9), Ok(header())),
        HandleStep::DumpState { shard_id: 2, hash, state_root }
            if hash == h(9) && state_root == h(33)
    ));
    assert!(is_silent(ClientActor::state_dumped(2, h(9), Err("x".to_string()))));
    assert!(matches!(
        ClientActor::state_dumped(2, h(9), Ok(vec![7])),
        HandleStep::Respond(NetworkClientResponses::StateResponse {
            shard_id: 2,
            payload,
            receipts,
            ..
        }) if payload == vec![7] && receipts.is_empty()
    ));
}

#[test]
fn state_is_taken_where_it_was_asked_for() {
    let mut client = in_step();
    let wanted = |client: &ClientActor, noted: &[CryptoHash]| {
        let step = client.state_syncs_found(2, h(9), vec![7], vec![], &noted.to_vec());
        matches!(step, HandleStep::SetState { shard_id: 2, .. })
    };
    assert!(!wanted(&client, &[h(9)]));
    client.catchup_state_syncs.insert(h(9), HashMap::new());
    assert!(wanted(&client, &[h(1), h(9)]));
    assert!(!wanted(&client, &[h(1)]));
    client.sync_status = SyncStatus::StateSync(h(9), HashMap::new());
    assert!(wanted(&client, &[]));
    let step = client.state_set(2, h(9), &vec![h(9)], Ok(()));
    assert!(is_silent(step));
    assert_eq!(
        client.catchup_state_syncs.get(&h(9)).unwrap().get(&2),
        Some(&ShardSyncStatus::StateDone)
    );
    assert!(matches!(
        &client.sync_status,
        SyncStatus::StateSync(_, statuses) if statuses.get(&2) == Some(&ShardSyncStatus::StateDone)
    ));
    // Not noted by the chain: only the main fetch of state is touched.
    client.state_set(3, h(9), &vec![], Err("corrupt".to_string()));
    let fault = ShardSyncStatus::Error(StateFault::SetState {
        shard_id: 3,
        hash: h(9),
        reason: "corrupt".to_string(),
    });
    assert_eq!(client.catchup_state_syncs.get(&h(9)).unwrap().get(&3), None);
    let text = near_primitives::hash::CryptoHash([9; 32]).to_string();
    let words = StateFault::SetState { shard_id: 3, hash: h(9), reason: "corrupt".to_string() };
    assert_eq!(words.message(), format!("Failed to set state for 3 @ {}: corrupt", text));
    assert_eq!(StateFault::Fetch("slow".to_string()).message(), "slow");
    assert!(matches!(
        &client.sync_status,
        SyncStatus::StateSync(_, statuses) if statuses.get(&3) == Some(&fault)
    ));
}

#[test]
fn chunk_parts_set_blocks_free() {
    assert!(is_silent(ClientActor::part_processed(Ok(None))));
    assert!(is_silent(ClientActor::part_processed(Err("x".to_string()))));
    assert!(matches!(
        ClientActor::part_processed(Ok(Some(10))),
        HandleStep::RetryBlocks { request: None, height: 10 }
    ));
    let client = in_step();
    let ask = |cares: bool, head: Result<Tip, ChainError>| {
        client.one_part_processed(chunk(), Ok(true), cares, head)
    };
    assert!(matches!(
        ask(true, Ok(tip(9))),
        HandleStep::RetryBlocks { request: Some(header), height: 10 } if header == chunk()
    ));
    assert!(matches!(ask(false, Ok(tip(9))), HandleStep::RetryBlocks { request: None, .. }));
    assert!(matches!(ask(true, Err(failure())), HandleStep::RetryBlocks { request: None, .. }));
    let elsewhere = Tip { last_block_hash: h(3), ..tip(9) };
    assert!(matches!(ask(true, Ok(elsewhere)), HandleStep::RetryBlocks { request: None, .. }));
    assert!(is_silent(client.one_part_processed(chunk(), Ok(false), true, Ok(tip(9)))));
    let part = ChunkOnePartMessage { shard_id: 2, header: chunk(), encoded: vec![] };
    assert_eq!(part.care_question(), CareQuestion { parent_hash: h(9), shard_id: 2 });
}

#[test]
fn status_names_the_first_failure() {
    let client = in_step();
    let validators = || Ok(vec!["a".to_string()]);
    let fail = |s: &str| s.to_string();
    let question = ClientActor::head_question(&tip(9));
    assert_eq!((question.block_hash, question.epoch_hash), (h(9), h(100)));
    let status = client.status(Ok(tip(9)), Ok(header()), validators()).unwrap();
    assert_eq!(status.version, "1.0");
    assert_eq!(status.chain_id, "test");
    assert_eq!(status.rpc_addr, "here");
    assert_eq!(status.validators, vec!["a".to_string()]);
    assert_eq!(status.sync_info.latest_block_hash, h(9));
    assert_eq!(status.sync_info.latest_block_height, 9);
    assert_eq!(status.sync_info.latest_state_root, h(33));
    assert_eq!(status.sync_info.latest_block_time, 55);
    assert!(!status.sync_info.syncing);
    let failed = client.status(Err(fail("head")), Err(fail("header")), validators());
    assert_eq!(failed.err(), Some(fail("head")));
    let failed = client.status(Ok(tip(9)), Err(fail("header")), Err(fail("validators")));
    assert_eq!(failed.err(), Some(fail("header")));
    let failed = client.status(Ok(tip(9)), Ok(header()), Err(fail("validators")));
    assert_eq!(failed.err(), Some(fail("validators")));
}

#[test]
fn network_info_is_taken_up() {
    let mut client = in_step();
    let again = RunLater { delay: 12, task: Task::FetchNetworkInfo };
    assert_eq!(client.fetch_network_info(), again);
    client.network_info_fetched(Ok(None));
    client.network_info_fetched(Err("down".to_string()));
    assert_eq!(client.network_info.num_active_peers, 0);
    let info = NetworkInfo {
        num_active_peers: 3,
        peer_max_count: 9,
        most_weight_peers: vec![],
        received_bytes_per_sec: 1,
        sent_bytes_per_sec: 2,
        routes: Some(vec![(PEER, vec![PEER])]),
    };
    assert!(client.network_info.routes.is_none());
    client.network_info_fetched(Ok(Some(info)));
    assert_eq!(client.network_info.num_active_peers, 3);
    assert_eq!(client.network_info.routes, Some(vec![(PEER, vec![PEER])]));
}

#[test]
fn summary_tells_whether_we_validate() {
    let client = in_step();
    assert_eq!(client.log_summary(), RunLater { delay: 13, task: Task::LogSummary });
    let next = || client.log_summary();
    let (summary, later) =
        client.summary(Ok(tip(9)), Ok(vec!["a".to_string(), "me".to_string()]));
    let summary = summary.unwrap();
    assert!(summary.is_validator);
    assert_eq!(summary.num_validators, 2);
    assert_eq!(summary.head, tip(9));
    assert_eq!(later, next());
    let (summary, later) = client.summary(Ok(tip(9)), Ok(vec!["a".to_string()]));
    assert!(!summary.unwrap().is_validator);
    assert_eq!(later, next());
}

// A run with nothing to log is followed by another one all the same.
#[test]
fn summary_comes_again_after_a_failure() {
    let client = in_step();
    let next = || RunLater { delay: 13, task: Task::LogSummary };
    assert_eq!(client.summary(Err(failure()), Ok(vec![])), (None, next()));
    let failed = client.summary(Ok(tip(9)), Err(Error::Other("x".to_string())));
    assert_eq!(failed, (None, next()));
}
