use near_client::client::accepted::{
    block_follow_ups, process_block, process_blocks_with_missing_chunks, AcceptedStep,
    BlockFollowUp, BlockStatus, CareQuestion, ChunkQuestion, Provenance,
};
use near_client::client::actor::{ClientActor, ClientConfig};
use near_client::client::chunk_production::ChunkTurn;
use near_client::client::duties::{AnnounceWish, Scheduling};
use near_client::client::errors::ChainError;
use near_client::client::headers::HeadersWalk;
use near_client::client::reorg::{PoolStep, Reorg};
use near_client::types::{
    Block, BlockHeader, CryptoHash, PeerId, PublicKey, ShardChunkHeader, ShardChunkHeaderInner, Tip,
};

fn h(n: u8) -> CryptoHash {
    CryptoHash([n; 32])
}

fn client(me: Option<&str>) -> ClientActor {
    let config = ClientConfig {
        version: "1".to_string(),
        chain_id: "test".to_string(),
        rpc_addr: "here".to_string(),
        min_block_production_delay: 100,
        max_block_production_delay: 2000,
        block_expected_weight: 77,
        skip_sync_wait: false,
        sync_check_period: 10,
        sync_step_period: 11,
        sync_weight_threshold: 0,
        sync_height_threshold: 1,
        min_num_peers: 1,
        fetch_info_period: 12,
        log_summary_period: 13,
        produce_empty_blocks: true,
        block_fetch_horizon: 50,
        state_fetch_horizon: 2,
    };
    ClientActor::new(config, PeerId(PublicKey([1; 32])), me.map(|s| s.to_string()), 1000)
}

fn header(hash: u8, prev: u8, height: u64) -> BlockHeader {
    BlockHeader {
        hash: h(hash),
        prev_hash: h(prev),
        epoch_hash: h(100),
        prev_state_root: h(0),
        height,
        timestamp: 0,
    }
}

fn chunk(created: u64, included: u64) -> ShardChunkHeader {
    ShardChunkHeader {
        inner: ShardChunkHeaderInner {
            chunk_hash: h(included as u8),
            prev_block_hash: h(0),
            prev_state_root: h(0),
            tx_root: h(0),
            prev_outgoing_receipts_root: h(0),
            height_created: created,
            height_included: included,
            shard_id: 0,
            gas_used: 0,
            gas_limit: 0,
        },
        validator_proposals: vec![],
    }
}

fn block() -> Block {
    Block {
        header: header(9, 8, 9),
        chunks: vec![chunk(9, 9), chunk(6, 7), chunk(8, 9)],
        num_transactions: 4,
    }
}

const COUNT: AcceptedStep = AcceptedStep::CountTransactions(4);
const PARTS: AcceptedStep =
    AcceptedStep::ProcessOrphanedParts { block_hash: CryptoHash([9; 32]), height: 10 };
const SCHEDULE: AcceptedStep = AcceptedStep::Schedule(Scheduling {
    block_hash: CryptoHash([9; 32]),
    last_height: 9,
    check_height: 9,
});
const CHUNKS: AcceptedStep =
    AcceptedStep::ProduceChunks { block_hash: CryptoHash([9; 32]), height: 10 };
const ANNOUNCE: AcceptedStep = AcceptedStep::CheckAnnounce(AnnounceWish {
    epoch_hash: CryptoHash([100; 32]),
    prev_hash: CryptoHash([8; 32]),
});

fn steps(me: Option<&str>, status: BlockStatus, provenance: Provenance) -> Vec<AcceptedStep> {
    let mut client = client(me);
    let steps = client.on_block_accepted(Some(&block()), status, provenance, 3000);
    assert_eq!(client.last_block_processed, 3000);
    steps
}

#[test]
fn block_of_a_peer_is_announced() {
    assert_eq!(
        steps(Some("me"), BlockStatus::Next, Provenance::NONE),
        vec![
            COUNT,
            PARTS,
            AcceptedStep::AnnounceHeader,
            SCHEDULE,
            AcceptedStep::RemoveTransactions,
            CHUNKS,
            ANNOUNCE
        ]
    );
}

#[test]
fn own_block_is_broadcast() {
    assert_eq!(
        steps(Some("me"), BlockStatus::Reorg(h(5)), Provenance::PRODUCED),
        vec![
            COUNT,
            PARTS,
            AcceptedStep::BroadcastBlock,
            SCHEDULE,
            AcceptedStep::Reconcile { prev_head: h(5) },
            CHUNKS,
            ANNOUNCE
        ]
    );
}

#[test]
fn synced_block_is_kept_quiet() {
    assert_eq!(
        steps(Some("me"), BlockStatus::Next, Provenance::SYNC),
        vec![COUNT, PARTS, AcceptedStep::RemoveTransactions, ANNOUNCE]
    );
    assert_eq!(
        steps(None, BlockStatus::Next, Provenance::SYNC),
        vec![COUNT, PARTS, ANNOUNCE]
    );
}

#[test]
fn fork_is_left_alone_by_producers() {
    assert_eq!(
        steps(Some("me"), BlockStatus::Fork, Provenance::NONE),
        vec![COUNT, PARTS, AcceptedStep::AnnounceHeader, SCHEDULE]
    );
    assert_eq!(
        steps(None, BlockStatus::Fork, Provenance::NONE),
        vec![COUNT, PARTS, AcceptedStep::AnnounceHeader, SCHEDULE, ANNOUNCE]
    );
}

#[test]
fn block_that_is_gone_calls_for_nothing() {
    let mut client = client(Some("me"));
    let steps = client.on_block_accepted(None, BlockStatus::Next, Provenance::NONE, 3000);
    assert!(steps.is_empty());
    assert_eq!(client.last_block_processed, 1000);
}

#[test]
fn pool_changes_by_new_chunks_that_matter() {
    let cares = vec![true, true, false];
    assert_eq!(ClientActor::remove_transactions_for_block(&block(), &cares), vec![0]);
    let cares = vec![true, true, true];
    assert_eq!(ClientActor::reintroduce_transactions_for_block(&block(), &cares), vec![0, 2]);
}

#[test]
fn own_chunks_are_produced() {
    let proposers = vec!["you".to_string(), "me".to_string(), "me".to_string()];
    assert_eq!(
        client(Some("me")).chunks_to_produce(&block(), h(101), &proposers),
        vec![
            ChunkTurn {
                prev_block_hash: h(9),
                epoch_hash: h(101),
                next_height: 10,
                shard_id: 1,
                last_created: 6,
                last_included: 7
            },
            ChunkTurn {
                prev_block_hash: h(9),
                epoch_hash: h(101),
                next_height: 10,
                shard_id: 2,
                last_created: 8,
                last_included: 9
            }
        ]
    );
    assert!(client(None).chunks_to_produce(&block(), h(101), &proposers).is_empty());
}

#[test]
fn questions_about_shards_name_block_and_epoch() {
    let cares = ClientActor::care_questions(&block());
    assert_eq!(cares.len(), 3);
    assert_eq!(cares[2], CareQuestion { parent_hash: h(8), shard_id: 2 });
    let chunks = ClientActor::chunk_questions(h(101), 10, 2);
    assert_eq!(
        chunks,
        vec![
            ChunkQuestion { epoch_hash: h(101), height: 10, shard_id: 0 },
            ChunkQuestion { epoch_hash: h(101), height: 10, shard_id: 1 }
        ]
    );
}

#[test]
fn accepted_blocks_come_before_missing_chunks() {
    let follow_ups = block_follow_ups(
        vec![
            (h(1), BlockStatus::Next, Provenance::NONE),
            (h(2), BlockStatus::Fork, Provenance::SYNC),
        ],
        vec![vec![chunk(1, 1)], vec![]],
    );
    assert_eq!(follow_ups.len(), 4);
    assert!(matches!(
        follow_ups[1],
        BlockFollowUp::Accepted {
            block_hash,
            status: BlockStatus::Fork,
            provenance: Provenance::SYNC
        } if block_hash == h(2)
    ));
    assert!(matches!(&follow_ups[2], BlockFollowUp::RequestChunks(chunks) if chunks.len() == 1));
    assert!(matches!(&follow_ups[3], BlockFollowUp::RequestChunks(chunks) if chunks.is_empty()));
}

// The blocks that came through are dealt with even where the one that was processed did not.
#[test]
fn processed_block_keeps_its_result() {
    let accepted = || vec![(h(1), BlockStatus::Next, Provenance::NONE)];
    let (follow_ups, result) = process_block(accepted(), vec![], Ok(()));
    assert_eq!((follow_ups.len(), result), (1, Ok(())));
    let (follow_ups, result) =
        process_block(accepted(), vec![vec![chunk(1, 1)]], Err(ChainError::Orphan));
    assert_eq!((follow_ups.len(), result), (2, Err(ChainError::Orphan)));
}

#[test]
fn later_heights_are_looked_at_too() {
    assert_eq!(process_blocks_with_missing_chunks(&vec![7, 3, 9, 5], 5), vec![7, 9, 5]);
    assert!(process_blocks_with_missing_chunks(&vec![1, 2], 5).is_empty());
}

// Old branch: 1 <- 2 <- 3 <- 4. New branch: 1 <- 2 <- 13 <- 15, with heights 1, 2, 3 and 5.
#[test]
fn reorg_finds_where_branches_part() {
    let headers = [
        header(1, 0, 1),
        header(2, 1, 2),
        header(3, 2, 3),
        header(4, 3, 4),
        header(13, 2, 3),
        header(15, 13, 5),
    ];
    let find = |hash: CryptoHash| *headers.iter().find(|x| x.hash == hash).unwrap();
    let mut reorg = Reorg::new(find(h(15)), find(h(4)));
    while let Some(hash) = reorg.wanted() {
        reorg.push_header(find(hash));
    }
    assert_eq!(reorg.remove_head.hash, h(2));
    assert_eq!(reorg.to_remove, vec![h(15), h(13)]);
    assert_eq!(reorg.to_reintroduce, vec![h(4), h(3)]);
    assert_eq!(
        reorg.pool_changes(),
        vec![
            PoolStep::Reintroduce(h(4)),
            PoolStep::Reintroduce(h(3)),
            PoolStep::Remove(h(15)),
            PoolStep::Remove(h(13))
        ]
    );
}

fn tip(height: u64) -> Tip {
    Tip {
        height,
        last_block_hash: h(9),
        prev_block_hash: h(8),
        epoch_hash: h(100),
        total_weight: 0,
    }
}

fn collect(mut walk: HeadersWalk, at: &[u64]) -> Vec<u64> {
    while let Some(height) = walk.next_height {
        let found = at.contains(&height);
        walk.push_header(if found { Some(header(height as u8, 0, height)) } else { None });
    }
    walk.headers.iter().map(|x| x.height).collect()
}

#[test]
fn headers_follow_the_common_one() {
    let heights = [1, 2, 4, 5, 7];
    let walk = |common: u64, limit: usize| {
        HeadersWalk::new(Some(header(common as u8, 0, common)), Ok(tip(7)), limit).unwrap()
    };
    assert_eq!(collect(walk(2, 100), &heights), vec![4, 5, 7]);
    assert_eq!(collect(walk(1, 2), &heights), vec![2, 4]);
    assert_eq!(collect(walk(1, 0), &heights), vec![2]);
    assert!(collect(walk(7, 100), &heights).is_empty());
    let none = HeadersWalk::new(None, Err(ChainError::Orphan), 100).unwrap();
    assert!(collect(none, &heights).is_empty());
    let failed = HeadersWalk::new(Some(header(1, 0, 1)), Err(ChainError::Orphan), 100);
    assert_eq!(failed.err(), Some(ChainError::Orphan));
}

#[test]
fn sync_hash_lies_at_the_horizon() {
    let me = client(None);
    let mut walk = me.find_sync_hash(Ok(tip(9))).unwrap();
    while let Some(hash) = walk.wanted() {
        let n = hash.0[0];
        assert_eq!(walk.push_header(Ok(header(n, n - 1, n as u64))), Ok(()));
    }
    // Two steps back from the parent of the latest header.
    assert_eq!(walk.sync_hash, h(6));
    assert_eq!(me.find_sync_hash(Err(ChainError::Orphan)).err(), Some(ChainError::Orphan));
    let mut walk = me.find_sync_hash(Ok(tip(9))).unwrap();
    assert_eq!(walk.push_header(Err(ChainError::Orphan)), Err(ChainError::Orphan));
    assert_eq!(walk.sync_hash, h(8));
}
