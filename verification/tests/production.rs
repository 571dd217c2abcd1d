use near_client::client::accepted::ChunkQuestion;
use near_client::client::actor::{ClientActor, ClientConfig, RunLater, Task};
use near_client::client::chunk_production::{ChunkProduction, ChunkTurn};
use near_client::client::duties::{
    ApprovalRequest, ApprovalStep, ProducerQuestion, Scheduling,
};
use near_client::client::errors::{
    classify_error, runtime_result, ChainError, Error, ErrorKind, ProducerFault,
};
use near_client::client::production::{Production, Turn};
use near_client::crypto::SignedTransaction;
use near_client::stateless_validation::receipts::Receipt;
use near_client::stateless_validation::validation::ChunkExtra;
use near_client::types::{
    Block, BlockHeader, CryptoHash, PeerId, PublicKey, ShardChunkHeader, ShardChunkHeaderInner,
    Signature, Tip, ValidatorStake,
};

fn h(n: u8) -> CryptoHash {
    CryptoHash([n; 32])
}

fn config() -> ClientConfig {
    ClientConfig {
        version: "1".to_string(),
        chain_id: "test".to_string(),
        rpc_addr: "here".to_string(),
        min_block_production_delay: 100,
        max_block_production_delay: 2000,
        block_expected_weight: 77,
        skip_sync_wait: false,
        sync_check_period: 10,
        sync_step_period: 11,
        sync_weight_threshold: 0,
        sync_height_threshold: 1,
        min_num_peers: 1,
        fetch_info_period: 12,
        log_summary_period: 13,
        produce_empty_blocks: true,
        block_fetch_horizon: 50,
        state_fetch_horizon: 5,
    }
}

fn client(me: Option<&str>) -> ClientActor {
    ClientActor::new(config(), PeerId(PublicKey([1; 32])), me.map(|s| s.to_string()), 1000)
}

fn tip() -> Tip {
    Tip {
        height: 7,
        last_block_hash: h(7),
        prev_block_hash: h(6),
        epoch_hash: h(100),
        total_weight: 70,
    }
}

fn header(height: u64) -> BlockHeader {
    BlockHeader {
        hash: h(height as u8),
        prev_hash: h(height as u8 - 1),
        epoch_hash: h(100),
        prev_state_root: h(0),
        height,
        timestamp: 0,
    }
}

fn chunk(shard_id: u64, included: u64, gas: u64) -> ShardChunkHeader {
    ShardChunkHeader {
        inner: ShardChunkHeaderInner {
            chunk_hash: h(shard_id as u8 + 10 * included as u8),
            prev_block_hash: h(0),
            prev_state_root: h(0),
            tx_root: h(0),
            prev_outgoing_receipts_root: h(0),
            height_created: included,
            height_included: included,
            shard_id,
            gas_used: gas,
            gas_limit: 10 * gas,
        },
        validator_proposals: vec![ValidatorStake {
            account_id: format!("v{}", shard_id),
            public_key: PublicKey([0; 32]),
            amount: 1,
        }],
    }
}

fn names(list: &[&str]) -> Vec<String> {
    list.iter().map(|s| s.to_string()).collect()
}

const TURN: Turn = Turn { last_height: 7, next_height: 9 };

#[test]
fn turn_begins_with_the_head() {
    assert!(matches!(
        client(None).produce_block_err(TURN, Ok(tip())),
        Production::Fail(Error::BlockProducer(ProducerFault::NoBlockProducer))
    ));
    assert!(matches!(
        client(Some("me")).produce_block_err(TURN, Err(ChainError::Orphan)),
        Production::Fail(Error::Chain(ChainError::Orphan))
    ));
    let moved = Tip { height: 8, ..tip() };
    assert!(matches!(client(Some("me")).produce_block_err(TURN, Ok(moved)), Production::Stop));
    assert!(matches!(
        client(Some("me")).produce_block_err(TURN, Ok(tip())),
        Production::AskProposer { block_hash, height: 9, head }
            if head == tip() && block_hash == h(7)
    ));
}

#[test]
fn turn_ends_where_it_is_not_ours() {
    let me = client(Some("me"));
    assert!(matches!(
        me.proposer_answered(TURN, tip(), h(101), Ok("you".to_string())),
        Production::Stop
    ));
    assert!(matches!(
        me.proposer_answered(TURN, tip(), h(101), Ok("me".to_string())),
        Production::AskPrevious { block_hash, head, epoch_hash }
            if head == tip() && epoch_hash == h(101) && block_hash == h(7)
    ));
    assert!(matches!(
        me.proposer_answered(TURN, tip(), h(101), Err("bad".to_string())),
        Production::Fail(Error::Other(message)) if message == "bad"
    ));
}

#[test]
fn epoch_begins_only_once_caught_up() {
    assert!(matches!(
        ClientActor::previous_answered(TURN, tip(), h(101), Err(ChainError::Orphan)),
        Production::Fail(Error::Chain(ChainError::Orphan))
    ));
    assert!(matches!(
        ClientActor::previous_answered(TURN, tip(), h(101), Ok(header(7))),
        Production::AskEpochStart { parent_hash, height: 9, .. } if parent_hash == h(7)
    ));
    assert!(matches!(
        ClientActor::epoch_start_answered(TURN, tip(), h(101), header(7), Ok(true)),
        Production::AskCaughtUp { prev_prev_hash, prev_hash, .. }
            if prev_prev_hash == h(6) && prev_hash == h(7)
    ));
    assert!(matches!(
        ClientActor::epoch_start_answered(TURN, tip(), h(101), header(7), Ok(false)),
        Production::AskValidators { in_epoch, last_height: 7, .. } if in_epoch == h(100)
    ));
    assert!(matches!(
        ClientActor::epoch_start_answered(TURN, tip(), h(101), header(7), Err("e".to_string())),
        Production::Fail(Error::Chain(ChainError::Failure(message))) if message == "e"
    ));
    assert!(matches!(
        ClientActor::caught_up_answered(TURN, tip(), h(101), header(7), Ok(true)),
        Production::AskValidators { in_epoch, last_height: 7, .. } if in_epoch == h(100)
    ));
    assert!(matches!(
        ClientActor::caught_up_answered(TURN, tip(), h(101), header(7), Ok(false)),
        Production::Fail(Error::Chain(ChainError::Orphan))
    ));
}

// With four validators the block waits for two approvals, or three where the client produced the
// block before as well.
#[test]
fn block_waits_for_approvals_or_time() {
    let mut me = client(Some("me"));
    let ask = |me: &ClientActor, last: &str, now: u128| {
        me.validators_answered(
            TURN,
            tip(),
            h(101),
            header(7),
            Ok(names(&["a", "b", "c", "me"])),
            Ok(last.to_string()),
            now,
        )
    };
    me.approvals.insert(0, Signature([0; 64]));
    let later = RunLater {
        delay: 1500,
        task: Task::ProduceBlock { block_hash: h(7), last_height: 7, next_height: 9 },
    };
    assert!(matches!(ask(&me, "a", 1500), Production::Later(l) if l == later));
    assert!(matches!(ask(&me, "a", 3000), Production::AskChunks { .. }));
    assert!(matches!(ask(&me, "a", 2999), Production::Later(_)));
    me.approvals.insert(1, Signature([0; 64]));
    assert!(matches!(ask(&me, "a", 1500), Production::AskChunks { .. }));
    assert!(matches!(ask(&me, "me", 1500), Production::Later(_)));
    me.approvals.insert(2, Signature([0; 64]));
    assert!(matches!(ask(&me, "me", 1500), Production::AskChunks { .. }));
}

#[test]
fn lone_validator_waits_for_nobody() {
    let me = client(Some("me"));
    let alone = me.validators_answered(
        TURN,
        tip(),
        h(101),
        header(7),
        Ok(names(&["me"])),
        Ok("gone".to_string()),
        1000,
    );
    assert!(matches!(alone, Production::AskChunks { prev_hash, .. } if prev_hash == h(7)));
    let failed = me.validators_answered(
        TURN,
        tip(),
        h(101),
        header(7),
        Err("no validators".to_string()),
        Ok("a".to_string()),
        1000,
    );
    assert!(matches!(failed, Production::Fail(Error::Other(m)) if m == "no validators"));
    let failed = me.validators_answered(
        TURN,
        tip(),
        h(101),
        header(7),
        Ok(names(&["me"])),
        Err("no proposer".to_string()),
        1000,
    );
    assert!(matches!(failed, Production::Fail(Error::Other(m)) if m == "no proposer"));
}

#[test]
fn new_block_replaces_chunks_and_takes_approvals() {
    let mut me = client(Some("me"));
    me.approvals.insert(2, Signature([9; 64]));
    let prev_block = Block {
        header: header(7),
        chunks: vec![chunk(0, 7, 10), chunk(1, 6, 13)],
        num_transactions: 0,
    };
    let new_chunks = vec![(1, chunk(1, 0, 99))];
    let new_chunks = match me.chunks_answered(TURN, tip(), h(101), new_chunks) {
        Production::AskBlock { block_hash, epoch_hash, new_chunks } => {
            assert_eq!((block_hash, epoch_hash), (h(7), h(101)));
            new_chunks
        }
        other => panic!("{:?}", other),
    };
    assert_eq!(me.approvals.len(), 1);
    let produced =
        me.prev_block_answered(TURN, h(101), new_chunks, Ok(prev_block), Ok(header(7)));
    let block = match produced {
        Production::Produce(block) => block,
        other => panic!("{:?}", other),
    };
    assert_eq!(block.prev_header, header(7));
    assert_eq!(block.height, 9);
    assert_eq!(block.epoch_hash, h(101));
    assert_eq!(block.chunks[0], chunk(0, 7, 10));
    let mut expected = chunk(1, 0, 99);
    expected.inner.height_included = 9;
    assert_eq!(block.chunks[1], expected);
    // (10 + 13) / 2 and (100 + 130) / 2, of the block before.
    assert_eq!(block.gas_used, 11);
    assert_eq!(block.gas_limit, 115);
    let proposals: Vec<&str> =
        block.validator_proposals.iter().map(|p| p.account_id.as_str()).collect();
    assert_eq!(proposals, vec!["v0", "v1"]);
    assert_eq!(block.approvals.get(&2), Some(&Signature([9; 64])));
    assert_eq!(block.approvals.len(), 1);
    assert!(me.approvals.is_empty());
}

#[test]
fn empty_block_is_left_out_unless_wanted() {
    let prev_block =
        || Ok(Block { header: header(7), chunks: vec![chunk(0, 7, 10)], num_transactions: 0 });
    let mut me = client(Some("me"));
    me.config.produce_empty_blocks = false;
    // The block before is not looked at for that.
    let skipped = me.chunks_answered(TURN, tip(), h(101), vec![]);
    let wish = Scheduling { block_hash: h(7), last_height: 7, check_height: 9 };
    assert!(matches!(skipped, Production::Skip(s) if s == wish));
    let kept = me.chunks_answered(TURN, tip(), h(101), vec![(0, chunk(0, 0, 1))]);
    assert!(matches!(kept, Production::AskBlock { .. }));
    me.config.produce_empty_blocks = true;
    let kept = me.chunks_answered(TURN, tip(), h(101), vec![]);
    assert!(matches!(kept, Production::AskBlock { .. }));
    let produced = me.prev_block_answered(TURN, h(101), vec![], prev_block(), Ok(header(7)));
    assert!(matches!(produced, Production::Produce(_)));
    me.approvals.insert(2, Signature([9; 64]));
    let orphan = || Err(ChainError::Orphan);
    let failed = me.prev_block_answered(TURN, h(101), vec![], orphan(), Ok(header(7)));
    assert!(matches!(failed, Production::Fail(Error::Chain(ChainError::Orphan))));
    let gone = Err(ChainError::Refused("gone".to_string()));
    let failed = me.prev_block_answered(TURN, h(101), vec![], prev_block(), gone);
    assert!(matches!(failed, Production::Fail(Error::Chain(ChainError::Refused(_)))));
    assert_eq!(me.approvals.len(), 1);
}

const CHUNK_TURN: ChunkTurn = ChunkTurn {
    prev_block_hash: CryptoHash([9; 32]),
    epoch_hash: CryptoHash([101; 32]),
    next_height: 10,
    shard_id: 3,
    last_created: 7,
    last_included: 7,
};

fn extra() -> ChunkExtra {
    ChunkExtra {
        state_root: h(60),
        outcome_root: h(61),
        validator_proposals: vec![],
        gas_used: 5,
        gas_limit: 6,
        balance_burnt: 0,
    }
}

#[test]
fn chunk_is_produced_with_receipts_of_last_inclusion() {
    let me = client(Some("me"));
    let question = ChunkQuestion { epoch_hash: h(101), height: 10, shard_id: 3 };
    assert!(matches!(
        me.produce_chunk(&CHUNK_TURN),
        ChunkProduction::AskProposer(asked) if asked == question
    ));
    assert!(matches!(
        me.chunk_proposer_answered(&CHUNK_TURN, &"me".to_string()),
        ChunkProduction::AskChunkExtra { shard_id: 3 }
    ));
    let (chunk_extra, expected_weight) = match me.chunk_extra_answered(&CHUNK_TURN, Ok(extra())) {
        ChunkProduction::AskTransactions { shard_id: 3, expected_weight, chunk_extra } => {
            (chunk_extra, expected_weight)
        }
        other => panic!("{:?}", other),
    };
    assert_eq!(expected_weight, 77);
    let transactions = vec![SignedTransaction { encoded: vec![1] }];
    let mut step = CHUNK_TURN.transactions_answered(chunk_extra, Ok(transactions));
    let mut seen = vec![];
    let draft = loop {
        step = match step {
            ChunkProduction::AskHeader(draft) => {
                let height = draft.receipts_block_hash.0[0] as u64;
                seen.push(height);
                CHUNK_TURN.header_answered(draft, Ok(header(height)))
            }
            ChunkProduction::AskReceipts { shard_id: 3, draft } => break draft,
            other => panic!("{:?}", other),
        };
    };
    assert_eq!(seen, vec![9, 8, 7]);
    assert_eq!(draft.receipts_block_hash, h(7));
    let receipts = vec![Receipt { encoded: vec![2] }];
    let chunk = CHUNK_TURN.receipts_answered(draft, Ok(receipts.clone()));
    assert_eq!(chunk.prev_block_hash, h(9));
    assert_eq!(chunk.state_root, h(60));
    assert_eq!((chunk.height, chunk.shard_id), (10, 3));
    assert_eq!((chunk.gas_used, chunk.gas_limit), (5, 6));
    assert_eq!(chunk.transactions, vec![SignedTransaction { encoded: vec![1] }]);
    assert_eq!(chunk.receipts, receipts);
}

#[test]
fn chunk_goes_without_receipts_that_are_not_there() {
    let draft = match CHUNK_TURN.transactions_answered(extra(), Ok(vec![])) {
        ChunkProduction::AskHeader(draft) => draft,
        other => panic!("{:?}", other),
    };
    let chunk = CHUNK_TURN.receipts_answered(draft, Err(ChainError::Refused("none".to_string())));
    assert!(chunk.receipts.is_empty());
}

#[test]
fn chunk_production_fails_in_so_many_ways() {
    let me = client(Some("me"));
    assert!(matches!(
        me.chunk_proposer_answered(&CHUNK_TURN, &"you".to_string()),
        ChunkProduction::Stop
    ));
    assert!(matches!(
        client(None).produce_chunk(&CHUNK_TURN),
        ChunkProduction::Fail(Error::ChunkProducer(ProducerFault::NoBlockProducer))
    ));
    assert!(matches!(
        me.chunk_extra_answered(&CHUNK_TURN, Err("gone".to_string())),
        ChunkProduction::Fail(Error::ChunkProducer(ProducerFault::NoChunkExtra(reason)))
            if reason == "gone"
    ));
    assert!(matches!(
        CHUNK_TURN.transactions_answered(extra(), Err(Error::Other("pool".to_string()))),
        ChunkProduction::Fail(Error::Other(message)) if message == "pool"
    ));
    let draft = match CHUNK_TURN.transactions_answered(extra(), Ok(vec![])) {
        ChunkProduction::AskHeader(draft) => draft,
        other => panic!("{:?}", other),
    };
    assert!(matches!(
        CHUNK_TURN.header_answered(draft, Err(ChainError::Orphan)),
        ChunkProduction::Fail(Error::Chain(ChainError::Orphan))
    ));
    assert_eq!(ChunkTurn::encoding_answered(Ok(5)), Ok(5));
    assert_eq!(
        ChunkTurn::encoding_answered::<u8>(Err(())),
        Err(Error::ChunkProducer(ProducerFault::Serialization))
    );
}

#[test]
fn producer_faults_in_words() {
    assert_eq!(
        ProducerFault::NoBlockProducer.message(),
        "Called without block producer info."
    );
    assert_eq!(
        ProducerFault::NoChunkExtra("gone".to_string()).message(),
        "No chunk extra available: gone"
    );
    assert_eq!(
        ProducerFault::Serialization.message(),
        "Can't create encoded chunk, serialization error."
    );
}

#[test]
fn turn_is_scheduled_by_whose_it_is() {
    let wish = Scheduling { block_hash: h(7), last_height: 7, check_height: 8 };
    assert_eq!(
        wish.producer_question(h(100)),
        ProducerQuestion { epoch_hash: h(100), height: 9 }
    );
    let me = client(Some("me"));
    assert_eq!(
        me.handle_scheduling_block_production(wish, Ok(h(100)), Ok("me".to_string())),
        Some(RunLater {
            delay: 100,
            task: Task::ProduceBlock { block_hash: h(7), last_height: 7, next_height: 9 },
        })
    );
    assert_eq!(
        me.handle_scheduling_block_production(wish, Ok(h(100)), Ok("you".to_string())),
        Some(RunLater {
            delay: 2000,
            task: Task::CheckBlockTimeout { last_height: 7, check_height: 8 },
        })
    );
    assert_eq!(
        me.handle_scheduling_block_production(wish, Err("x".to_string()), Ok("me".to_string())),
        None
    );
    assert_eq!(
        client(None).handle_scheduling_block_production(wish, Ok(h(100)), Ok("me".to_string())),
        None
    );
}

#[test]
fn missing_block_is_skipped() {
    let mut me = client(Some("me"));
    assert_eq!(me.check_block_timeout(6, 8, Ok(tip()), 5000), None);
    assert_eq!(me.last_block_processed, 1000);
    assert_eq!(me.check_block_timeout(7, 8, Err(ChainError::Orphan), 5000), None);
    assert_eq!(
        me.check_block_timeout(7, 8, Ok(tip()), 5000),
        Some(Scheduling { block_hash: h(7), last_height: 7, check_height: 9 })
    );
    assert_eq!(me.last_block_processed, 5000);
    assert_eq!(me.check_block_timeout(6, u64::MAX, Ok(tip()), 6000), None);
    assert_eq!(ClientActor::produce_block(&Ok(()), h(7), 7, 9), None);
    assert_eq!(ClientActor::produce_block(&Ok(()), h(7), 7, 0), None);
    assert_eq!(
        ClientActor::produce_block(&Err(Error::Other("x".to_string())), h(7), 7, 9),
        Some(Scheduling { block_hash: h(7), last_height: 7, check_height: 8 })
    );
}

#[test]
fn failed_turn_is_taken_again() {
    let me = client(Some("me"));
    let failed = Err(Error::Chain(ChainError::Orphan));
    let wish = ClientActor::produce_block(&failed, h(7), 7, 9).unwrap();
    assert_eq!(
        me.handle_scheduling_block_production(wish, Ok(h(101)), Ok("me".to_string())),
        Some(RunLater {
            delay: 100,
            task: Task::ProduceBlock { block_hash: h(7), last_height: 7, next_height: 9 },
        })
    );
}

#[test]
fn chain_errors_are_classified_in_order() {
    let classify = |bad: bool, error: bool, kind: ErrorKind| {
        classify_error(bad, error, kind, "words".to_string())
    };
    let words = || "words".to_string();
    assert_eq!(classify(true, true, ErrorKind::Orphan), ChainError::BadData(words()));
    assert_eq!(classify(false, true, ErrorKind::Orphan), ChainError::Failure(words()));
    assert_eq!(classify(false, false, ErrorKind::Orphan), ChainError::Orphan);
    assert_eq!(
        classify(false, false, ErrorKind::ChunksMissing(vec![chunk(0, 1, 2)])),
        ChainError::ChunksMissing(vec![chunk(0, 1, 2)])
    );
    assert_eq!(classify(false, false, ErrorKind::Other), ChainError::Refused(words()));
    assert_eq!(runtime_result::<u8>(Err(words())), Err(Error::Other(words())));
    assert_eq!(runtime_result(Ok(3)), Ok(3));
}

// Asks what an approval of the block at height 7 asks for, one after the other.
fn approve(
    me: &ClientActor,
    epoch_hash: Result<CryptoHash, String>,
    next: &str,
    validators: &[&str],
) -> Option<ApprovalRequest> {
    let block = Block { header: header(7), chunks: vec![], num_transactions: 0 };
    let mut step = ClientActor::get_block_approval(&block);
    loop {
        step = match step {
            ApprovalStep::AskEpoch { block_hash } => {
                assert_eq!(block_hash, h(7));
                ClientActor::approval_epoch_answered(&block, epoch_hash.clone())
            }
            ApprovalStep::AskNextProducer { epoch_hash, height } => {
                assert_eq!((epoch_hash, height), (h(101), 8));
                me.approval_producer_answered(&block, Ok(next.to_string()))
            }
            ApprovalStep::AskValidators { epoch_hash, next_block_producer } => {
                assert_eq!(epoch_hash, h(100));
                let validators = Ok(names(validators));
                me.approval_validators_answered(&block, next_block_producer, validators)
            }
            ApprovalStep::Sign(request) => return Some(request),
            ApprovalStep::Nothing => return None,
        };
    }
}

#[test]
fn validator_approves_block_of_others() {
    let me = client(Some("me"));
    let epoch = || Ok(h(101));
    assert_eq!(
        approve(&me, epoch(), "you", &["me", "you"]),
        Some(ApprovalRequest { block_hash: h(7), target: "you".to_string() })
    );
    assert_eq!(approve(&me, epoch(), "me", &["me", "you"]), None);
    assert_eq!(approve(&me, epoch(), "you", &["you"]), None);
    assert_eq!(approve(&me, Err("x".to_string()), "you", &["me"]), None);
    assert_eq!(approve(&client(None), epoch(), "you", &["me"]), None);
}

#[test]
fn approvals_are_kept_by_position() {
    let mut me = client(Some("me"));
    let signature = Signature([5; 64]);
    let b = "b".to_string();
    let validators = || Ok(names(&["a", "b", "b"]));
    assert!(me.collect_block_approval(&b, &signature, Err(ChainError::Orphan), validators(), true));
    assert!(me.approvals.is_empty());
    assert!(!me.collect_block_approval(&b, &signature, Ok(header(7)), Err("x".to_string()), true));
    assert!(!me.collect_block_approval(&b, &signature, Ok(header(7)), validators(), false));
    assert!(!me.collect_block_approval(
        &"c".to_string(),
        &signature,
        Ok(header(7)),
        validators(),
        true
    ));
    assert!(me.approvals.is_empty());
    assert!(me.collect_block_approval(&b, &signature, Ok(header(7)), validators(), true));
    assert_eq!(me.approvals.get(&1), Some(&signature));
    assert_eq!(me.approvals.len(), 1);
}

#[test]
fn account_is_announced_once_per_epoch() {
    let mut me = client(Some("near"));
    let validators = || Some(names(&["a", "near"]));
    assert!(!me.check_send_announce_account(false, None, validators()));
    assert!(!me.check_send_announce_account(false, Some(5), None));
    assert!(!me.check_send_announce_account(false, Some(5), Some(names(&["a"]))));
    assert!(me.check_send_announce_account(false, Some(5), validators()));
    assert_eq!(me.last_val_announce_height, Some(5));
    assert!(!me.check_send_announce_account(false, Some(5), validators()));
    assert!(!me.check_send_announce_account(false, Some(4), validators()));
    assert!(me.check_send_announce_account(false, Some(6), validators()));
    assert!(!client(None).check_send_announce_account(false, Some(5), validators()));
}

// Who is a validator already is known to the others.
#[test]
fn validator_does_not_announce_itself_again() {
    let mut me = client(Some("near"));
    let validators = || Some(names(&["a", "near"]));
    assert_eq!(ClientActor::current_epoch(Ok(header(7))), Some(h(100)));
    assert_eq!(ClientActor::current_epoch(Err(ChainError::Orphan)), None);
    assert!(me.is_validator(&validators()));
    assert!(!me.is_validator(&Some(names(&["a"]))));
    assert!(!me.is_validator(&None));
    assert!(!client(None).is_validator(&validators()));
    assert!(!me.check_send_announce_account(true, Some(5), validators()));
    assert_eq!(me.last_val_announce_height, None);
    assert!(me.check_send_announce_account(false, Some(5), validators()));
}

#[test]
fn own_announcement_names_the_node() {
    let me = client(Some("near"));
    let hash = me.sign_announce_account(h(3)).unwrap();
    let announce = me.own_announcement(h(3), hash, Signature([8; 64])).unwrap();
    assert_eq!(announce.account_id, "near");
    assert_eq!(announce.epoch, h(3));
    assert_eq!(announce.route.len(), 1);
    assert_eq!(announce.route[0].peer_id, PeerId(PublicKey([1; 32])));
    assert_eq!(announce.route[0].hash, hash);
    assert_eq!(announce.header_hash(), Ok(hash));
    assert_eq!(client(None).sign_announce_account(h(3)), Err(()));
    assert!(client(None).own_announcement(h(3), hash, Signature([8; 64])).is_none());
}
