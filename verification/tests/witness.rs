use near_client::crypto::SignedTransaction;
use near_client::hash_index::HashIndex;
use near_client::stateless_validation::chunk_validator::ChunkValidator;
use near_client::stateless_validation::errors::{Error, WitnessFault};
use near_client::stateless_validation::history::ChunkHistory;
use near_client::stateless_validation::pre_validation::{
    check_new_transactions, context_question, contexts_are_of, implicit_blocks,
    new_transactions_config, pre_validate_chunk_state_witness, pre_validation_output,
    ApplyChunkBlockContext,
};
use near_client::stateless_validation::receipts::{hash_receipts, ReceiptProof, ShardProof};
use near_client::stateless_validation::source_receipts::ShuffleQuestion;
use near_client::stateless_validation::stages::WitnessStep;
use near_client::stateless_validation::validation::{
    implicit_shard_context, main_shard_context, validate_chunk_state_witness, ApplyChunkResult,
    ShardUId, ValidationStep,
};
use near_client::stateless_validation::witness::{ChunkStateTransition, ChunkStateWitnessInner};
use near_client::types::{
    Block, BlockHeader, CryptoHash, ShardChunkHeader, ShardChunkHeaderInner,
};

fn h(n: u8) -> CryptoHash {
    CryptoHash([n; 32])
}

fn chunk(included: u64, tx_root: CryptoHash) -> ShardChunkHeader {
    ShardChunkHeader {
        inner: ShardChunkHeaderInner {
            chunk_hash: h(100 + included as u8),
            prev_block_hash: h(50),
            prev_state_root: h(51),
            tx_root,
            prev_outgoing_receipts_root: h(0),
            height_created: included,
            height_included: included,
            shard_id: 0,
            gas_used: 5,
            gas_limit: 1000,
        },
        validator_proposals: vec![],
    }
}

fn block(height: u64, included: u64, tx_root: CryptoHash) -> Block {
    Block {
        header: BlockHeader {
            hash: h(height as u8),
            prev_hash: h(height as u8 - 1),
            epoch_hash: h(0),
            prev_state_root: h(0),
            height,
            timestamp: 0,
        },
        chunks: vec![chunk(included, tx_root)],
        num_transactions: 0,
    }
}

fn context(n: u8) -> ApplyChunkBlockContext {
    ApplyChunkBlockContext {
        block_hash: h(n),
        prev_block_hash: h(n - 1),
        height: n as u64,
        block_timestamp: 0,
        gas_price: 0,
        random_seed: h(0),
    }
}

// A signed transaction of the network, in its encoding.
fn transaction() -> SignedTransaction {
    let tx = near_primitives::transaction::SignedTransaction::empty(
        near_primitives::hash::CryptoHash([9; 32]),
    );
    SignedTransaction { encoded: borsh::to_vec(&tx).unwrap() }
}

fn root_of(transactions: &[SignedTransaction]) -> CryptoHash {
    let items: Vec<near_primitives::transaction::SignedTransaction> =
        transactions.iter().map(|t| borsh::from_slice(&t.encoded).unwrap()).collect();
    CryptoHash(near_primitives::merkle::merklize(&items).0 .0)
}

// The walk from the block at height 12: the last new chunk stands in the block at height 10, the
// one before it in the block at height 8.
fn history(tx_root: CryptoHash) -> ChunkHistory {
    let mut history = ChunkHistory::new(0, h(12));
    for (height, included) in [(12, 10), (11, 10), (10, 10), (9, 8), (8, 8)] {
        assert_eq!(history.wanted(), Some(h(height as u8)));
        assert_eq!(history.push_block(block(height, included, tx_root)), Ok(()));
    }
    assert_eq!(history.wanted(), None);
    history
}

fn witness(transactions: Vec<SignedTransaction>) -> ChunkStateWitnessInner {
    ChunkStateWitnessInner {
        chunk_header: chunk(13, h(0)),
        main_state_transition: ChunkStateTransition {
            base_state: vec![vec![1], vec![2, 3]],
            post_state_root: h(30),
        },
        source_receipt_proofs: HashIndex::new(),
        applied_receipts_hash: hash_receipts(&vec![]),
        transactions,
        implicit_transitions: vec![
            ChunkStateTransition { base_state: vec![vec![4]], post_state_root: h(31) },
            ChunkStateTransition { base_state: vec![vec![5]], post_state_root: h(32) },
        ],
        new_transactions: vec![],
        new_transactions_validation_state: vec![vec![6]],
    }
}

#[test]
fn history_sorts_blocks_by_new_chunks() {
    let history = history(h(0));
    let heights = |blocks: &Vec<Block>| blocks.iter().map(|b| b.header.height).collect::<Vec<_>>();
    assert_eq!(heights(&history.blocks_after_last_chunk), vec![12, 11]);
    assert_eq!(heights(&history.blocks_after_last_last_chunk), vec![10, 9]);
    assert_eq!(implicit_blocks(&history), vec![h(11), h(12)]);
}

#[test]
fn history_refuses_block_without_shard() {
    let mut history = ChunkHistory::new(1, h(12));
    assert_eq!(
        history.push_block(block(12, 12, h(0))),
        Err(Error::InvalidChunkStateWitness(WitnessFault::ShardDoesNotExist {
            shard_id: 1,
            block_hash: h(12),
        }))
    );
}

// Why a block could not be had is handed on as it is.
#[test]
fn history_hands_on_failed_lookups() {
    let mut history = ChunkHistory::new(0, h(12));
    let failed = || Err(Error::Chain("gone".to_string()));
    assert_eq!(history.push_found(failed()), Err(Error::Chain("gone".to_string())));
    assert_eq!(history.wanted(), Some(h(12)));
    assert_eq!(history.push_found(Ok(block(12, 10, h(0)))), Ok(()));
    assert_eq!(history.wanted(), Some(h(11)));
    assert_eq!(
        history.push_found(Err(Error::NotAChunkValidator)),
        Err(Error::NotAChunkValidator)
    );
}

// A new chunk needs a proof even where it sends no receipts.
#[test]
fn pre_validation_wants_source_proofs() {
    let history = history(h(0));
    assert_eq!(
        pre_validate_chunk_state_witness(&witness(vec![]), &history, &vec![vec![0], vec![]]),
        Err(Error::InvalidChunkStateWitness(WitnessFault::MissingSourceReceiptProof {
            chunk_hash: h(110),
        }))
    );
}

// The list of no receipts for shard 0, hashed as the only leaf of a tree.
fn empty_list_proof() -> (CryptoHash, ReceiptProof) {
    let mut bytes = 0u64.to_le_bytes().to_vec();
    bytes.extend_from_slice(&0u32.to_le_bytes());
    let leaf = near_primitives::hash::hash(&bytes);
    let (root, paths) = near_primitives::merkle::merklize(&[leaf]);
    assert!(paths[0].is_empty());
    let shard_proof = ShardProof { from_shard_id: 0, to_shard_id: 0, proof: vec![] };
    (CryptoHash(root.0), ReceiptProof { receipts: vec![], shard_proof })
}

fn sound(
    transactions: Vec<SignedTransaction>,
    tx_root: CryptoHash,
) -> (ChunkStateWitnessInner, ChunkHistory) {
    let (root, proof) = empty_list_proof();
    let mut history = history(tx_root);
    history.blocks_after_last_last_chunk[0].chunks[0].inner.prev_outgoing_receipts_root = root;
    let mut witness = witness(transactions);
    witness.source_receipt_proofs.insert(h(110), proof);
    (witness, history)
}

#[test]
fn pre_validation_accepts_sound_witness() {
    let transactions = vec![transaction()];
    let root = root_of(&transactions);
    let (witness, history) = sound(transactions, root);
    let result = pre_validate_chunk_state_witness(&witness, &history, &vec![vec![0], vec![]]);
    assert_eq!(result, Ok(vec![]));
    let output = pre_validation_output(
        &witness,
        &history,
        result.unwrap(),
        Ok(context(10)),
        vec![Ok(context(11)), Ok(context(12))],
    )
    .unwrap();
    let main = output.main_transition_params;
    assert_eq!(main.chunk_header.inner.chunk_hash, h(110));
    assert_eq!(main.transactions, witness.transactions);
    assert_eq!(main.storage_context.recorded_nodes, vec![vec![1], vec![2, 3]]);
    assert_eq!(output.implicit_transition_params, vec![context(11), context(12)]);
}

#[test]
fn pre_validation_output_names_first_failure() {
    let (witness, history) = sound(vec![], h(0));
    let failed = pre_validation_output(
        &witness,
        &history,
        vec![],
        Ok(context(10)),
        vec![
            Err(Error::Other("a".to_string())),
            Err(Error::Other("b".to_string())),
        ],
    );
    assert_eq!(failed.err(), Some(Error::Other("a".to_string())));
    let failed = pre_validation_output(
        &witness,
        &history,
        vec![],
        Err(Error::Chain("c".to_string())),
        vec![Err(Error::Other("a".to_string())), Ok(context(12))],
    );
    assert_eq!(failed.err(), Some(Error::Chain("c".to_string())));
}

#[test]
fn contexts_have_to_be_those_asked_for() {
    let question = context_question(&history(h(0)));
    let fits = |main: u8, implicit: &[u8]| {
        let implicit = implicit.iter().map(|n| Ok(context(*n))).collect();
        contexts_are_of(&question, &Ok(context(main)), &implicit)
    };
    assert!(fits(10, &[11, 12]));
    assert!(!fits(9, &[11, 12]));
    assert!(!fits(10, &[12, 11]));
    assert!(!fits(10, &[11]));
    let failed = || Err(Error::Other("a".to_string()));
    assert!(contexts_are_of(&question, &failed(), &vec![failed(), Ok(context(12))]));
}

#[test]
fn pre_validation_checks_receipts_hash() {
    let (mut witness, history) = sound(vec![], h(0));
    witness.applied_receipts_hash = h(66);
    assert_eq!(
        pre_validate_chunk_state_witness(&witness, &history, &vec![vec![0], vec![]]),
        Err(Error::InvalidChunkStateWitness(WitnessFault::AppliedReceiptsHash {
            computed: hash_receipts(&vec![]),
            expected: h(66),
        }))
    );
}

#[test]
fn pre_validation_checks_transaction_root() {
    let (witness, history) = sound(vec![transaction()], h(67));
    assert_eq!(
        pre_validate_chunk_state_witness(&witness, &history, &vec![vec![0], vec![]]),
        Err(Error::InvalidChunkStateWitness(WitnessFault::TransactionRoot {
            root: Some(root_of(&[transaction()])),
            expected_root: h(67),
        }))
    );
    // No transactions at all have the zero root, and garbage has none.
    let (witness, history) = sound(vec![], h(0));
    assert_eq!(
        pre_validate_chunk_state_witness(&witness, &history, &vec![vec![0], vec![]]),
        Ok(vec![])
    );
    let (witness, history) = sound(vec![SignedTransaction { encoded: vec![1] }], h(67));
    assert_eq!(
        pre_validate_chunk_state_witness(&witness, &history, &vec![vec![0], vec![]]),
        Err(Error::InvalidChunkStateWitness(WitnessFault::TransactionRoot {
            root: None,
            expected_root: h(67),
        }))
    );
}

#[test]
fn new_transactions_are_checked_on_recorded_state() {
    let mut witness = witness(vec![]);
    assert!(new_transactions_config(&witness).is_none());
    witness.new_transactions.push(transaction());
    let config = new_transactions_config(&witness).unwrap();
    assert_eq!(config.state_root, h(51));
    assert_eq!(config.recorded_nodes, vec![vec![6]]);
    assert!(config.use_flat_storage && !config.record_storage);
    assert_eq!(check_new_transactions(2, Ok(2)), Ok(()));
    assert_eq!(
        check_new_transactions(2, Ok(1)),
        Err(Error::InvalidChunkStateWitness(WitnessFault::NewTransactionsInvalid {
            valid: 1,
            proposed: 2,
        }))
    );
    assert_eq!(
        check_new_transactions(2, Err("no".to_string())),
        Err(Error::InvalidChunkStateWitness(WitnessFault::NewTransactionsFailed("no".to_string())))
    );
}

fn applied(new_root: CryptoHash) -> ApplyChunkResult {
    ApplyChunkResult {
        new_root,
        outcome_root: h(40),
        outgoing_receipts: vec![],
        validator_proposals: vec![],
        total_gas_burnt: 7,
        total_balance_burnt: 8,
    }
}

#[test]
fn validation_follows_claimed_roots() {
    let mut validation = validate_chunk_state_witness(
        witness(vec![]),
        &chunk(10, h(0)),
        vec![context(11), context(12)],
        Ok(applied(h(30))),
    )
    .unwrap();
    assert_eq!(validation.next(), ValidationStep::ApplyOldChunk);
    let data = validation.old_chunk_data();
    assert_eq!(data.prev_chunk_extra.state_root, h(30));
    assert_eq!(data.prev_chunk_extra.gas_used, 7);
    assert_eq!(data.prev_chunk_extra.gas_limit, 1000);
    assert_eq!(data.block, context(11));
    assert_eq!(data.storage_context.recorded_nodes, vec![vec![4]]);
    assert_eq!(validation.old_chunk_applied(Ok(h(31))), Ok(()));
    assert_eq!(validation.next(), ValidationStep::ApplyOldChunk);
    assert_eq!(validation.old_chunk_applied(Ok(h(32))), Ok(()));
    assert_eq!(
        validation.next(),
        ValidationStep::HashOutgoingReceipts { prev_block_hash: h(50) }
    );
    assert_eq!(validation.chunk_extra.state_root, h(32));
    let hashes = vec![h(1), h(2), h(3)];
    let items: Vec<_> = hashes.iter().map(|x| near_primitives::hash::CryptoHash(x.0)).collect();
    let expected = near_primitives::merkle::merklize(&items).0;
    assert_eq!(validation.outgoing_receipts_root(Ok(hashes)), Ok(CryptoHash(expected.0)));
    assert_eq!(validation.outgoing_receipts_root(Ok(vec![])), Ok(h(0)));
    assert_eq!(
        validation.outgoing_receipts_root(Err(Error::Chain("x".to_string()))),
        Err(Error::Chain("x".to_string()))
    );
}

#[test]
fn validation_refuses_other_roots() {
    let refused = validate_chunk_state_witness(
        witness(vec![]),
        &chunk(10, h(0)),
        vec![],
        Ok(applied(h(29))),
    );
    assert_eq!(
        refused.err(),
        Some(Error::InvalidChunkStateWitness(WitnessFault::MainPostStateRoot {
            computed: h(29),
            expected: h(30),
        }))
    );
    let mut validation = validate_chunk_state_witness(
        witness(vec![]),
        &chunk(10, h(0)),
        vec![context(11)],
        Ok(applied(h(30))),
    )
    .unwrap();
    assert_eq!(
        validation.old_chunk_applied(Ok(h(32))),
        Err(Error::InvalidChunkStateWitness(WitnessFault::ImplicitPostStateRoot {
            computed: h(32),
            block_hash: h(11),
            expected: h(31),
        }))
    );
    assert_eq!(validation.chunk_extra.state_root, h(30));
    let failed = validate_chunk_state_witness(
        witness(vec![]),
        &chunk(10, h(0)),
        vec![],
        Err(Error::Chain("y".to_string())),
    );
    assert_eq!(failed.err(), Some(Error::Chain("y".to_string())));
}

// With one block and two claimed transitions, only the first transition is looked at.
#[test]
fn validation_stops_with_the_shorter_list() {
    let mut validation = validate_chunk_state_witness(
        witness(vec![]),
        &chunk(10, h(0)),
        vec![context(11)],
        Ok(applied(h(30))),
    )
    .unwrap();
    assert_eq!(validation.old_chunk_applied(Ok(h(31))), Ok(()));
    assert_eq!(
        validation.next(),
        ValidationStep::HashOutgoingReceipts { prev_block_hash: h(50) }
    );
}

#[test]
fn shard_contexts_differ_in_applying() {
    let uid = ShardUId { version: 1, shard_id: 2 };
    let main = main_shard_context(uid);
    let implicit = implicit_shard_context(uid);
    assert!(main.should_apply_chunk && !implicit.should_apply_chunk);
    assert!(main.cares_about_shard_this_epoch && implicit.cares_about_shard_this_epoch);
    assert_eq!(main.shard_uid, uid);
    assert!(!main.need_to_reshard && !main.will_shard_layout_change);
}

// The answers that a witness gets on its way through the stages.
struct Answers {
    block_at_11: Result<u64, Error>,
    prepared: Result<usize, String>,
    main_context: Result<ApplyChunkBlockContext, Error>,
    new_root: CryptoHash,
    old_roots: Vec<CryptoHash>,
    hashes: Result<Vec<CryptoHash>, Error>,
    compared: Result<(), Error>,
}

fn favourable() -> Answers {
    Answers {
        block_at_11: Ok(10),
        prepared: Ok(1),
        main_context: Ok(context(10)),
        new_root: h(30),
        old_roots: vec![h(31), h(32)],
        hashes: Ok(vec![h(1)]),
        compared: Ok(()),
    }
}

// Takes a witness through the stages. Hands back what was asked, and how it ended.
fn check(answers: Answers, receipts_hash: CryptoHash) -> (Vec<&'static str>, Result<(), Error>) {
    let (mut witness, _) = sound(vec![], h(0));
    witness.new_transactions.push(transaction());
    witness.applied_receipts_hash = receipts_hash;
    witness.chunk_header.inner.prev_block_hash = h(12);
    let (receipts_root, _) = empty_list_proof();
    let mut asked = vec![];
    let mut old_roots = answers.old_roots.into_iter();
    let mut step = ChunkValidator::begin_check(&witness.chunk_header);
    loop {
        step = match step {
            WitnessStep::AskBlock { block_hash, history } => {
                let height = block_hash.0[0] as u64;
                let included = match height {
                    11 => answers.block_at_11.clone(),
                    12 => Ok(10),
                    9 => Ok(8),
                    other => Ok(other),
                };
                let found = included.map(|included| {
                    let mut found = block(height, included, h(0));
                    found.chunks[0].inner.prev_outgoing_receipts_root = receipts_root;
                    found
                });
                ChunkValidator::block_found(history, found)
            }
            WitnessStep::AskShuffles { questions, history } => {
                asked.push("shuffles");
                assert_eq!(
                    questions,
                    vec![
                        ShuffleQuestion { block_hash: h(10), num_new_chunks: 1 },
                        ShuffleQuestion { block_hash: h(9), num_new_chunks: 0 }
                    ]
                );
                ChunkValidator::shuffles_given(&witness, history, &vec![vec![0], vec![]])
            }
            WitnessStep::AskPrepared { config, history, receipts } => {
                asked.push("transactions");
                assert_eq!(config.state_root, h(51));
                let prepared = answers.prepared.clone();
                ChunkValidator::transactions_prepared(&witness, history, receipts, prepared)
            }
            WitnessStep::AskContexts { question, history, receipts } => {
                asked.push("contexts");
                assert_eq!(question.main, h(10));
                assert_eq!(question.implicit, vec![h(11), h(12)]);
                let main = answers.main_context.clone();
                let implicit = vec![Ok(context(11)), Ok(context(12))];
                assert!(contexts_are_of(&question, &main, &implicit));
                ChunkValidator::contexts_given(&witness, &history, receipts, main, implicit)
            }
            WitnessStep::ApplyNewChunk { block_hash, shard_id, output } => {
                asked.push("new chunk");
                assert_eq!((block_hash, shard_id), (h(10), 0));
                let (claims, _) = sound(vec![], h(0));
                ChunkValidator::new_chunk_applied(
                    claims,
                    &output.main_transition_params.chunk_header,
                    output.implicit_transition_params,
                    Ok(applied(answers.new_root)),
                )
            }
            WitnessStep::ApplyOldChunk(validation) => {
                asked.push("block");
                ChunkValidator::block_applied(validation, Ok(old_roots.next().unwrap()))
            }
            WitnessStep::HashReceipts { prev_block_hash, validation } => {
                asked.push("receipts");
                assert_eq!(prev_block_hash, h(50));
                ChunkValidator::receipts_hashed(validation, answers.hashes.clone())
            }
            WitnessStep::Compare { validation, outgoing_receipts_root } => {
                asked.push("header");
                assert_eq!(validation.chunk_extra.state_root, h(32));
                let leaf = near_primitives::hash::CryptoHash([1; 32]);
                let expected = near_primitives::merkle::merklize(&[leaf]).0;
                assert_eq!(outgoing_receipts_root.0, expected.0);
                ChunkValidator::header_compared(answers.compared.clone())
            }
            WitnessStep::Endorse => return (asked, Ok(())),
            WitnessStep::Refuse(error) => return (asked, Err(error)),
        };
    }
}

#[test]
fn witness_is_endorsed_after_all_stages() {
    let (asked, result) = check(favourable(), hash_receipts(&vec![]));
    assert_eq!(
        asked,
        vec![
            "shuffles",
            "transactions",
            "contexts",
            "new chunk",
            "block",
            "block",
            "receipts",
            "header"
        ]
    );
    assert_eq!(result, Ok(()));
}

#[test]
fn witness_is_refused_at_the_first_stage_that_fails() {
    let failure = || Error::Chain("x".to_string());
    let last = |answers: Answers| {
        let (asked, result) = check(answers, hash_receipts(&vec![]));
        (asked.last().copied(), result.unwrap_err())
    };
    // A walk that fails is not followed by a look at the proposed transactions.
    assert_eq!(last(Answers { block_at_11: Err(failure()), ..favourable() }), (None, failure()));
    let (asked, result) = check(favourable(), h(66));
    assert_eq!(asked, vec!["shuffles"]);
    assert!(matches!(
        result,
        Err(Error::InvalidChunkStateWitness(WitnessFault::AppliedReceiptsHash { .. }))
    ));
    assert_eq!(
        last(Answers { prepared: Ok(0), ..favourable() }),
        (
            Some("transactions"),
            Error::InvalidChunkStateWitness(WitnessFault::NewTransactionsInvalid {
                valid: 0,
                proposed: 1,
            })
        )
    );
    assert_eq!(
        last(Answers { main_context: Err(failure()), ..favourable() }),
        (Some("contexts"), failure())
    );
    assert_eq!(
        last(Answers { new_root: h(29), ..favourable() }),
        (
            Some("new chunk"),
            Error::InvalidChunkStateWitness(WitnessFault::MainPostStateRoot {
                computed: h(29),
                expected: h(30),
            })
        )
    );
    assert_eq!(
        last(Answers { old_roots: vec![h(31), h(33)], ..favourable() }),
        (
            Some("block"),
            Error::InvalidChunkStateWitness(WitnessFault::ImplicitPostStateRoot {
                computed: h(33),
                block_hash: h(12),
                expected: h(32),
            })
        )
    );
    assert_eq!(
        last(Answers { hashes: Err(failure()), ..favourable() }),
        (Some("receipts"), failure())
    );
    assert_eq!(
        last(Answers { compared: Err(failure()), ..favourable() }),
        (Some("header"), failure())
    );
}

#[test]
fn witness_faults_in_words() {
    let text = |n: u8| near_primitives::hash::CryptoHash([n; 32]).to_string();
    let chunk = |n: u8| {
        let hash = near_primitives::hash::CryptoHash([n; 32]);
        format!("{:?}", near_primitives::sharding::ChunkHash(hash))
    };
    let check = |fault: WitnessFault, words: String| assert_eq!(fault.message(), words);
    check(WitnessFault::InvalidSignature, "Invalid signature".to_string());
    check(
        WitnessFault::ShardDoesNotExist { shard_id: 120, block_hash: h(3) },
        format!("Shard 120 does not exist in block {}", text(3)),
    );
    check(
        WitnessFault::MissingSourceReceiptProof { chunk_hash: h(4) },
        format!("Missing source receipt proof for chunk {}", chunk(4)),
    );
    check(
        WitnessFault::ReceiptProofFromShard {
            chunk_hash: h(4),
            from_shard_id: 0,
            expected_shard: 10,
        },
        format!("Receipt proof for chunk {} is from shard 0, expected shard 10", chunk(4)),
    );
    check(
        WitnessFault::ReceiptProofToShard { chunk_hash: h(4), to_shard_id: 7, expected_shard: 8 },
        format!("Receipt proof for chunk {} is for shard 7, expected shard 8", chunk(4)),
    );
    check(
        WitnessFault::ReceiptProofPath { chunk_hash: h(4) },
        format!(
            "Receipt proof for chunk {} has invalid merkle path, doesn't match outgoing receipts root",
            chunk(4)
        ),
    );
    check(
        WitnessFault::TooManyProofs { expected_proofs: 345, found: 6 },
        "source_receipt_proofs contains too many proofs. Expected 345 proofs, found 6".to_string(),
    );
    check(
        WitnessFault::AppliedReceiptsHash { computed: h(1), expected: h(2) },
        format!(
            "Receipts hash {} does not match expected receipts hash {}",
            text(1),
            text(2)
        ),
    );
    check(
        WitnessFault::TransactionRoot { root: Some(h(1)), expected_root: h(2) },
        format!(
            "Transaction root {} does not match expected transaction root {}",
            text(1),
            text(2)
        ),
    );
    check(
        WitnessFault::NewTransactionsInvalid { valid: 1, proposed: 29 },
        "New transactions validation failed. 1 transactions out of 29 proposed transactions were valid."
            .to_string(),
    );
    check(
        WitnessFault::NewTransactionsFailed("no".to_string()),
        "New transactions validation failed: no".to_string(),
    );
    check(WitnessFault::Reported("lie".to_string()), "lie".to_string());
    check(
        WitnessFault::MainPostStateRoot { computed: h(1), expected: h(2) },
        format!(
            "Post state root {} for main transition does not match expected post state root {}",
            text(1),
            text(2)
        ),
    );
    check(
        WitnessFault::ImplicitPostStateRoot { computed: h(1), block_hash: h(3), expected: h(2) },
        format!(
            "Post state root {} for implicit transition at block {}, does not match expected state root {}",
            text(1),
            text(3),
            text(2)
        ),
    );
}
