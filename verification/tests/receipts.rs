use near_client::crypto::{Direction, MerklePathItem};
use near_client::hash_index::HashIndex;
use near_client::stateless_validation::errors::{Error, WitnessFault};
use near_client::stateless_validation::receipts::{
    hash_receipts, validate_receipt_proof, Receipt, ReceiptProof, ShardProof,
};
use near_client::stateless_validation::shuffle::is_shuffle;
use near_client::stateless_validation::source_receipts::{
    sent_receipts_fit, validate_source_receipt_proofs,
};
use near_client::types::{
    Block, BlockHeader, CryptoHash, ShardChunkHeader, ShardChunkHeaderInner,
};

fn h(n: u8) -> CryptoHash {
    CryptoHash([n; 32])
}

fn chunk(
    shard_id: u64,
    chunk_hash: CryptoHash,
    root: CryptoHash,
    included: u64,
) -> ShardChunkHeader {
    ShardChunkHeader {
        inner: ShardChunkHeaderInner {
            chunk_hash,
            prev_block_hash: h(0),
            prev_state_root: h(0),
            tx_root: h(0),
            prev_outgoing_receipts_root: root,
            height_created: included,
            height_included: included,
            shard_id,
            gas_used: 0,
            gas_limit: 0,
        },
        validator_proposals: vec![],
    }
}

fn block(height: u64, chunks: Vec<ShardChunkHeader>) -> Block {
    Block {
        header: BlockHeader {
            hash: h(200),
            prev_hash: h(201),
            epoch_hash: h(0),
            prev_state_root: h(0),
            height,
            timestamp: 0,
        },
        chunks,
        num_transactions: 0,
    }
}

fn receipts(marks: &[u8]) -> Vec<Receipt> {
    marks.iter().map(|m| Receipt { encoded: vec![*m, *m + 1] }).collect()
}

// The encoding of (to_shard_id, receipts): a number of eight bytes, a count of four bytes, and the
// receipts one behind the other.
fn list_hash(to_shard_id: u64, receipts: &[Receipt]) -> near_primitives::hash::CryptoHash {
    let mut bytes = to_shard_id.to_le_bytes().to_vec();
    bytes.extend_from_slice(&(receipts.len() as u32).to_le_bytes());
    for r in receipts {
        bytes.extend_from_slice(&r.encoded);
    }
    near_primitives::hash::hash(&bytes)
}

// A tree over the lists for shard 0 and shard 1, and the proof for the list at `to_shard_id`.
fn tree(
    from_shard_id: u64,
    to_shard_id: u64,
    lists: [Vec<Receipt>; 2],
) -> (CryptoHash, ReceiptProof) {
    let leaves = vec![list_hash(0, &lists[0]), list_hash(1, &lists[1])];
    let (root, paths) = near_primitives::merkle::merklize(&leaves);
    let proof = paths[to_shard_id as usize]
        .iter()
        .map(|step| MerklePathItem {
            hash: CryptoHash(step.hash.0),
            direction: match step.direction {
                near_primitives::merkle::Direction::Left => Direction::Left,
                near_primitives::merkle::Direction::Right => Direction::Right,
            },
        })
        .collect();
    let [first, second] = lists;
    let receipts = if to_shard_id == 0 { first } else { second };
    let shard_proof = ShardProof { from_shard_id, to_shard_id, proof };
    (CryptoHash(root.0), ReceiptProof { receipts, shard_proof })
}

#[test]
fn hash_of_no_receipts() {
    let h = hash_receipts(&vec![]);
    let expected = near_primitives::hash::hash(&[0u8, 0, 0, 0]);
    assert_eq!(h.0, expected.0);
    let h = hash_receipts(&vec![Receipt { encoded: vec![7, 8] }]);
    let expected = near_primitives::hash::hash(&[1u8, 0, 0, 0, 7, 8]);
    assert_eq!(h.0, expected.0);
}

#[test]
fn proof_of_either_list_is_accepted() {
    for to in 0..2u64 {
        let (root, proof) = tree(3, to, [receipts(&[10]), receipts(&[20, 30])]);
        let chunk = chunk(3, h(1), root, 5);
        assert!(proof.verify_against_receipt_root(root));
        assert_eq!(validate_receipt_proof(&proof, &chunk, to), Ok(()));
    }
}

#[test]
fn proof_faults_are_told_apart() {
    let (root, proof) = tree(3, 1, [receipts(&[10]), receipts(&[20, 30])]);
    let other = chunk(4, h(1), root, 5);
    assert_eq!(
        validate_receipt_proof(&proof, &other, 1),
        Err(Error::InvalidChunkStateWitness(WitnessFault::ReceiptProofFromShard {
            chunk_hash: h(1),
            from_shard_id: 3,
            expected_shard: 4,
        }))
    );
    let right = chunk(3, h(1), root, 5);
    assert_eq!(
        validate_receipt_proof(&proof, &right, 0),
        Err(Error::InvalidChunkStateWitness(WitnessFault::ReceiptProofToShard {
            chunk_hash: h(1),
            to_shard_id: 1,
            expected_shard: 0,
        }))
    );
    let wrong_root = chunk(3, h(1), h(77), 5);
    assert_eq!(
        validate_receipt_proof(&proof, &wrong_root, 1),
        Err(Error::InvalidChunkStateWitness(WitnessFault::ReceiptProofPath { chunk_hash: h(1) }))
    );
}

#[test]
fn changed_receipts_are_not_proved() {
    let (root, mut proof) = tree(3, 1, [receipts(&[10]), receipts(&[20, 30])]);
    proof.receipts.pop();
    assert!(!proof.verify_against_receipt_root(root));
}

#[test]
fn shuffle_of_three() {
    assert!(is_shuffle(&vec![2, 0, 1], 3));
    assert!(!is_shuffle(&vec![2, 0], 3));
    assert!(!is_shuffle(&vec![2, 0, 2], 3));
    assert!(!is_shuffle(&vec![3, 0, 1], 3));
    assert!(is_shuffle(&vec![], 0));
}

// Two new chunks in the newer block, one in the older, all sending to shard 1; the chunk of shard 2
// in the newer block is carried over and sends nothing.
fn sources() -> (HashIndex<ReceiptProof>, Vec<Block>) {
    let (root_a, proof_a) = tree(0, 1, [receipts(&[1]), receipts(&[10, 11])]);
    let (root_b, proof_b) = tree(1, 1, [receipts(&[2]), receipts(&[20])]);
    let (root_c, proof_c) = tree(1, 1, [receipts(&[3]), receipts(&[30])]);
    let newer = block(
        9,
        vec![chunk(0, h(1), root_a, 9), chunk(1, h(2), root_b, 9), chunk(2, h(4), h(0), 7)],
    );
    let older =
        block(8, vec![chunk(0, h(5), h(0), 6), chunk(1, h(3), root_c, 8), chunk(2, h(4), h(0), 7)]);
    let mut proofs = HashIndex::new();
    proofs.insert(h(1), proof_a);
    proofs.insert(h(2), proof_b);
    proofs.insert(h(3), proof_c);
    (proofs, vec![newer, older])
}

#[test]
fn receipts_come_in_shuffled_order() {
    let (proofs, blocks) = sources();
    let plain = validate_source_receipt_proofs(&proofs, &blocks, 1, &vec![vec![0, 1], vec![0]]);
    assert_eq!(plain.unwrap(), receipts(&[10, 11, 20, 30]));
    let swapped = validate_source_receipt_proofs(&proofs, &blocks, 1, &vec![vec![1, 0], vec![0]]);
    assert_eq!(swapped.unwrap(), receipts(&[20, 10, 11, 30]));
    assert!(sent_receipts_fit(&proofs, &blocks));
}

#[test]
fn missing_source_proof_is_named() {
    let (mut proofs, blocks) = sources();
    proofs.remove(&h(3));
    assert_eq!(
        validate_source_receipt_proofs(&proofs, &blocks, 1, &vec![vec![0, 1], vec![0]]),
        Err(Error::InvalidChunkStateWitness(WitnessFault::MissingSourceReceiptProof {
            chunk_hash: h(3),
        }))
    );
}

#[test]
fn extraneous_source_proof_is_refused() {
    let (mut proofs, blocks) = sources();
    let (_, extra) = tree(0, 1, [receipts(&[1]), receipts(&[10, 11])]);
    proofs.insert(h(99), extra);
    assert_eq!(
        validate_source_receipt_proofs(&proofs, &blocks, 1, &vec![vec![0, 1], vec![0]]),
        Err(Error::InvalidChunkStateWitness(WitnessFault::TooManyProofs {
            expected_proofs: 3,
            found: 4,
        }))
    );
}

#[test]
fn first_faulty_chunk_is_blamed() {
    let (mut proofs, blocks) = sources();
    let mut faulty = proofs.remove(&h(2)).unwrap();
    faulty.shard_proof.from_shard_id = 8;
    proofs.insert(h(2), faulty);
    proofs.remove(&h(3));
    assert_eq!(
        validate_source_receipt_proofs(&proofs, &blocks, 1, &vec![vec![0, 1], vec![0]]),
        Err(Error::InvalidChunkStateWitness(WitnessFault::ReceiptProofFromShard {
            chunk_hash: h(2),
            from_shard_id: 8,
            expected_shard: 1,
        }))
    );
}

// Proofs for exactly the new chunks, each in order, are accepted; without one of them, or with
// another in its place, they are not.
#[test]
fn exactly_the_right_proofs_are_accepted() {
    let orders = vec![vec![0, 1], vec![0]];
    let (proofs, blocks) = sources();
    assert!(validate_source_receipt_proofs(&proofs, &blocks, 1, &orders).is_ok());
    let (mut proofs, blocks) = sources();
    let moved = proofs.remove(&h(3)).unwrap();
    proofs.insert(h(98), moved);
    assert!(validate_source_receipt_proofs(&proofs, &blocks, 1, &orders).is_err());
}

// The newer block with its proofs, and the older one with its own, give the receipts that both
// together give.
#[test]
fn runs_of_blocks_join() {
    let (mut newer_proofs, mut newer) = sources();
    let older = vec![newer.pop().unwrap()];
    let mut older_proofs = HashIndex::new();
    older_proofs.insert(h(3), newer_proofs.remove(&h(3)).unwrap());
    let mut joined =
        validate_source_receipt_proofs(&newer_proofs, &newer, 1, &vec![vec![1, 0]]).unwrap();
    joined.extend(
        validate_source_receipt_proofs(&older_proofs, &older, 1, &vec![vec![0]]).unwrap(),
    );
    let (proofs, blocks) = sources();
    let together =
        validate_source_receipt_proofs(&proofs, &blocks, 1, &vec![vec![1, 0], vec![0]]).unwrap();
    assert_eq!(joined, together);
}
