use near_client::hash_index::HashIndex;
use near_client::stateless_validation::chunk_validator::{
    endorsement_heights, send_chunk_endorsement_to_block_producers, witness_question,
    ChunkValidator, Client, ValidationOutcome, WitnessAction,
};
use near_client::stateless_validation::endorsement_cache::ChunkEndorsementTracker;
use near_client::stateless_validation::errors::{Error, WitnessFault};
use near_client::types::{
    CryptoHash, PeerId, PublicKey, ReasonForBan, ShardChunkHeader, ShardChunkHeaderInner, Signature,
};

fn h(n: u8) -> CryptoHash {
    CryptoHash([n; 32])
}

fn chunk(n: u8, prev_block_hash: CryptoHash) -> ShardChunkHeader {
    ShardChunkHeader {
        inner: ShardChunkHeaderInner {
            chunk_hash: h(n),
            prev_block_hash,
            prev_state_root: h(0),
            tx_root: h(0),
            prev_outgoing_receipts_root: h(0),
            height_created: 40,
            height_included: 41,
            shard_id: 0,
            gas_used: 0,
            gas_limit: 0,
        },
        validator_proposals: vec![],
    }
}

fn name(s: &str) -> Option<String> {
    Some(s.to_string())
}

#[test]
fn endorsement_goes_to_known_producers() {
    let mut tracker = ChunkEndorsementTracker::new(2);
    let me = "me".to_string();
    let signature = Signature([3; 64]);
    let producers = vec![name("a"), name("me"), name("b"), None, name("c")];
    let messages = send_chunk_endorsement_to_block_producers(
        &chunk(1, h(9)),
        &producers,
        &me,
        signature,
        &mut tracker,
    );
    let sent: Vec<&str> = messages.iter().map(|m| m.block_producer.as_str()).collect();
    assert_eq!(sent, vec!["a", "b"]);
    for message in &messages {
        assert_eq!(message.endorsement.chunk_hash, h(1));
        assert_eq!(message.endorsement.account_id, "me");
        assert_eq!(message.endorsement.signature, signature);
    }
    assert_eq!(tracker.endorsements(&h(1)), Some(vec![(me, [3; 64])]));
}

#[test]
fn endorsement_of_other_producers_is_not_kept() {
    let mut tracker = ChunkEndorsementTracker::new(2);
    let me = "me".to_string();
    let messages = send_chunk_endorsement_to_block_producers(
        &chunk(1, h(9)),
        &vec![name("a")],
        &me,
        Signature([3; 64]),
        &mut tracker,
    );
    assert_eq!(messages.len(), 1);
    assert_eq!(tracker.endorsements(&h(1)), None);
}

#[test]
fn endorsement_is_meant_for_five_heights() {
    assert_eq!(endorsement_heights(&chunk(1, h(9))), vec![40, 41, 42, 43, 44]);
}

#[test]
fn tracker_forgets_chunk_touched_longest_ago() {
    let mut tracker = ChunkEndorsementTracker::new(2);
    let (a, b) = ("a".to_string(), "b".to_string());
    tracker.record(&h(1), &a, &Signature([1; 64]));
    tracker.record(&h(2), &a, &Signature([2; 64]));
    // Looking the first chunk up counts as touching it, so the second one goes.
    assert!(tracker.endorsements(&h(1)).is_some());
    tracker.record(&h(3), &b, &Signature([3; 64]));
    assert_eq!(tracker.endorsements(&h(2)), None);
    assert_eq!(tracker.endorsements(&h(1)), Some(vec![(a, [1; 64])]));
    assert_eq!(tracker.endorsements(&h(3)), Some(vec![(b, [3; 64])]));
}

#[test]
fn recording_an_endorsement_twice_changes_nothing() {
    let mut tracker = ChunkEndorsementTracker::new(4);
    let (a, b) = ("a".to_string(), "b".to_string());
    tracker.record(&h(1), &a, &Signature([1; 64]));
    tracker.record(&h(1), &b, &Signature([2; 64]));
    tracker.record(&h(1), &a, &Signature([1; 64]));
    assert_eq!(tracker.endorsements(&h(1)), Some(vec![(a.clone(), [1; 64]), (b, [2; 64])]));
    // Another signature of the same account takes the place of the first.
    tracker.record(&h(1), &a, &Signature([5; 64]));
    assert_eq!(tracker.endorsements(&h(1)).unwrap()[0], (a, [5; 64]));
}

#[test]
fn validator_takes_on_assigned_chunks_only() {
    let validator = ChunkValidator::new(name("me"));
    let assigned = || Ok(vec!["a".to_string(), "me".to_string()]);
    assert_eq!(
        validator.start_validating_chunk(Ok(true), Ok(h(1)), assigned()),
        Ok("me".to_string())
    );
    assert_eq!(
        validator.start_validating_chunk(Ok(true), Ok(h(1)), Ok(vec![])),
        Err(Error::NotAChunkValidator)
    );
    assert_eq!(
        validator.start_validating_chunk(Ok(false), Ok(h(1)), assigned()),
        Err(Error::InvalidChunkStateWitness(WitnessFault::InvalidSignature))
    );
    assert_eq!(
        ChunkValidator::new(None).start_validating_chunk(Ok(true), Ok(h(1)), assigned()),
        Err(Error::NotAValidator)
    );
    let failure = || Error::Chain("down".to_string());
    assert_eq!(
        validator.start_validating_chunk(Err(failure()), Ok(h(1)), assigned()),
        Err(failure())
    );
    assert_eq!(
        validator.start_validating_chunk(Ok(true), Err(failure()), assigned()),
        Err(failure())
    );
    assert_eq!(
        validator.start_validating_chunk(Ok(true), Ok(h(1)), Err(failure())),
        Err(failure())
    );
}

#[test]
fn validators_of_a_chunk_are_asked_for_by_its_header() {
    let question = witness_question(&chunk(1, h(9)));
    assert_eq!(question.prev_block_hash, h(9));
    assert_eq!((question.shard_id, question.height), (0, 40));
}

#[test]
fn only_a_faulty_witness_bans_its_sender() {
    let peer = PeerId(PublicKey([4; 32]));
    let faulty = || Err(Error::InvalidChunkStateWitness(WitnessFault::InvalidSignature));
    assert_eq!(ChunkValidator::validation_finished(Ok(()), peer), ValidationOutcome::Endorse);
    assert_eq!(
        ChunkValidator::validation_finished(faulty(), peer),
        ValidationOutcome::BanPeer {
            peer_id: peer,
            ban_reason: ReasonForBan::BadChunkStateWitness,
        }
    );
    let reported = Error::InvalidChunkStateWitness(WitnessFault::Reported("lie".to_string()));
    assert_eq!(
        ChunkValidator::validation_finished(Err(reported.clone()), peer),
        ChunkValidator::validation_finished(faulty(), peer)
    );
    assert_eq!(
        Client::witness_processed(&Err(reported), peer),
        Some((peer, ReasonForBan::BadChunkStateWitness))
    );
    assert_eq!(
        ChunkValidator::validation_finished(Err(Error::NotAValidator), peer),
        ValidationOutcome::Ignore
    );
    assert_eq!(
        Client::witness_processed(&faulty(), peer),
        Some((peer, ReasonForBan::BadChunkStateWitness))
    );
    assert_eq!(Client::witness_processed(&Err(Error::Other("x".to_string())), peer), None);
    assert_eq!(Client::witness_processed(&Ok(()), peer), None);
}

#[test]
fn first_chunk_after_genesis_is_endorsed_unseen() {
    let client = |signer: Option<String>| Client {
        validator_signer: signer.clone(),
        chunk_validator: ChunkValidator::new(signer),
    };
    let genesis = || Ok(chunk(1, CryptoHash::default()));
    assert_eq!(
        client(name("me")).process_chunk_state_witness(genesis()),
        Ok(WitnessAction::Endorse("me".to_string()))
    );
    assert_eq!(
        client(None).process_chunk_state_witness(genesis()),
        Err(Error::NotAChunkValidator)
    );
    assert_eq!(
        client(None).process_chunk_state_witness(Ok(chunk(1, h(1)))),
        Ok(WitnessAction::Validate)
    );
    assert_eq!(
        client(None).process_chunk_state_witness(Err(Error::Chain("gone".to_string()))),
        Err(Error::Chain("gone".to_string()))
    );
}

#[test]
fn hash_index_keeps_the_latest_value() {
    let mut index: HashIndex<u8> = HashIndex::new();
    assert_eq!(index.len(), 0);
    index.insert(h(1), 10);
    index.insert(h(2), 20);
    index.insert(h(1), 11);
    assert_eq!(index.len(), 2);
    assert_eq!(index.get(&h(1)), Some(&11));
    assert!(!index.contains_key(&h(3)));
    assert_eq!(index.remove(&h(1)), Some(11));
    assert_eq!(index.remove(&h(1)), None);
    assert_eq!(index.get(&h(2)), Some(&20));
}
