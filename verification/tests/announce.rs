use near_client::client::actor::ClientActor;
use near_client::client::announce::{
    check_signature_account_announce, AnnounceAccount, AnnounceAccountRoute,
};
use near_client::client::genesis::{wait_until_genesis, Timestamp};
use near_client::client::handler::{HandleStep, NetworkClientResponses};
use near_client::types::{CryptoHash, PeerId, PublicKey, ReasonForBan, Signature};

fn h(n: u8) -> CryptoHash {
    CryptoHash([n; 32])
}

fn key(seed: &str) -> near_crypto::SecretKey {
    near_crypto::SecretKey::from_seed(near_crypto::KeyType::ED25519, seed)
}

fn peer(key: &near_crypto::SecretKey) -> PeerId {
    let mut bytes = [0u8; 32];
    bytes.copy_from_slice(key.public_key().key_data());
    PeerId(PublicKey(bytes))
}

fn sign(key: &near_crypto::SecretKey, hash: &CryptoHash) -> Signature {
    match key.sign(&hash.0) {
        near_crypto::Signature::ED25519(signature) => Signature(signature.to_bytes()),
        _ => panic!("not the curve that was asked for"),
    }
}

// The hash that the network signs over: that of the encoded account, peer and epoch.
fn header_hash(account_id: &str, key: &near_crypto::SecretKey, epoch: &CryptoHash) -> CryptoHash {
    let peer = near_primitives::network::PeerId::new(key.public_key());
    let mut bytes = borsh::to_vec(&account_id.to_string()).unwrap();
    bytes.extend_from_slice(&borsh::to_vec(&peer).unwrap());
    bytes.extend_from_slice(&epoch.0);
    CryptoHash(near_primitives::hash::hash(&bytes).0)
}

// A hop is signed over the hash before it and its own peer.
fn hop(key: &near_crypto::SecretKey, previous: &CryptoHash) -> AnnounceAccountRoute {
    let peer_id = peer(key);
    let hash = CryptoHash(near_primitives::hash::hash(&[previous.0, peer_id.0 .0].concat()).0);
    AnnounceAccountRoute { peer_id, hash, signature: sign(key, &hash) }
}

fn announcement_of(account_id: &str) -> AnnounceAccount {
    let own = key("own");
    let epoch = h(7);
    let hash = header_hash(account_id, &own, &epoch);
    AnnounceAccount::new(account_id.to_string(), epoch, peer(&own), hash, sign(&own, &hash))
}

fn announcement() -> AnnounceAccount {
    announcement_of("test.near")
}

#[test]
fn own_announcement_passes() {
    let announce = announcement();
    assert_eq!(check_signature_account_announce(&announce, true), Ok(()));
    assert_eq!(
        check_signature_account_announce(&announce, false),
        Err(ReasonForBan::InvalidSignature)
    );
}

#[test]
fn hops_are_checked_one_against_the_other() {
    let mut announce = announcement();
    let header = announce.route[0].hash;
    announce.route.push(hop(&key("first"), &header));
    let first = announce.route[1].hash;
    announce.route.push(hop(&key("second"), &first));
    assert_eq!(check_signature_account_announce(&announce, true), Ok(()));
    let signature = announce.route[1].signature;
    announce.route[2].signature = signature;
    assert_eq!(
        check_signature_account_announce(&announce, true),
        Err(ReasonForBan::InvalidSignature)
    );
    announce.route[1].hash = h(1);
    assert_eq!(
        check_signature_account_announce(&announce, true),
        Err(ReasonForBan::InvalidHash)
    );
}

// A hop that leaves out the one before it breaks the chain, and so does one that was taken out.
#[test]
fn hops_cannot_be_left_out() {
    let mut announce = announcement();
    let header = announce.route[0].hash;
    announce.route.push(hop(&key("first"), &header));
    announce.route.push(hop(&key("second"), &header));
    assert_eq!(
        check_signature_account_announce(&announce, true),
        Err(ReasonForBan::InvalidHash)
    );
    let mut announce = announcement();
    announce.route.push(hop(&key("first"), &header));
    let first = announce.route[1].hash;
    announce.route.push(hop(&key("second"), &first));
    announce.route.remove(1);
    assert_eq!(
        check_signature_account_announce(&announce, true),
        Err(ReasonForBan::InvalidHash)
    );
}

// Whether a name could be an account's is not looked at.
#[test]
fn any_name_can_be_announced() {
    let announce = announcement_of("Not An Account");
    assert_eq!(announce.header_hash(), Ok(announce.route[0].hash));
    assert_eq!(check_signature_account_announce(&announce, true), Ok(()));
    assert_eq!(
        check_signature_account_announce(&announce, false),
        Err(ReasonForBan::InvalidSignature)
    );
}

#[test]
fn header_with_another_hash_is_refused() {
    let mut announce = announcement();
    announce.epoch = h(8);
    assert_eq!(
        check_signature_account_announce(&announce, true),
        Err(ReasonForBan::InvalidHash)
    );
    let mut announce = announcement();
    announce.account_id = "Not An Account".to_string();
    assert_eq!(
        check_signature_account_announce(&announce, true),
        Err(ReasonForBan::InvalidHash)
    );
}

#[test]
fn sound_announcement_is_passed_on() {
    assert!(matches!(
        ClientActor::announcement_checked(announcement(), true),
        HandleStep::Forward(announce) if announce == announcement()
    ));
    assert!(matches!(
        ClientActor::announcement_checked(announcement(), false),
        HandleStep::Respond(NetworkClientResponses::Ban {
            ban_reason: ReasonForBan::InvalidSignature
        })
    ));
}

#[test]
fn genesis_is_waited_for_in_whole_seconds() {
    let at = |secs, nanos| Timestamp { secs, nanos };
    assert_eq!(wait_until_genesis(&at(100, 0), &at(90, 0)), Some(10));
    assert_eq!(wait_until_genesis(&at(100, 0), &at(90, 1)), Some(9));
    assert_eq!(wait_until_genesis(&at(100, 500), &at(100, 0)), None);
    assert_eq!(wait_until_genesis(&at(100, 0), &at(100, 0)), None);
    assert_eq!(wait_until_genesis(&at(90, 0), &at(100, 0)), None);
    assert_eq!(wait_until_genesis(&at(1, 0), &at(-1, 999_999_999)), Some(1));
}

// A leap second that has begun still has to pass before the next second of the day.
#[test]
fn genesis_is_waited_for_through_a_leap_second() {
    let at = |secs, nanos| Timestamp { secs, nanos };
    assert_eq!(wait_until_genesis(&at(62, 0), &at(59, 0)), Some(3));
    assert_eq!(wait_until_genesis(&at(62, 0), &at(59, 1_000_000_000)), Some(3));
    assert_eq!(wait_until_genesis(&at(62, 0), &at(59, 1_500_000_000)), Some(2));
    assert_eq!(wait_until_genesis(&at(59, 1_500_000_000), &at(57, 0)), Some(3));
    assert_eq!(wait_until_genesis(&at(59, 1_500_000_000), &at(61, 0)), None);
}

#[test]
fn announcement_is_signed_by_its_account() {
    let announce = announcement();
    let question = announce.signature_question();
    assert_eq!(question.epoch_hash, h(7));
    assert_eq!(question.account_id, "test.near");
    assert_eq!(question.hash, announce.route[0].hash);
    assert_eq!(question.signature, announce.route[0].signature);
}
