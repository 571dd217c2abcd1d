//! Hashes, Merkle trees and signatures, as the network's own crates compute them.
//!
//! The functions that call into such a crate say so; their contracts are taken on trust. The
//! encodings of numbers are computed here.
use vstd::prelude::*;
use vstd::utf8::encode_utf8;
use crate::types::{AccountId, CryptoHash, PeerId, PublicKey, Signature};

verus! {

/// Side on which a neighbour stands in a Merkle path.
#[derive(Clone, Copy, Debug, PartialEq, Eq)]
pub enum Direction {
    Left,
    Right,
}

/// One step of a Merkle path: the neighbour's hash and its side.
#[derive(Clone, Copy, Debug, PartialEq, Eq)]
pub struct MerklePathItem {
    pub hash: CryptoHash,
    pub direction: Direction,
}

/// A signed transaction in its Borsh encoding.
#[derive(Debug, PartialEq, Eq)]
pub struct SignedTransaction {
    pub encoded: Vec<u8>,
}

impl View for SignedTransaction {
    type V = Seq<u8>;

    open spec fn view(&self) -> Seq<u8> {
        self.encoded@
    }
}

impl Clone for SignedTransaction {
    fn clone(&self) -> (r: SignedTransaction)
        ensures
            r@ == self@,
            r.encoded@ == self.encoded@,
    {
        let encoded = self.encoded.clone();
        assert(encoded@ =~= self.encoded@);
        SignedTransaction { encoded }
    }
}

/// The encodings of a list of transactions.
pub open spec fn transactions_view(transactions: Seq<SignedTransaction>) -> Seq<Seq<u8>> {
    transactions.map_values(|t: SignedTransaction| t@)
}

/// The bytes of each hash of a list.
pub open spec fn hashes_view(hashes: Seq<CryptoHash>) -> Seq<Seq<u8>> {
    hashes.map_values(|h: CryptoHash| h.0@)
}

/// The hash of some bytes: what `near_primitives::hash::hash` returns.
pub uninterp spec fn hash_of(data: Seq<u8>) -> Seq<u8>;

/// Calls `near_primitives::hash::hash`. The result depends on the bytes alone.
#[verifier::external_body]
pub(crate) fn hash(data: &Vec<u8>) -> (r: CryptoHash)
    ensures
        r.0@ == hash_of(data@),
{
    CryptoHash(near_primitives::hash::hash(data.as_slice()).0)
}

/// The root of a Merkle tree in which `leaf` stands at the foot of `path`: at each step the hash
/// so far is joined with the neighbour's, the left one first, and hashed again.
pub open spec fn root_along(path: Seq<MerklePathItem>, leaf: Seq<u8>) -> Seq<u8>
    decreases path.len(),
{
    if path.len() == 0 {
        leaf
    } else {
        let below = root_along(path.drop_last(), leaf);
        match path.last().direction {
            Direction::Left => hash_of(path.last().hash.0@ + below),
            Direction::Right => hash_of(below + path.last().hash.0@),
        }
    }
}

/// Calls `near_primitives::merkle::verify_path` with a hash as the item. The item's bytes are
/// hashed to make the leaf, and the path must lead from that leaf to the root.
#[verifier::external_body]
pub(crate) fn verify_path(root: &CryptoHash, path: &Vec<MerklePathItem>, item: &CryptoHash) -> (r:
    bool)
    ensures
        r == (root_along(path@, hash_of(item.0@)) == root.0@),
{
    let path = path.iter().map(
        |step| near_primitives::merkle::MerklePathItem {
            hash: near_primitives::hash::CryptoHash(step.hash.0),
            direction: match step.direction {
                Direction::Left => near_primitives::merkle::Direction::Left,
                Direction::Right => near_primitives::merkle::Direction::Right,
            },
        },
    ).collect();
    let item = near_primitives::hash::CryptoHash(item.0);
    near_primitives::merkle::verify_path(near_primitives::hash::CryptoHash(root.0), &path, &item)
}

/// The level of a Merkle tree above a given one: neighbours are joined and hashed, and a last node
/// without a neighbour moves up as it is.
pub open spec fn level_above(nodes: Seq<Seq<u8>>) -> Seq<Seq<u8>> {
    Seq::new(
        (nodes.len() + 1) as nat / 2,
        |i: int|
            if 2 * i + 1 < nodes.len() {
                hash_of(nodes[2 * i] + nodes[2 * i + 1])
            } else {
                nodes[2 * i]
            },
    )
}

/// The root above the nodes of a level.
pub open spec fn root_above(nodes: Seq<Seq<u8>>) -> Seq<u8>
    decreases nodes.len(),
{
    if nodes.len() <= 1 {
        nodes[0]
    } else {
        root_above(level_above(nodes))
    }
}

/// The root of the Merkle tree that has these leaves. A tree without leaves has the zero hash.
pub open spec fn merkle_root_of_leaves(leaves: Seq<Seq<u8>>) -> Seq<u8> {
    if leaves.len() == 0 {
        Seq::new(32, |i: int| 0u8)
    } else {
        root_above(leaves)
    }
}

/// The root of the Merkle tree over a list of hashes, each of which is hashed again to make its
/// leaf.
pub open spec fn merkle_root_of_hashes(hashes: Seq<Seq<u8>>) -> Seq<u8> {
    merkle_root_of_leaves(hashes.map_values(|h: Seq<u8>| hash_of(h)))
}

/// Calls `near_primitives::merkle::merklize` on a list of hashes and hands back the root of the
/// tree that it builds, level by level.
#[verifier::external_body]
pub(crate) fn merklize_hashes(hashes: &Vec<CryptoHash>) -> (r: CryptoHash)
    ensures
        r.0@ == merkle_root_of_hashes(hashes_view(hashes@)),
{
    let items: Vec<near_primitives::hash::CryptoHash> = hashes.iter().map(
        |h| near_primitives::hash::CryptoHash(h.0),
    ).collect();
    CryptoHash(near_primitives::merkle::merklize(&items).0.0)
}

/// The leaf that a transaction makes in a Merkle tree: the hash that
/// `near_primitives::hash::CryptoHash::hash_borsh` gives for the transaction that
/// `borsh::from_slice` reads from these bytes, or nothing where the bytes stand for no transaction.
pub uninterp spec fn transaction_leaf(encoded: Seq<u8>) -> Option<Seq<u8>>;

/// Every one of some encodings stands for a transaction.
pub open spec fn all_transactions(encoded: Seq<Seq<u8>>) -> bool {
    forall|i: int| 0 <= i < encoded.len() ==> transaction_leaf(#[trigger] encoded[i]) is Some
}

/// The root of the Merkle tree over a list of encoded transactions, or nothing where one of the
/// encodings stands for no transaction.
pub open spec fn merkle_root_of_transactions(encoded: Seq<Seq<u8>>) -> Option<Seq<u8>> {
    if all_transactions(encoded) {
        Some(merkle_root_of_leaves(encoded.map_values(|t: Seq<u8>| transaction_leaf(t)->0)))
    } else {
        None
    }
}

/// Calls `near_primitives::merkle::merklize` on a list of transactions, each read back from its
/// Borsh encoding, and hands back the root of the tree that it builds, level by level. There is no
/// root where some encoding cannot be read.
#[verifier::external_body]
pub(crate) fn merklize_transactions(transactions: &Vec<SignedTransaction>) -> (r: Option<
    CryptoHash,
>)
    ensures
        (match r {
            Some(root) => {
                let encoded = transactions_view(transactions@);
                &&& all_transactions(encoded)
                &&& root.0@ == merkle_root_of_leaves(
                    encoded.map_values(|t: Seq<u8>| transaction_leaf(t)->0),
                )
            },
            None => exists|i: int|
                0 <= i < transactions@.len() && transaction_leaf(
                    #[trigger] transactions_view(transactions@)[i],
                ) is None,
        }),
{
    let items: Result<Vec<near_primitives::transaction::SignedTransaction>, _> =
        transactions.iter().map(|t| borsh::from_slice(&t.encoded)).collect();
    match items {
        Ok(items) => Some(CryptoHash(near_primitives::merkle::merklize(&items).0.0)),
        Err(_) => None,
    }
}

/// Whether a signature of some bytes holds under a public key: what
/// `near_crypto::Signature::verify` returns.
pub uninterp spec fn signature_holds(
    signature: Seq<u8>,
    data: Seq<u8>,
    public_key: Seq<u8>,
) -> bool;

/// Calls `near_crypto::Signature::verify` with an Ed25519 signature and key. The result depends
/// on the signature, the bytes and the key alone.
#[verifier::external_body]
pub(crate) fn verify(data: &CryptoHash, signature: &Signature, public_key: &PublicKey) -> (r: bool)
    ensures
        r == signature_holds(signature.0@, data.0@, public_key.0@),
{
    let key = near_crypto::PublicKey::ED25519(near_crypto::ED25519PublicKey(public_key.0));
    match near_crypto::Signature::from_parts(near_crypto::KeyType::ED25519, &signature.0) {
        Ok(signature) => signature.verify(&data.0, &key),
        Err(_) => false,
    }
}

/// A name is short enough to have an encoding.
pub open spec fn name_fits(account_id: Seq<char>) -> bool {
    encode_utf8(account_id).len() <= u32::MAX
}

/// The hash that an announcement of an account is signed over: that of the name with its length in
/// front, the kind of the peer's key, the key, and the epoch.
pub open spec fn announcement_hash(
    account_id: Seq<char>,
    peer_id: Seq<u8>,
    epoch: Seq<u8>,
) -> Seq<u8> {
    let name = encode_utf8(account_id);
    hash_of(le_bytes_u32(name.len() as u32) + name + seq![0u8] + peer_id + epoch)
}

/// Calls `near_primitives::network::AnnounceAccount::build_header_hash`, which hashes the Borsh
/// encodings of the account's name, the peer's Ed25519 key and the epoch, one behind the other.
/// Any name will do that has an encoding.
#[verifier::external_body]
#[allow(deprecated)]
pub(crate) fn build_header_hash(account_id: &AccountId, peer_id: &PeerId, epoch: &CryptoHash) -> (r:
    CryptoHash)
    requires
        name_fits(account_id@),
    ensures
        r.0@ == announcement_hash(account_id@, peer_id.0.0@, epoch.0@),
{
    let key = near_crypto::PublicKey::ED25519(near_crypto::ED25519PublicKey(peer_id.0.0));
    let peer = near_primitives::network::PeerId::new(key);
    let epoch = near_primitives::types::EpochId(near_primitives::hash::CryptoHash(epoch.0));
    let account = near_primitives::types::AccountId::new_unvalidated(account_id.clone());
    let hash =
        near_primitives::network::AnnounceAccount::build_header_hash(&account, &peer, &epoch);
    CryptoHash(hash.0)
}

/// The four bytes of a number, the lowest first.
pub open spec fn le_bytes_u32(value: u32) -> Seq<u8> {
    Seq::new(4, |i: int| byte_of(value as int, i))
}

/// The eight bytes of a number, the lowest first.
pub open spec fn le_bytes_u64(value: u64) -> Seq<u8> {
    Seq::new(8, |i: int| byte_of(value as int, i))
}

/// Byte `i` of a number, counted from the lowest.
pub open spec fn byte_of(value: int, i: int) -> u8
    decreases i,
{
    if i <= 0 {
        (value % 256) as u8
    } else {
        byte_of(value / 256, i - 1)
    }
}

/// The Borsh encoding of a `u32`: four bytes, the lowest first.
pub fn encode_u32(value: u32) -> (r: Vec<u8>)
    ensures
        r@ == le_bytes_u32(value),
{
    let mut bytes: Vec<u8> = Vec::new();
    append_bytes_of(&mut bytes, value as u64, 4);
    assert(bytes@ =~= le_bytes_u32(value));
    bytes
}

/// The Borsh encoding of a `u64`: eight bytes, the lowest first.
pub fn encode_u64(value: u64) -> (r: Vec<u8>)
    ensures
        r@ == le_bytes_u64(value),
{
    let mut bytes: Vec<u8> = Vec::new();
    append_bytes_of(&mut bytes, value, 8);
    assert(bytes@ =~= le_bytes_u64(value));
    bytes
}

/// Appends the lowest bytes of a number, the lowest first.
fn append_bytes_of(bytes: &mut Vec<u8>, value: u64, count: usize)
    ensures
        final(bytes)@ == old(bytes)@ + Seq::new(count as nat, |i: int| byte_of(value as int, i)),
{
    let ghost before = bytes@;
    let mut rest: u64 = value;
    let mut n: usize = 0;
    while n < count
        invariant
            n <= count,
            bytes@ == before + Seq::new(n as nat, |i: int| byte_of(value as int, i)),
            forall|k: int| 0 <= k ==> byte_of(rest as int, k) == #[trigger] byte_of(
                value as int,
                n + k,
            ),
        decreases count - n,
    {
        assert(byte_of(rest as int, 0) == byte_of(value as int, n + 0));
        bytes.push((rest % 256) as u8);
        assert forall|k: int| 0 <= k implies byte_of(rest as int / 256, k) == #[trigger] byte_of(
            value as int,
            n + 1 + k,
        ) by {
            assert(byte_of(rest as int, k + 1) == byte_of(value as int, n + (k + 1)));
        }
        rest = rest / 256;
        n += 1;
        assert(bytes@ =~= before + Seq::new(n as nat, |i: int| byte_of(value as int, i)));
    }
}

/// A hash in letters and digits: what `near_primitives::hash::CryptoHash` is formatted as.
pub uninterp spec fn hash_text(hash: Seq<u8>) -> Seq<char>;

/// Calls `to_string` on a `near_primitives::hash::CryptoHash`, which writes the hash in base 58.
/// The text depends on the bytes of the hash alone.
#[verifier::external_body]
pub(crate) fn hash_to_string(hash: &CryptoHash) -> (r: String)
    ensures
        r@ == hash_text(hash.0@),
{
    near_primitives::hash::CryptoHash(hash.0).to_string()
}

/// The bytes of a number, each worth as much as its place says, add up to the number again.
pub proof fn law_bytes_add_up_to_the_number(small: u32, large: u64)
    ensures
        le_bytes_u32(small).len() == 4,
        small == le_bytes_u32(small)[0] + 0x100 * le_bytes_u32(small)[1] + 0x1_0000
            * le_bytes_u32(small)[2] + 0x100_0000 * le_bytes_u32(small)[3],
        le_bytes_u64(large).len() == 8,
        large == le_bytes_u64(large)[0] + 0x100 * le_bytes_u64(large)[1] + 0x1_0000
            * le_bytes_u64(large)[2] + 0x100_0000 * le_bytes_u64(large)[3] + 0x1_0000_0000
            * le_bytes_u64(large)[4] + 0x100_0000_0000 * le_bytes_u64(large)[5]
            + 0x1_0000_0000_0000 * le_bytes_u64(large)[6] + 0x100_0000_0000_0000
            * le_bytes_u64(large)[7],
{
    reveal_with_fuel(byte_of, 8);
}

/// A path leads from the leaf to the root step by step: without a step the leaf is the root, and a
/// further step joins what was reached with the neighbour, the left one first, and hashes it.
pub proof fn law_path_joins_with_each_neighbour(
    path: Seq<MerklePathItem>,
    hash: CryptoHash,
    leaf: Seq<u8>,
)
    ensures
        root_along(Seq::empty(), leaf) == leaf,
        root_along(path.push(MerklePathItem { hash, direction: Direction::Left }), leaf)
            == hash_of(hash.0@ + root_along(path, leaf)),
        root_along(path.push(MerklePathItem { hash, direction: Direction::Right }), leaf)
            == hash_of(root_along(path, leaf) + hash.0@),
{
    assert(path.push(MerklePathItem { hash, direction: Direction::Left }).drop_last() =~= path);
    assert(path.push(MerklePathItem { hash, direction: Direction::Right }).drop_last() =~= path);
}

/// Lists of hashes and of transactions are seen as the bytes of each, in order.
pub proof fn law_lists_are_seen_as_their_bytes(
    hashes: Seq<CryptoHash>,
    transactions: Seq<SignedTransaction>,
)
    ensures
        hashes_view(hashes).len() == hashes.len(),
        forall|i: int| 0 <= i < hashes.len() ==> #[trigger] hashes_view(hashes)[i] == hashes[i].0@,
        transactions_view(transactions).len() == transactions.len(),
        forall|i: int|
            0 <= i < transactions.len() ==> #[trigger] transactions_view(transactions)[i]
                == transactions[i].encoded@,
{
}

/// In a tree over two leaves, the path of either leaf is the other one, and leads to the root. A
/// tree over one leaf has that leaf for its root.
pub proof fn law_neighbours_are_each_others_path(left: CryptoHash, right: CryptoHash)
    ensures
        merkle_root_of_leaves(seq![left.0@]) == left.0@,
        merkle_root_of_leaves(seq![left.0@, right.0@]) == root_along(
            seq![MerklePathItem { hash: right, direction: Direction::Right }],
            left.0@,
        ),
        merkle_root_of_leaves(seq![left.0@, right.0@]) == root_along(
            seq![MerklePathItem { hash: left, direction: Direction::Left }],
            right.0@,
        ),
{
    let leaves = seq![left.0@, right.0@];
    let above = level_above(leaves);
    assert(above.len() == 1);
    assert(above[0] == hash_of(left.0@ + right.0@));
    reveal_with_fuel(root_above, 2);
    reveal_with_fuel(root_along, 2);
    assert(seq![MerklePathItem { hash: right, direction: Direction::Right }].drop_last()
        =~= Seq::empty());
    assert(seq![MerklePathItem { hash: left, direction: Direction::Left }].drop_last()
        =~= Seq::empty());
}

} // verus!
