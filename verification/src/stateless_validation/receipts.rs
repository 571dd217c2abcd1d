//! Receipts that a chunk applies, and the proofs that the right ones were taken.
use vstd::prelude::*;
use crate::crypto::{
    encode_u32, encode_u64, hash, hash_of, le_bytes_u32, le_bytes_u64, root_along, verify_path,
    MerklePathItem,
};
use crate::stateless_validation::errors::{Error, WitnessFault};
use crate::stateless_validation::shuffle::joined;
use crate::types::{CryptoHash, ShardChunkHeader, ShardId};

verus! {

/// A receipt in its Borsh encoding.
#[derive(Debug, PartialEq, Eq)]
pub struct Receipt {
    pub encoded: Vec<u8>,
}

impl View for Receipt {
    type V = Seq<u8>;

    open spec fn view(&self) -> Seq<u8> {
        self.encoded@
    }
}

impl Clone for Receipt {
    fn clone(&self) -> (r: Receipt)
        ensures
            r@ == self@,
            r.encoded@ == self.encoded@,
    {
        let encoded = self.encoded.clone();
        assert(encoded@ =~= self.encoded@);
        Receipt { encoded }
    }
}

/// The encodings of a list of receipts.
pub open spec fn receipts_view(receipts: Seq<Receipt>) -> Seq<Seq<u8>> {
    receipts.map_values(|r: Receipt| r@)
}

/// The Borsh encoding of a list of receipts: their number, then each receipt.
pub open spec fn receipts_encoding(receipts: Seq<Seq<u8>>) -> Seq<u8> {
    le_bytes_u32(receipts.len() as u32) + joined(receipts)
}

/// The Borsh encoding of the receipts that one chunk sends to one shard.
pub open spec fn receipt_list_encoding(to_shard_id: ShardId, receipts: Seq<Seq<u8>>) -> Seq<u8> {
    le_bytes_u64(to_shard_id) + receipts_encoding(receipts)
}

fn append_bytes(to: &mut Vec<u8>, bytes: &Vec<u8>)
    ensures
        final(to)@ == old(to)@ + bytes@,
{
    let ghost before = to@;
    let mut i: usize = 0;
    while i < bytes.len()
        invariant
            i <= bytes@.len(),
            to@ == before + bytes@.take(i as int),
        decreases bytes@.len() - i,
    {
        to.push(bytes[i]);
        i += 1;
        assert(bytes@.take(i as int) =~= bytes@.take(i - 1).push(bytes@[i - 1]));
    }
    assert(bytes@.take(i as int) =~= bytes@);
}

fn append_receipts_encoding(to: &mut Vec<u8>, receipts: &Vec<Receipt>)
    requires
        receipts@.len() <= u32::MAX,
    ensures
        final(to)@ == old(to)@ + receipts_encoding(receipts_view(receipts@)),
{
    let ghost before = to@;
    let ghost views = receipts_view(receipts@);
    let count = encode_u32(receipts.len() as u32);
    append_bytes(to, &count);
    let mut i: usize = 0;
    assert(views.take(0) =~= Seq::empty());
    assert(before + count@ + joined(views.take(0)) =~= before + count@);
    while i < receipts.len()
        invariant
            i <= receipts@.len(),
            views == receipts_view(receipts@),
            to@ == before + count@ + joined(views.take(i as int)),
        decreases receipts@.len() - i,
    {
        append_bytes(to, &receipts[i].encoded);
        i += 1;
        proof {
            assert(views.take(i as int).drop_last() =~= views.take(i - 1));
            assert(to@ =~= before + count@ + joined(views.take(i as int)));
        }
    }
    assert(views.take(i as int) =~= views);
    assert(to@ =~= before + receipts_encoding(views));
}

/// The hash of a list of receipts in its Borsh encoding.
pub fn hash_receipts(receipts: &Vec<Receipt>) -> (r: CryptoHash)
    requires
        receipts@.len() <= u32::MAX,
    ensures
        r.0@ == hash_of(receipts_encoding(receipts_view(receipts@))),
{
    let mut bytes: Vec<u8> = Vec::new();
    append_receipts_encoding(&mut bytes, receipts);
    assert(bytes@ =~= receipts_encoding(receipts_view(receipts@)));
    hash(&bytes)
}

/// Between which shards some receipts travel, and where they stand among all that the source
/// chunk sends.
#[derive(Debug, PartialEq, Eq)]
pub struct ShardProof {
    pub from_shard_id: ShardId,
    pub to_shard_id: ShardId,
    pub proof: Vec<MerklePathItem>,
}

/// Receipts together with the proof that a chunk sends them.
#[derive(Debug, PartialEq, Eq)]
pub struct ReceiptProof {
    pub receipts: Vec<Receipt>,
    pub shard_proof: ShardProof,
}

impl ReceiptProof {
    /// The receipts are few enough to have an encoding.
    pub open spec fn encodable(self) -> bool {
        self.receipts@.len() <= u32::MAX
    }

    /// The receipts stand, for their target shard, in the tree that has this root.
    pub open spec fn proves(self, receipt_root: CryptoHash) -> bool {
        let list = receipt_list_encoding(
            self.shard_proof.to_shard_id,
            receipts_view(self.receipts@),
        );
        root_along(self.shard_proof.proof@, hash_of(hash_of(list))) == receipt_root.0@
    }

    /// Tells whether the receipts stand in the tree that has this root.
    pub fn verify_against_receipt_root(&self, receipt_root: CryptoHash) -> (r: bool)
        requires
            self.encodable(),
        ensures
            r == self.proves(receipt_root),
    {
        let mut bytes = encode_u64(self.shard_proof.to_shard_id);
        append_receipts_encoding(&mut bytes, &self.receipts);
        let receipt_hash = hash(&bytes);
        verify_path(&receipt_root, &self.shard_proof.proof, &receipt_hash)
    }
}

/// What is wrong with the proof for the receipts that a chunk sends to a shard.
pub open spec fn receipt_proof_fault(
    receipt_proof: ReceiptProof,
    from_chunk: ShardChunkHeader,
    target_chunk_shard_id: ShardId,
) -> Option<WitnessFault> {
    let chunk_hash = from_chunk.inner.chunk_hash;
    if receipt_proof.shard_proof.from_shard_id != from_chunk.inner.shard_id {
        Some(
            WitnessFault::ReceiptProofFromShard {
                chunk_hash,
                from_shard_id: receipt_proof.shard_proof.from_shard_id,
                expected_shard: from_chunk.inner.shard_id,
            },
        )
    } else if receipt_proof.shard_proof.to_shard_id != target_chunk_shard_id {
        Some(
            WitnessFault::ReceiptProofToShard {
                chunk_hash,
                to_shard_id: receipt_proof.shard_proof.to_shard_id,
                expected_shard: target_chunk_shard_id,
            },
        )
    } else if !receipt_proof.proves(from_chunk.inner.prev_outgoing_receipts_root) {
        Some(WitnessFault::ReceiptProofPath { chunk_hash })
    } else {
        None
    }
}

/// Success where there is no fault, and otherwise the error that blames the witness for it.
pub open spec fn verdict(fault: Option<WitnessFault>) -> Result<(), Error> {
    match fault {
        None => Ok(()),
        Some(fault) => Err(Error::InvalidChunkStateWitness(fault)),
    }
}

/// Checks the proof for the receipts that a chunk sends to a shard: that it names the right
/// shards, and that it leads to the root that the chunk commits to.
pub fn validate_receipt_proof(
    receipt_proof: &ReceiptProof,
    from_chunk: &ShardChunkHeader,
    target_chunk_shard_id: ShardId,
) -> (r: Result<(), Error>)
    requires
        receipt_proof.encodable(),
    ensures
        r == verdict(receipt_proof_fault(*receipt_proof, *from_chunk, target_chunk_shard_id)),
{
    let chunk_hash = from_chunk.inner.chunk_hash;
    // The receipts must match the root of the chunk's outgoing receipts, so a false source shard
    // cannot be passed off.
    if receipt_proof.shard_proof.from_shard_id != from_chunk.inner.shard_id {
        return Err(
            Error::InvalidChunkStateWitness(
                WitnessFault::ReceiptProofFromShard {
                    chunk_hash,
                    from_shard_id: receipt_proof.shard_proof.from_shard_id,
                    expected_shard: from_chunk.inner.shard_id,
                },
            ),
        );
    }
    // The target shard is part of what the tree is built over.
    if receipt_proof.shard_proof.to_shard_id != target_chunk_shard_id {
        return Err(
            Error::InvalidChunkStateWitness(
                WitnessFault::ReceiptProofToShard {
                    chunk_hash,
                    to_shard_id: receipt_proof.shard_proof.to_shard_id,
                    expected_shard: target_chunk_shard_id,
                },
            ),
        );
    }
    if !receipt_proof.verify_against_receipt_root(from_chunk.inner.prev_outgoing_receipts_root) {
        return Err(
            Error::InvalidChunkStateWitness(WitnessFault::ReceiptProofPath { chunk_hash }),
        );
    }
    Ok(())
}

/// The receipts of a list are seen as the bytes of each, in order.
pub proof fn law_receipts_are_seen_as_their_bytes(receipts: Seq<Receipt>, i: int)
    requires
        0 <= i < receipts.len(),
    ensures
        receipts_view(receipts).len() == receipts.len(),
        receipts_view(receipts)[i] == receipts[i].encoded@,
{
}

/// A list of receipts is encoded as its length in four bytes, the lowest first, and then one
/// receipt after the other. In front of it, where the receipts are meant for one shard, stands that
/// shard in eight bytes.
pub proof fn law_receipts_follow_their_number(
    to_shard_id: ShardId,
    receipts: Seq<Seq<u8>>,
    next: Seq<u8>,
)
    requires
        receipts.len() < u32::MAX,
    ensures
        receipts_encoding(receipts).len() >= 4,
        receipts_encoding(receipts).take(4) == le_bytes_u32(receipts.len() as u32),
        receipts_encoding(Seq::empty()).len() == 4,
        receipts_encoding(receipts.push(next)).skip(4) == receipts_encoding(receipts).skip(4)
            + next,
        receipt_list_encoding(to_shard_id, receipts) == le_bytes_u64(to_shard_id)
            + receipts_encoding(receipts),
{
    let more = receipts.push(next);
    assert(more.drop_last() =~= receipts);
    assert(receipts_encoding(receipts).take(4) =~= le_bytes_u32(receipts.len() as u32));
    assert(receipts_encoding(receipts).skip(4) =~= joined(receipts));
    assert(receipts_encoding(more).skip(4) =~= joined(more));
}

/// A proof is without fault exactly if it names the shard of the chunk that sends and the shard
/// that is sent to, and its path leads from the receipts to the root that the chunk commits to.
pub proof fn law_sound_proof_names_both_shards_and_leads_to_the_root(
    receipt_proof: ReceiptProof,
    from_chunk: ShardChunkHeader,
    target: ShardId,
)
    ensures
        receipt_proof_fault(receipt_proof, from_chunk, target) is None <==> {
            let proof_of = receipt_proof.shard_proof;
            let list = le_bytes_u64(proof_of.to_shard_id) + receipts_encoding(
                receipts_view(receipt_proof.receipts@),
            );
            &&& proof_of.from_shard_id == from_chunk.inner.shard_id
            &&& proof_of.to_shard_id == target
            &&& root_along(proof_of.proof@, hash_of(hash_of(list)))
                == from_chunk.inner.prev_outgoing_receipts_root.0@
        },
{
}

/// What is wrong with a proof is looked for in a fixed order: the shard that sends, the shard that
/// is sent to, the path. The fault names the chunk, and a wrong shard beside the right one.
pub proof fn law_first_wrong_part_of_a_proof_is_the_fault(
    receipt_proof: ReceiptProof,
    from_chunk: ShardChunkHeader,
    target: ShardId,
)
    ensures
        ({
            let proof_of = receipt_proof.shard_proof;
            let chunk = from_chunk.inner;
            match receipt_proof_fault(receipt_proof, from_chunk, target) {
                Some(WitnessFault::ReceiptProofFromShard {
                    chunk_hash,
                    from_shard_id,
                    expected_shard,
                }) => {
                    &&& proof_of.from_shard_id != chunk.shard_id
                    &&& chunk_hash == chunk.chunk_hash
                    &&& from_shard_id == proof_of.from_shard_id
                    &&& expected_shard == chunk.shard_id
                },
                Some(WitnessFault::ReceiptProofToShard {
                    chunk_hash,
                    to_shard_id,
                    expected_shard,
                }) => {
                    &&& proof_of.from_shard_id == chunk.shard_id
                    &&& proof_of.to_shard_id != target
                    &&& chunk_hash == chunk.chunk_hash
                    &&& to_shard_id == proof_of.to_shard_id
                    &&& expected_shard == target
                },
                Some(WitnessFault::ReceiptProofPath { chunk_hash }) => {
                    &&& proof_of.from_shard_id == chunk.shard_id
                    &&& proof_of.to_shard_id == target
                    &&& chunk_hash == chunk.chunk_hash
                },
                Some(_) => false,
                None => true,
            }
        }),
{
}

/// A check succeeds exactly if nothing is at fault, and otherwise blames the witness for that very
/// fault.
pub proof fn law_fault_is_the_verdict(fault: Option<WitnessFault>)
    ensures
        verdict(fault) is Ok <==> fault is None,
        fault matches Some(reason) ==> verdict(fault) == Err::<(), Error>(
            Error::InvalidChunkStateWitness(reason),
        ),
{
}

} // verus!
