//! The receipts that the chunks of a chunk's history send to it, in the order in which they are
//! applied.
use vstd::prelude::*;
use vstd::seq_lib::lemma_multiset_commutative;
use vstd::set_lib::{lemma_set_disjoint_lens, lemma_subset_equality};
use crate::hash_index::HashIndex;
use crate::stateless_validation::errors::{Error, WitnessFault};
use crate::stateless_validation::receipts::{
    receipt_proof_fault, receipts_view, validate_receipt_proof, Receipt, ReceiptProof,
};
use crate::stateless_validation::shuffle::{
    is_shuffle_of, joined, lemma_shuffle_keeps_items, shuffled,
};
use crate::types::{Block, CryptoHash, ShardChunkHeader, ShardId};

verus! {

/// The hashes of the new chunks among the first `n` chunks of a block.
pub open spec fn new_chunks_before(block: Block, n: int) -> Seq<CryptoHash>
    decreases n,
{
    if n <= 0 {
        Seq::empty()
    } else if block.chunks@[n - 1].is_new_chunk_at(block.header.height) {
        new_chunks_before(block, n - 1).push(block.chunks@[n - 1].inner.chunk_hash)
    } else {
        new_chunks_before(block, n - 1)
    }
}

/// The hashes of a block's new chunks, by shard.
pub open spec fn new_chunks(block: Block) -> Seq<CryptoHash> {
    new_chunks_before(block, block.chunks@.len() as int)
}

/// The hashes of the new chunks of some blocks, block by block.
pub open spec fn new_chunks_of_all(blocks: Seq<Block>) -> Seq<CryptoHash>
    decreases blocks.len(),
{
    if blocks.len() == 0 {
        Seq::empty()
    } else {
        new_chunks_of_all(blocks.drop_last()) + new_chunks(blocks.last())
    }
}

/// There is a shuffle of each block's new chunks.
pub open spec fn shuffles_fit(shuffles: Seq<Vec<usize>>, blocks: Seq<Block>) -> bool {
    &&& shuffles.len() == blocks.len()
    &&& forall|i: int|
        0 <= i < blocks.len() ==> is_shuffle_of(
            (#[trigger] shuffles[i])@,
            new_chunks(blocks[i]).len(),
        )
}

/// In which order are the receipts of this block applied, which has this many new chunks?
#[derive(Clone, Copy, Debug, PartialEq, Eq)]
pub struct ShuffleQuestion {
    pub block_hash: CryptoHash,
    pub num_new_chunks: usize,
}

/// Questions ask for the shuffle of each block's new chunks.
pub open spec fn asks_shuffles(questions: Seq<ShuffleQuestion>, blocks: Seq<Block>) -> bool {
    &&& questions.len() == blocks.len()
    &&& forall|i: int|
        0 <= i < blocks.len() ==> {
            &&& (#[trigger] questions[i]).block_hash == blocks[i].header.hash
            &&& questions[i].num_new_chunks == new_chunks(blocks[i]).len()
        }
}

fn count_new_chunks(block: &Block) -> (r: usize)
    ensures
        r == new_chunks(*block).len(),
{
    let mut count: usize = 0;
    let mut i: usize = 0;
    while i < block.chunks.len()
        invariant
            i <= block.chunks@.len(),
            count == new_chunks_before(*block, i as int).len(),
            count <= i,
        decreases block.chunks@.len() - i,
    {
        if block.chunks[i].is_new_chunk(block.header.height) {
            count += 1;
        }
        i += 1;
    }
    count
}

/// What to ask in order to know how receipts from some blocks are shuffled.
pub fn shuffle_questions(blocks: &Vec<Block>) -> (r: Vec<ShuffleQuestion>)
    ensures
        asks_shuffles(r@, blocks@),
        r@.len() == blocks@.len(),
        forall|i: int|
            0 <= i < r@.len() ==> {
                &&& (#[trigger] r@[i]).block_hash == blocks@[i].header.hash
                &&& r@[i].num_new_chunks == new_chunks(blocks@[i]).len()
            },
{
    let mut questions: Vec<ShuffleQuestion> = Vec::new();
    let mut i: usize = 0;
    while i < blocks.len()
        invariant
            i <= blocks@.len(),
            asks_shuffles(questions@, blocks@.take(i as int)),
        decreases blocks@.len() - i,
    {
        let ghost before = questions@;
        questions.push(
            ShuffleQuestion {
                block_hash: blocks[i].header.hash,
                num_new_chunks: count_new_chunks(&blocks[i]),
            },
        );
        i += 1;
        assert forall|k: int| 0 <= k < i implies {
            &&& (#[trigger] questions@[k]).block_hash == blocks@.take(i as int)[k].header.hash
            &&& questions@[k].num_new_chunks == new_chunks(blocks@.take(i as int)[k]).len()
        } by {
            if k < i - 1 {
                assert(questions@[k] == before[k]);
                assert(blocks@.take(i - 1)[k] == blocks@[k]);
            }
        }
    }
    assert(blocks@.take(i as int) =~= blocks@);
    questions
}

/// Each of some chunks sends few enough receipts for them to have an encoding.
pub open spec fn chunks_encodable(
    proofs: Map<CryptoHash, ReceiptProof>,
    chunks: Seq<CryptoHash>,
) -> bool {
    forall|i: int|
        0 <= i < chunks.len() && proofs.contains_key(#[trigger] chunks[i])
            ==> proofs[chunks[i]].encodable()
}

/// Each new chunk of some blocks sends few enough receipts for them to have an encoding.
pub open spec fn all_encodable(proofs: Map<CryptoHash, ReceiptProof>, blocks: Seq<Block>) -> bool {
    forall|i: int|
        0 <= i < blocks.len() ==> chunks_encodable(proofs, new_chunks(#[trigger] blocks[i]))
}

/// The receipts that a chunk sends, as its proof has them. A chunk without a proof sends none.
pub open spec fn sent_by_chunk(
    proofs: Map<CryptoHash, ReceiptProof>,
    chunk_hash: CryptoHash,
) -> Seq<Seq<u8>> {
    if proofs.contains_key(chunk_hash) {
        receipts_view(proofs[chunk_hash].receipts@)
    } else {
        Seq::empty()
    }
}

/// For each of some chunks, the receipts that it sends.
pub open spec fn sent_by_chunks(
    proofs: Map<CryptoHash, ReceiptProof>,
    chunks: Seq<CryptoHash>,
) -> Seq<Seq<Seq<u8>>> {
    Seq::new(chunks.len(), |i: int| sent_by_chunk(proofs, chunks[i]))
}

/// All receipts that the new chunks of some blocks send, block by block and shard by shard.
pub open spec fn sent_receipts(
    proofs: Map<CryptoHash, ReceiptProof>,
    blocks: Seq<Block>,
) -> Seq<Seq<u8>>
    decreases blocks.len(),
{
    if blocks.len() == 0 {
        Seq::empty()
    } else {
        sent_receipts(proofs, blocks.drop_last()) + joined(
            sent_by_chunks(proofs, new_chunks(blocks.last())),
        )
    }
}

/// The receipts that a block's new chunks send, in a given order of the chunks.
pub open spec fn block_receipts(
    proofs: Map<CryptoHash, ReceiptProof>,
    block: Block,
    order: Seq<usize>,
) -> Seq<Seq<u8>> {
    joined(shuffled(sent_by_chunks(proofs, new_chunks(block)), order))
}

/// The receipts that the new chunks of some blocks send, block by block, and within each block in
/// the order that its shuffle gives.
pub open spec fn receipts_in_order(
    proofs: Map<CryptoHash, ReceiptProof>,
    blocks: Seq<Block>,
    shuffles: Seq<Vec<usize>>,
) -> Seq<Seq<u8>>
    decreases blocks.len(),
{
    if blocks.len() == 0 {
        Seq::empty()
    } else {
        receipts_in_order(proofs, blocks.drop_last(), shuffles) + block_receipts(
            proofs,
            blocks.last(),
            shuffles[blocks.len() - 1]@,
        )
    }
}

/// What is wrong with the proof for the receipts of chunk `n` of a block. A chunk that is not new
/// needs no proof.
pub open spec fn chunk_fault(
    proofs: Map<CryptoHash, ReceiptProof>,
    block: Block,
    n: int,
    target: ShardId,
) -> Option<WitnessFault> {
    let chunk = block.chunks@[n];
    if !chunk.is_new_chunk_at(block.header.height) {
        None
    } else if !proofs.contains_key(chunk.inner.chunk_hash) {
        Some(WitnessFault::MissingSourceReceiptProof { chunk_hash: chunk.inner.chunk_hash })
    } else {
        receipt_proof_fault(proofs[chunk.inner.chunk_hash], chunk, target)
    }
}

/// The first fault among the first `n` chunks of a block.
pub open spec fn fault_before(
    proofs: Map<CryptoHash, ReceiptProof>,
    block: Block,
    n: int,
    target: ShardId,
) -> Option<WitnessFault>
    decreases n,
{
    if n <= 0 {
        None
    } else {
        match fault_before(proofs, block, n - 1, target) {
            Some(fault) => Some(fault),
            None => chunk_fault(proofs, block, n - 1, target),
        }
    }
}

/// The first fault among the chunks of some blocks.
pub open spec fn first_fault(
    proofs: Map<CryptoHash, ReceiptProof>,
    blocks: Seq<Block>,
    target: ShardId,
) -> Option<WitnessFault>
    decreases blocks.len(),
{
    if blocks.len() == 0 {
        None
    } else {
        match first_fault(proofs, blocks.drop_last(), target) {
            Some(fault) => Some(fault),
            None => fault_before(
                proofs,
                blocks.last(),
                blocks.last().chunks@.len() as int,
                target,
            ),
        }
    }
}

/// What is wrong with a set of proofs for the receipts that the chunks of some blocks send to a
/// shard: a fault of some chunk's proof, or else a number of proofs that is not the number of
/// chunks.
pub open spec fn source_receipts_fault(
    proofs: Map<CryptoHash, ReceiptProof>,
    blocks: Seq<Block>,
    target: ShardId,
) -> Option<WitnessFault> {
    match first_fault(proofs, blocks, target) {
        Some(fault) => Some(fault),
        None => if proofs.dom().len() != new_chunks_of_all(blocks).len() {
            Some(
                WitnessFault::TooManyProofs {
                    expected_proofs: new_chunks_of_all(blocks).len() as u128,
                    found: proofs.dom().len() as usize,
                },
            )
        } else {
            None
        },
    }
}

/// A fault of a chunk of an earlier block is the first fault of all the blocks.
proof fn lemma_fault_of_prefix(
    proofs: Map<CryptoHash, ReceiptProof>,
    blocks: Seq<Block>,
    target: ShardId,
    n: int,
)
    requires
        0 <= n <= blocks.len(),
        first_fault(proofs, blocks.take(n), target) is Some,
    ensures
        first_fault(proofs, blocks, target) == first_fault(proofs, blocks.take(n), target),
    decreases blocks.len() - n,
{
    if n < blocks.len() {
        assert(blocks.take(n + 1).drop_last() =~= blocks.take(n));
        lemma_fault_of_prefix(proofs, blocks, target, n + 1);
    } else {
        assert(blocks.take(n) =~= blocks);
    }
}

/// A fault among the first chunks of a block is the first fault of the whole block.
proof fn lemma_fault_before_of_prefix(
    proofs: Map<CryptoHash, ReceiptProof>,
    block: Block,
    target: ShardId,
    n: int,
    m: int,
)
    requires
        0 <= n <= m,
        fault_before(proofs, block, n, target) is Some,
    ensures
        fault_before(proofs, block, m, target) == fault_before(proofs, block, n, target),
    decreases m - n,
{
    if n < m {
        lemma_fault_before_of_prefix(proofs, block, target, n + 1, m);
    }
}

proof fn lemma_new_chunks_bound(block: Block, n: int)
    requires
        0 <= n,
    ensures
        new_chunks_before(block, n).len() <= n,
    decreases n,
{
    if n > 0 {
        lemma_new_chunks_bound(block, n - 1);
    }
}

proof fn lemma_new_chunks_grow(block: Block, n: int, m: int)
    requires
        0 <= n <= m,
    ensures
        new_chunks_before(block, n).is_prefix_of(new_chunks_before(block, m)),
    decreases m - n,
{
    if n < m {
        lemma_new_chunks_grow(block, n, m - 1);
    }
}

fn append_receipts(to: &mut Vec<Receipt>, receipts: &Vec<Receipt>)
    ensures
        receipts_view(final(to)@) == receipts_view(old(to)@) + receipts_view(receipts@),
{
    let ghost before = receipts_view(to@);
    let ghost added = receipts_view(receipts@);
    let mut i: usize = 0;
    assert(before + added.take(0) =~= before);
    while i < receipts.len()
        invariant
            i <= receipts@.len(),
            added == receipts_view(receipts@),
            receipts_view(to@) == before + added.take(i as int),
        decreases receipts@.len() - i,
    {
        let ghost so_far = receipts_view(to@);
        to.push(receipts[i].clone());
        i += 1;
        proof {
            assert(receipts_view(to@) =~= so_far.push(added[i - 1]));
            assert(added.take(i as int) =~= added.take(i - 1).push(added[i - 1]));
            assert(before + added.take(i as int) =~= so_far.push(added[i - 1]));
        }
    }
    assert(added.take(i as int) =~= added);
}

/// `found` holds the proof of each of the chunks.
spec fn are_proofs_of(
    found: Seq<&ReceiptProof>,
    chunks: Seq<CryptoHash>,
    proofs: Map<CryptoHash, ReceiptProof>,
) -> bool {
    &&& found.len() == chunks.len()
    &&& forall|i: int|
        0 <= i < chunks.len() ==> proofs.contains_key(#[trigger] chunks[i]) && *found[i]
            == proofs[chunks[i]]
}

/// Collects the proofs for the receipts of a block's new chunks, and checks each.
fn block_receipt_proofs<'a>(
    source_receipt_proofs: &'a HashIndex<ReceiptProof>,
    block: &Block,
    target_chunk_shard_id: ShardId,
) -> (r: Result<Vec<&'a ReceiptProof>, Error>)
    requires
        chunks_encodable(source_receipt_proofs@, new_chunks(*block)),
    ensures
        ({
            let fault = fault_before(
                source_receipt_proofs@,
                *block,
                block.chunks@.len() as int,
                target_chunk_shard_id,
            );
            match r {
                Ok(found) => fault is None && are_proofs_of(
                    found@,
                    new_chunks(*block),
                    source_receipt_proofs@,
                ),
                Err(error) => fault matches Some(f) && error == Error::InvalidChunkStateWitness(f),
            }
        }),
{
    let ghost proofs = source_receipt_proofs@;
    let ghost target = target_chunk_shard_id;
    let mut found: Vec<&'a ReceiptProof> = Vec::new();
    let mut j: usize = 0;
    while j < block.chunks.len()
        invariant
            j <= block.chunks@.len(),
            proofs == source_receipt_proofs@,
            target == target_chunk_shard_id,
            chunks_encodable(proofs, new_chunks(*block)),
            fault_before(proofs, *block, j as int, target) is None,
            are_proofs_of(found@, new_chunks_before(*block, j as int), proofs),
        decreases block.chunks@.len() - j,
    {
        let chunk = &block.chunks[j];
        let ghost chunks_so_far = new_chunks_before(*block, j as int);
        j += 1;
        if chunk.is_new_chunk(block.header.height) {
            let receipt_proof = match source_receipt_proofs.get(&chunk.inner.chunk_hash) {
                Some(receipt_proof) => receipt_proof,
                None => {
                    proof {
                        lemma_fault_before_of_prefix(
                            proofs,
                            *block,
                            target,
                            j as int,
                            block.chunks@.len() as int,
                        );
                    }
                    return Err(
                        Error::InvalidChunkStateWitness(
                            WitnessFault::MissingSourceReceiptProof {
                                chunk_hash: chunk.inner.chunk_hash,
                            },
                        ),
                    );
                },
            };
            proof {
                lemma_new_chunks_grow(*block, j as int, block.chunks@.len() as int);
                let last = chunks_so_far.len() as int;
                assert(new_chunks_before(*block, j as int)[last] == chunk.inner.chunk_hash);
                assert(new_chunks(*block)[last] == chunk.inner.chunk_hash);
            }
            match validate_receipt_proof(receipt_proof, chunk, target_chunk_shard_id) {
                Ok(()) => {},
                Err(error) => {
                    proof {
                        lemma_fault_before_of_prefix(
                            proofs,
                            *block,
                            target,
                            j as int,
                            block.chunks@.len() as int,
                        );
                    }
                    return Err(error);
                },
            }
            found.push(receipt_proof);
            assert(new_chunks_before(*block, j as int) == chunks_so_far.push(
                chunk.inner.chunk_hash,
            ));
        }
    }
    Ok(found)
}

/// Checks that the proofs are those for the receipts that the new chunks of some blocks send to
/// a shard, one for each such chunk, and takes the receipts out of them.
///
/// The blocks come from the newest to the oldest. Within a block the receipts come chunk by
/// chunk, in the order that the block's shuffle gives.
pub fn validate_source_receipt_proofs(
    source_receipt_proofs: &HashIndex<ReceiptProof>,
    receipt_source_blocks: &Vec<Block>,
    target_chunk_shard_id: ShardId,
    shuffles: &Vec<Vec<usize>>,
) -> (r: Result<Vec<Receipt>, Error>)
    requires
        all_encodable(source_receipt_proofs@, receipt_source_blocks@),
        shuffles_fit(shuffles@, receipt_source_blocks@),
    ensures
        ({
            let fault = source_receipts_fault(
                source_receipt_proofs@,
                receipt_source_blocks@,
                target_chunk_shard_id,
            );
            match r {
                Ok(receipts) => fault is None && receipts_view(receipts@) == receipts_in_order(
                    source_receipt_proofs@,
                    receipt_source_blocks@,
                    shuffles@,
                ),
                Err(error) => fault matches Some(f) && error == Error::InvalidChunkStateWitness(f),
            }
        }),
{
    let ghost proofs = source_receipt_proofs@;
    let ghost target = target_chunk_shard_id;
    let ghost blocks = receipt_source_blocks@;
    let mut receipts_to_apply: Vec<Receipt> = Vec::new();
    let mut expected_proofs_len: u128 = 0;
    let mut i: usize = 0;
    assert(blocks.take(0) =~= Seq::empty());
    assert(receipts_view(receipts_to_apply@) =~= Seq::empty());
    while i < receipt_source_blocks.len()
        invariant
            i <= blocks.len(),
            proofs == source_receipt_proofs@,
            target == target_chunk_shard_id,
            blocks == receipt_source_blocks@,
            all_encodable(proofs, blocks),
            shuffles_fit(shuffles@, blocks),
            first_fault(proofs, blocks.take(i as int), target) is None,
            expected_proofs_len == new_chunks_of_all(blocks.take(i as int)).len(),
            expected_proofs_len <= i * usize::MAX,
            receipts_view(receipts_to_apply@) == receipts_in_order(
                proofs,
                blocks.take(i as int),
                shuffles@,
            ),
        decreases blocks.len() - i,
    {
        let block = &receipt_source_blocks[i];
        proof {
            assert(blocks.take(i + 1).drop_last() =~= blocks.take(i as int));
            assert(blocks.take(i + 1).last() == *block);
            lemma_new_chunks_bound(*block, block.chunks@.len() as int);
            assert(i * usize::MAX + usize::MAX <= u128::MAX && i * usize::MAX + usize::MAX == (i
                + 1) * usize::MAX) by (nonlinear_arith)
                requires
                    i < usize::MAX,
            ;
        }
        let block_receipt_proofs = match block_receipt_proofs(
            source_receipt_proofs,
            block,
            target_chunk_shard_id,
        ) {
            Ok(found) => found,
            Err(error) => {
                proof {
                    lemma_fault_of_prefix(proofs, blocks, target, i + 1);
                }
                return Err(error);
            },
        };
        expected_proofs_len = expected_proofs_len + block_receipt_proofs.len() as u128;

        let order = &shuffles[i];
        let ghost lists = shuffled(sent_by_chunks(proofs, new_chunks(*block)), order@);
        let ghost before = receipts_view(receipts_to_apply@);
        assert(is_shuffle_of(shuffles@[i as int]@, new_chunks(*block).len()));
        let mut k: usize = 0;
        assert(lists.take(0) =~= Seq::empty());
        assert(before + joined(lists.take(0)) =~= before);
        while k < order.len()
            invariant
                k <= order@.len(),
                is_shuffle_of(order@, block_receipt_proofs@.len()),
                are_proofs_of(block_receipt_proofs@, new_chunks(*block), proofs),
                lists == shuffled(sent_by_chunks(proofs, new_chunks(*block)), order@),
                receipts_view(receipts_to_apply@) == before + joined(lists.take(k as int)),
            decreases order@.len() - k,
        {
            let proof_index: usize = order[k];
            append_receipts(&mut receipts_to_apply, &block_receipt_proofs[proof_index].receipts);
            k += 1;
            proof {
                assert(proofs.contains_key(new_chunks(*block)[proof_index as int]));
                assert(lists.take(k as int).drop_last() =~= lists.take(k - 1));
                assert(receipts_view(receipts_to_apply@) =~= before + joined(lists.take(k as int)));
            }
        }
        assert(lists.take(k as int) =~= lists);
        i += 1;
    }
    assert(blocks.take(i as int) =~= blocks);
    let found = source_receipt_proofs.len();
    // There must be no proof beside those for the chunks.
    if found as u128 != expected_proofs_len {
        return Err(
            Error::InvalidChunkStateWitness(
                WitnessFault::TooManyProofs { expected_proofs: expected_proofs_len, found },
            ),
        );
    }
    Ok(receipts_to_apply)
}

/// Tells whether the receipts that the new chunks of some blocks send are few enough to have an
/// encoding.
pub fn sent_receipts_fit(
    source_receipt_proofs: &HashIndex<ReceiptProof>,
    receipt_source_blocks: &Vec<Block>,
) -> (r: bool)
    ensures
        r == (sent_receipts(source_receipt_proofs@, receipt_source_blocks@).len() <= u32::MAX),
{
    let ghost proofs = source_receipt_proofs@;
    let ghost blocks = receipt_source_blocks@;
    let mut total: u64 = 0;
    let mut i: usize = 0;
    assert(blocks.take(0) =~= Seq::empty());
    while i < receipt_source_blocks.len()
        invariant
            i <= blocks.len(),
            proofs == source_receipt_proofs@,
            blocks == receipt_source_blocks@,
            total == sent_receipts(proofs, blocks.take(i as int)).len(),
            total <= u32::MAX,
        decreases blocks.len() - i,
    {
        let block = &receipt_source_blocks[i];
        proof {
            assert(blocks.take(i + 1).drop_last() =~= blocks.take(i as int));
            assert(blocks.take(i + 1).last() == *block);
            lemma_sent_receipts_of_prefix(proofs, blocks, i + 1);
        }
        let ghost before = total;
        let mut j: usize = 0;
        assert(sent_by_chunks(proofs, new_chunks_before(*block, 0)) =~= Seq::empty());
        while j < block.chunks.len()
            invariant
                j <= block.chunks@.len(),
                proofs == source_receipt_proofs@,
                total == before + joined(
                    sent_by_chunks(proofs, new_chunks_before(*block, j as int)),
                ).len(),
                total <= u32::MAX,
                before + joined(sent_by_chunks(proofs, new_chunks(*block))).len() <= sent_receipts(
                    proofs,
                    blocks,
                ).len(),
                blocks == receipt_source_blocks@,
            decreases block.chunks@.len() - j,
        {
            let chunk = &block.chunks[j];
            proof {
                lemma_sent_by_first_chunks(proofs, *block, j as int);
                lemma_sent_by_prefix(proofs, *block, j + 1, block.chunks@.len() as int);
            }
            j += 1;
            if chunk.is_new_chunk(block.header.height) {
                match source_receipt_proofs.get(&chunk.inner.chunk_hash) {
                    Some(receipt_proof) => {
                        if receipt_proof.receipts.len() > u32::MAX as usize - total as usize {
                            return false;
                        }
                        total = total + receipt_proof.receipts.len() as u64;
                    },
                    None => {},
                }
            }
        }
        i += 1;
    }
    assert(blocks.take(i as int) =~= blocks);
    true
}

/// One more chunk of a block adds the receipts that it sends, if it is new.
proof fn lemma_sent_by_first_chunks(proofs: Map<CryptoHash, ReceiptProof>, block: Block, n: int)
    requires
        0 <= n < block.chunks@.len(),
    ensures
        joined(sent_by_chunks(proofs, new_chunks_before(block, n + 1))).len() == joined(
            sent_by_chunks(proofs, new_chunks_before(block, n)),
        ).len() + (if block.chunks@[n].is_new_chunk_at(block.header.height) {
            sent_by_chunk(proofs, block.chunks@[n].inner.chunk_hash).len()
        } else {
            0
        }),
{
    let lists = sent_by_chunks(proofs, new_chunks_before(block, n + 1));
    if block.chunks@[n].is_new_chunk_at(block.header.height) {
        assert(lists.drop_last() =~= sent_by_chunks(proofs, new_chunks_before(block, n)));
    }
}

proof fn lemma_sent_by_prefix(proofs: Map<CryptoHash, ReceiptProof>, block: Block, n: int, m: int)
    requires
        0 <= n <= m <= block.chunks@.len(),
    ensures
        joined(sent_by_chunks(proofs, new_chunks_before(block, n))).len() <= joined(
            sent_by_chunks(proofs, new_chunks_before(block, m)),
        ).len(),
    decreases m - n,
{
    if n < m {
        lemma_sent_by_first_chunks(proofs, block, m - 1);
        lemma_sent_by_prefix(proofs, block, n, m - 1);
    }
}

proof fn lemma_sent_receipts_of_prefix(
    proofs: Map<CryptoHash, ReceiptProof>,
    blocks: Seq<Block>,
    n: int,
)
    requires
        0 <= n <= blocks.len(),
    ensures
        sent_receipts(proofs, blocks.take(n)).len() <= sent_receipts(proofs, blocks).len(),
    decreases blocks.len() - n,
{
    if n < blocks.len() {
        assert(blocks.take(n + 1).drop_last() =~= blocks.take(n));
        lemma_sent_receipts_of_prefix(proofs, blocks, n + 1);
    } else {
        assert(blocks.take(n) =~= blocks);
    }
}

proof fn lemma_joined_length<T>(lists: Seq<Seq<T>>, i: int)
    requires
        0 <= i < lists.len(),
    ensures
        lists[i].len() <= joined(lists).len(),
    decreases lists.len(),
{
    if i < lists.len() - 1 {
        lemma_joined_length(lists.drop_last(), i);
    }
}

/// Where all receipts together have an encoding, so have those of each chunk.
pub proof fn lemma_encodable_together(proofs: Map<CryptoHash, ReceiptProof>, blocks: Seq<Block>)
    requires
        sent_receipts(proofs, blocks).len() <= u32::MAX,
    ensures
        all_encodable(proofs, blocks),
{
    assert forall|i: int| 0 <= i < blocks.len() implies chunks_encodable(
        proofs,
        new_chunks(#[trigger] blocks[i]),
    ) by {
        let chunks = new_chunks(blocks[i]);
        let lists = sent_by_chunks(proofs, chunks);
        lemma_sent_receipts_of_prefix(proofs, blocks, i + 1);
        assert(blocks.take(i + 1).drop_last() =~= blocks.take(i));
        assert forall|k: int|
            0 <= k < chunks.len() && proofs.contains_key(#[trigger] chunks[k]) implies
            proofs[chunks[k]].encodable() by {
            lemma_joined_length(lists, k);
            assert(lists[k] == receipts_view(proofs[chunks[k]].receipts@));
        }
    }
}

/// The shuffles of the chunks settle in which order receipts are applied, and never which receipts
/// are applied.
pub proof fn law_shuffles_keep_receipts(
    proofs: Map<CryptoHash, ReceiptProof>,
    blocks: Seq<Block>,
    shuffles: Seq<Vec<usize>>,
)
    requires
        shuffles_fit(shuffles, blocks),
    ensures
        receipts_in_order(proofs, blocks, shuffles).to_multiset() == sent_receipts(
            proofs,
            blocks,
        ).to_multiset(),
        receipts_in_order(proofs, blocks, shuffles).len() == sent_receipts(proofs, blocks).len(),
{
    lemma_shuffles_keep_receipts(proofs, blocks, shuffles, blocks.len() as int);
    assert(blocks.take(blocks.len() as int) =~= blocks);
}

proof fn lemma_shuffles_keep_receipts(
    proofs: Map<CryptoHash, ReceiptProof>,
    blocks: Seq<Block>,
    shuffles: Seq<Vec<usize>>,
    n: int,
)
    requires
        shuffles_fit(shuffles, blocks),
        0 <= n <= blocks.len(),
    ensures
        receipts_in_order(proofs, blocks.take(n), shuffles).to_multiset() == sent_receipts(
            proofs,
            blocks.take(n),
        ).to_multiset(),
        receipts_in_order(proofs, blocks.take(n), shuffles).len() == sent_receipts(
            proofs,
            blocks.take(n),
        ).len(),
    decreases n,
{
    broadcast use vstd::seq_lib::group_to_multiset_ensures;

    let in_order = receipts_in_order(proofs, blocks.take(n), shuffles);
    let sent = sent_receipts(proofs, blocks.take(n));
    if n > 0 {
        lemma_shuffles_keep_receipts(proofs, blocks, shuffles, n - 1);
        assert(blocks.take(n).drop_last() =~= blocks.take(n - 1));
        let block = blocks[n - 1];
        let lists = sent_by_chunks(proofs, new_chunks(block));
        assert(is_shuffle_of(shuffles[n - 1]@, new_chunks(block).len()));
        lemma_shuffle_keeps_items(lists, shuffles[n - 1]@);
        lemma_multiset_commutative(
            receipts_in_order(proofs, blocks.take(n - 1), shuffles),
            block_receipts(proofs, block, shuffles[n - 1]@),
        );
        lemma_multiset_commutative(sent_receipts(proofs, blocks.take(n - 1)), joined(lists));
    }
    assert(in_order.to_multiset().len() == sent.to_multiset().len());
}

/// Where the proofs are in order, every new chunk of the blocks has one.
proof fn lemma_chunks_have_proofs(
    proofs: Map<CryptoHash, ReceiptProof>,
    blocks: Seq<Block>,
    target: ShardId,
)
    requires
        first_fault(proofs, blocks, target) is None,
    ensures
        forall|i: int|
            0 <= i < new_chunks_of_all(blocks).len() ==> proofs.contains_key(
                #[trigger] new_chunks_of_all(blocks)[i],
            ),
    decreases blocks.len(),
{
    if blocks.len() > 0 {
        lemma_chunks_have_proofs(proofs, blocks.drop_last(), target);
        lemma_block_chunks_have_proofs(
            proofs,
            blocks.last(),
            target,
            blocks.last().chunks@.len() as int,
        );
        let before = new_chunks_of_all(blocks.drop_last());
        assert forall|i: int| 0 <= i < new_chunks_of_all(blocks).len() implies proofs.contains_key(
            #[trigger] new_chunks_of_all(blocks)[i],
        ) by {
            if i < before.len() {
                assert(proofs.contains_key(before[i]));
            } else {
                assert(proofs.contains_key(new_chunks(blocks.last())[i - before.len()]));
            }
        }
    }
}

proof fn lemma_block_chunks_have_proofs(
    proofs: Map<CryptoHash, ReceiptProof>,
    block: Block,
    target: ShardId,
    n: int,
)
    requires
        fault_before(proofs, block, n, target) is None,
    ensures
        forall|i: int|
            0 <= i < new_chunks_before(block, n).len() ==> proofs.contains_key(
                #[trigger] new_chunks_before(block, n)[i],
            ),
    decreases n,
{
    if n > 0 {
        lemma_block_chunks_have_proofs(proofs, block, target, n - 1);
        let before = new_chunks_before(block, n - 1);
        let now = new_chunks_before(block, n);
        assert forall|i: int| 0 <= i < now.len() implies proofs.contains_key(#[trigger] now[i]) by {
            if i < before.len() {
                assert(proofs.contains_key(before[i]));
            }
        }
    }
}

/// Proofs that are accepted are those of the new chunks of the blocks and no others, as long as
/// no two of these chunks have the same hash.
pub proof fn law_no_extraneous_proofs(
    proofs: Map<CryptoHash, ReceiptProof>,
    blocks: Seq<Block>,
    target: ShardId,
)
    requires
        proofs.dom().finite(),
        source_receipts_fault(proofs, blocks, target) is None,
        new_chunks_of_all(blocks).no_duplicates(),
    ensures
        proofs.dom() == new_chunks_of_all(blocks).to_set(),
{
    let chunks = new_chunks_of_all(blocks);
    lemma_chunks_have_proofs(proofs, blocks, target);
    chunks.unique_seq_to_set();
    assert forall|k: CryptoHash| chunks.to_set().contains(k) implies proofs.dom().contains(k) by {
        let i = choose|i: int| 0 <= i < chunks.len() && chunks[i] == k;
        assert(proofs.contains_key(chunks[i]));
    }
    lemma_subset_equality(chunks.to_set(), proofs.dom());
}

/// Every new chunk of some blocks has a proof that is in order.
pub open spec fn all_in_order(
    proofs: Map<CryptoHash, ReceiptProof>,
    blocks: Seq<Block>,
    target: ShardId,
) -> bool {
    forall|i: int, n: int|
        0 <= i < blocks.len() && 0 <= n < blocks[i].chunks@.len() ==> (#[trigger] chunk_fault(
            proofs,
            blocks[i],
            n,
            target,
        )) is None
}

proof fn lemma_block_in_order(
    proofs: Map<CryptoHash, ReceiptProof>,
    block: Block,
    target: ShardId,
    n: int,
)
    requires
        0 <= n <= block.chunks@.len(),
    ensures
        fault_before(proofs, block, n, target) is None <==> forall|k: int|
            0 <= k < n ==> (#[trigger] chunk_fault(proofs, block, k, target)) is None,
    decreases n,
{
    if n > 0 {
        lemma_block_in_order(proofs, block, target, n - 1);
        if fault_before(proofs, block, n, target) is None {
            assert forall|k: int| 0 <= k < n implies (#[trigger] chunk_fault(
                proofs,
                block,
                k,
                target,
            )) is None by {}
        }
    }
}

proof fn lemma_all_in_order(
    proofs: Map<CryptoHash, ReceiptProof>,
    blocks: Seq<Block>,
    target: ShardId,
)
    ensures
        first_fault(proofs, blocks, target) is None <==> all_in_order(proofs, blocks, target),
    decreases blocks.len(),
{
    if blocks.len() > 0 {
        let earlier = blocks.drop_last();
        let last = blocks.last();
        lemma_all_in_order(proofs, earlier, target);
        lemma_block_in_order(proofs, last, target, last.chunks@.len() as int);
        if all_in_order(proofs, blocks, target) {
            assert forall|i: int, n: int|
                0 <= i < earlier.len() && 0 <= n < earlier[i].chunks@.len() implies (
            #[trigger] chunk_fault(proofs, earlier[i], n, target)) is None by {
                assert(chunk_fault(proofs, blocks[i], n, target) is None);
            }
            assert forall|k: int| 0 <= k < last.chunks@.len() implies (#[trigger] chunk_fault(
                proofs,
                last,
                k,
                target,
            )) is None by {
                assert(chunk_fault(proofs, blocks[blocks.len() - 1], k, target) is None);
            }
        }
        if first_fault(proofs, blocks, target) is None {
            assert forall|i: int, n: int|
                0 <= i < blocks.len() && 0 <= n < blocks[i].chunks@.len() implies (
            #[trigger] chunk_fault(proofs, blocks[i], n, target)) is None by {
                if i < earlier.len() {
                    assert(chunk_fault(proofs, earlier[i], n, target) is None);
                }
            }
        }
    }
}

/// Proofs are accepted exactly if they are those of the new chunks of the blocks and no others, and
/// each of them is in order, as long as no two of these chunks have the same hash.
pub proof fn law_exactly_the_right_proofs_are_accepted(
    proofs: Map<CryptoHash, ReceiptProof>,
    blocks: Seq<Block>,
    target: ShardId,
)
    requires
        proofs.dom().finite(),
        new_chunks_of_all(blocks).no_duplicates(),
    ensures
        source_receipts_fault(proofs, blocks, target) is None <==> {
            &&& proofs.dom() == new_chunks_of_all(blocks).to_set()
            &&& all_in_order(proofs, blocks, target)
        },
{
    lemma_all_in_order(proofs, blocks, target);
    new_chunks_of_all(blocks).unique_seq_to_set();
    if source_receipts_fault(proofs, blocks, target) is None {
        law_no_extraneous_proofs(proofs, blocks, target);
    }
}

proof fn lemma_new_chunks_of_both(first: Seq<Block>, second: Seq<Block>)
    ensures
        new_chunks_of_all(first + second) == new_chunks_of_all(first) + new_chunks_of_all(second),
    decreases second.len(),
{
    if second.len() == 0 {
        assert(first + second =~= first);
        assert(new_chunks_of_all(first) + new_chunks_of_all(second) =~= new_chunks_of_all(first));
    } else {
        lemma_new_chunks_of_both(first, second.drop_last());
        assert((first + second).drop_last() =~= first + second.drop_last());
        assert(new_chunks_of_all(first + second) =~= new_chunks_of_all(first) + new_chunks_of_all(
            second,
        ));
    }
}

/// Two sets of proofs agree on the new chunks of some blocks.
spec fn agree_on(
    proofs: Map<CryptoHash, ReceiptProof>,
    others: Map<CryptoHash, ReceiptProof>,
    blocks: Seq<Block>,
) -> bool {
    forall|i: int|
        0 <= i < new_chunks_of_all(blocks).len() ==> {
            let chunk_hash = #[trigger] new_chunks_of_all(blocks)[i];
            &&& proofs.contains_key(chunk_hash)
            &&& others.contains_key(chunk_hash)
            &&& proofs[chunk_hash] == others[chunk_hash]
        }
}

proof fn lemma_agreeing_receipts(
    proofs: Map<CryptoHash, ReceiptProof>,
    others: Map<CryptoHash, ReceiptProof>,
    blocks: Seq<Block>,
    shuffles: Seq<Vec<usize>>,
)
    requires
        agree_on(proofs, others, blocks),
    ensures
        receipts_in_order(proofs, blocks, shuffles) == receipts_in_order(others, blocks, shuffles),
    decreases blocks.len(),
{
    if blocks.len() > 0 {
        let earlier = blocks.drop_last();
        let before = new_chunks_of_all(earlier);
        let chunks = new_chunks(blocks.last());
        assert forall|i: int| 0 <= i < before.len() implies ({
            let chunk_hash = #[trigger] before[i];
            &&& proofs.contains_key(chunk_hash)
            &&& others.contains_key(chunk_hash)
            &&& proofs[chunk_hash] == others[chunk_hash]
        }) by {
            assert(new_chunks_of_all(blocks)[i] == before[i]);
        }
        lemma_agreeing_receipts(proofs, others, earlier, shuffles);
        assert(sent_by_chunks(proofs, chunks) =~= sent_by_chunks(others, chunks)) by {
            assert forall|i: int| 0 <= i < chunks.len() implies sent_by_chunk(proofs, chunks[i])
                == sent_by_chunk(others, #[trigger] chunks[i]) by {
                assert(new_chunks_of_all(blocks)[before.len() + i] == chunks[i]);
            }
        }
    }
}

proof fn lemma_receipts_of_both(
    proofs: Map<CryptoHash, ReceiptProof>,
    first: Seq<Block>,
    second: Seq<Block>,
    first_shuffles: Seq<Vec<usize>>,
    second_shuffles: Seq<Vec<usize>>,
)
    requires
        first_shuffles.len() == first.len(),
        second_shuffles.len() >= second.len(),
    ensures
        receipts_in_order(proofs, first + second, first_shuffles + second_shuffles)
            == receipts_in_order(proofs, first, first_shuffles) + receipts_in_order(
            proofs,
            second,
            second_shuffles,
        ),
    decreases second.len(),
{
    let shuffles = first_shuffles + second_shuffles;
    if second.len() == 0 {
        assert(first + second =~= first);
        lemma_receipts_of_first(proofs, first, first_shuffles, second_shuffles);
        assert(receipts_in_order(proofs, first, first_shuffles) + receipts_in_order(
            proofs,
            second,
            second_shuffles,
        ) =~= receipts_in_order(proofs, first, first_shuffles));
    } else {
        lemma_receipts_of_both(
            proofs,
            first,
            second.drop_last(),
            first_shuffles,
            second_shuffles,
        );
        assert((first + second).drop_last() =~= first + second.drop_last());
        assert(shuffles[first.len() + second.len() - 1] == second_shuffles[second.len() - 1]);
        assert(receipts_in_order(proofs, first + second, shuffles) =~= receipts_in_order(
            proofs,
            first,
            first_shuffles,
        ) + receipts_in_order(proofs, second, second_shuffles));
    }
}

proof fn lemma_receipts_of_first(
    proofs: Map<CryptoHash, ReceiptProof>,
    blocks: Seq<Block>,
    shuffles: Seq<Vec<usize>>,
    more: Seq<Vec<usize>>,
)
    requires
        shuffles.len() >= blocks.len(),
    ensures
        receipts_in_order(proofs, blocks, shuffles + more) == receipts_in_order(
            proofs,
            blocks,
            shuffles,
        ),
    decreases blocks.len(),
{
    if blocks.len() > 0 {
        lemma_receipts_of_first(proofs, blocks.drop_last(), shuffles, more);
    }
}

/// Where two runs of blocks have proofs that are accepted, and no proof is in both sets, the proofs
/// taken together are accepted for the one run after the other, and give the receipts of the one
/// and then those of the other.
pub proof fn law_runs_of_blocks_join(
    first_proofs: Map<CryptoHash, ReceiptProof>,
    second_proofs: Map<CryptoHash, ReceiptProof>,
    first: Seq<Block>,
    second: Seq<Block>,
    first_shuffles: Seq<Vec<usize>>,
    second_shuffles: Seq<Vec<usize>>,
    target: ShardId,
)
    requires
        first_proofs.dom().finite(),
        second_proofs.dom().finite(),
        first_proofs.dom().disjoint(second_proofs.dom()),
        source_receipts_fault(first_proofs, first, target) is None,
        source_receipts_fault(second_proofs, second, target) is None,
        shuffles_fit(first_shuffles, first),
        shuffles_fit(second_shuffles, second),
    ensures
        ({
            let proofs = first_proofs.union_prefer_right(second_proofs);
            &&& source_receipts_fault(proofs, first + second, target) is None
            &&& shuffles_fit(first_shuffles + second_shuffles, first + second)
            &&& receipts_in_order(proofs, first + second, first_shuffles + second_shuffles)
                == receipts_in_order(first_proofs, first, first_shuffles) + receipts_in_order(
                second_proofs,
                second,
                second_shuffles,
            )
        }),
{
    let proofs = first_proofs.union_prefer_right(second_proofs);
    let blocks = first + second;
    lemma_all_in_order(first_proofs, first, target);
    lemma_all_in_order(second_proofs, second, target);
    lemma_all_in_order(proofs, blocks, target);
    assert forall|i: int, n: int|
        0 <= i < blocks.len() && 0 <= n < blocks[i].chunks@.len() implies (#[trigger] chunk_fault(
        proofs,
        blocks[i],
        n,
        target,
    )) is None by {
        let chunk_hash = blocks[i].chunks@[n].inner.chunk_hash;
        if i < first.len() {
            assert(blocks[i] == first[i]);
            assert(chunk_fault(first_proofs, first[i], n, target) is None);
            if first_proofs.contains_key(chunk_hash) {
                assert(!second_proofs.dom().contains(chunk_hash));
            }
        } else {
            let k = i - first.len();
            assert(blocks[i] == second[k]);
            assert(chunk_fault(second_proofs, second[k], n, target) is None);
        }
    }
    lemma_new_chunks_of_both(first, second);
    lemma_set_disjoint_lens(first_proofs.dom(), second_proofs.dom());
    assert(proofs.dom() =~= first_proofs.dom() + second_proofs.dom());
    lemma_chunks_have_proofs(first_proofs, first, target);
    lemma_chunks_have_proofs(second_proofs, second, target);
    assert(agree_on(proofs, first_proofs, first)) by {
        assert forall|i: int| 0 <= i < new_chunks_of_all(first).len() implies ({
            let chunk_hash = #[trigger] new_chunks_of_all(first)[i];
            &&& proofs.contains_key(chunk_hash)
            &&& first_proofs.contains_key(chunk_hash)
            &&& proofs[chunk_hash] == first_proofs[chunk_hash]
        }) by {
            let chunk_hash = new_chunks_of_all(first)[i];
            assert(first_proofs.contains_key(chunk_hash));
            assert(!second_proofs.dom().contains(chunk_hash));
        }
    }
    assert(agree_on(proofs, second_proofs, second));
    lemma_agreeing_receipts(proofs, first_proofs, first, first_shuffles);
    lemma_agreeing_receipts(proofs, second_proofs, second, second_shuffles);
    lemma_receipts_of_both(proofs, first, second, first_shuffles, second_shuffles);
    let shuffles = first_shuffles + second_shuffles;
    assert forall|i: int| 0 <= i < blocks.len() implies is_shuffle_of(
        (#[trigger] shuffles[i])@,
        new_chunks(blocks[i]).len(),
    ) by {
        if i < first.len() {
            assert(shuffles[i] == first_shuffles[i]);
        } else {
            assert(shuffles[i] == second_shuffles[i - first.len()]);
        }
    }
}

proof fn lemma_same_first_chunks(block: Block, more: Block, n: int)
    requires
        0 <= n <= block.chunks@.len(),
        n <= more.chunks@.len(),
        more.header.height == block.header.height,
        forall|i: int| 0 <= i < n ==> more.chunks@[i] == #[trigger] block.chunks@[i],
    ensures
        new_chunks_before(more, n) == new_chunks_before(block, n),
    decreases n,
{
    if n > 0 {
        lemma_same_first_chunks(block, more, n - 1);
        assert(more.chunks@[n - 1] == block.chunks@[n - 1]);
    }
}

/// The new chunks of a block are those that were included at the block's own height, by shard: a
/// block with one shard more has the chunk of that shard behind the others, if it is new.
pub proof fn law_new_chunks_come_by_shard(block: Block, more: Block, chunk: ShardChunkHeader)
    requires
        more.header.height == block.header.height,
        more.chunks@ == block.chunks@.push(chunk),
    ensures
        block.chunks@.len() == 0 ==> new_chunks(block).len() == 0,
        chunk.inner.height_included == block.header.height ==> new_chunks(more) == new_chunks(
            block,
        ).push(chunk.inner.chunk_hash),
        chunk.inner.height_included != block.header.height ==> new_chunks(more) == new_chunks(
            block,
        ),
{
    lemma_same_first_chunks(block, more, block.chunks@.len() as int);
}

/// The new chunks of some blocks are those of one block after the other.
pub proof fn law_new_chunks_come_by_block(blocks: Seq<Block>, block: Block)
    ensures
        new_chunks_of_all(Seq::empty()).len() == 0,
        new_chunks_of_all(blocks.push(block)) == new_chunks_of_all(blocks) + new_chunks(block),
{
    assert(blocks.push(block).drop_last() =~= blocks);
}

/// Within a block, the receipts come chunk by chunk in the order of the shuffle, and those of each
/// chunk as its proof has them, one encoding after the other.
pub proof fn law_receipts_come_in_the_order_of_the_shuffle(
    proofs: Map<CryptoHash, ReceiptProof>,
    block: Block,
    order: Seq<usize>,
    next: usize,
    i: int,
)
    requires
        next < new_chunks(block).len(),
        proofs.contains_key(new_chunks(block)[next as int]),
    ensures
        ({
            let sent = proofs[new_chunks(block)[next as int]].receipts@;
            let before = block_receipts(proofs, block, order);
            let after = block_receipts(proofs, block, order.push(next));
            &&& block_receipts(proofs, block, Seq::empty()).len() == 0
            &&& after.len() == before.len() + sent.len()
            &&& after.take(before.len() as int) == before
            &&& 0 <= i < sent.len() ==> after[before.len() + i] == sent[i].encoded@
        }),
{
    let lists = sent_by_chunks(proofs, new_chunks(block));
    let before = shuffled(lists, order);
    let after = shuffled(lists, order.push(next));
    assert(after.drop_last() =~= before);
    assert(after.last() == lists[next as int]);
    assert(shuffled(lists, Seq::empty()) =~= Seq::empty());
    assert(block_receipts(proofs, block, order.push(next)).take(
        block_receipts(proofs, block, order).len() as int,
    ) =~= block_receipts(proofs, block, order));
}

/// The receipts of some blocks come block by block, each block's in the order of its own shuffle.
pub proof fn law_receipts_come_by_block(
    proofs: Map<CryptoHash, ReceiptProof>,
    blocks: Seq<Block>,
    shuffles: Seq<Vec<usize>>,
    block: Block,
    shuffle: Vec<usize>,
)
    requires
        shuffles.len() == blocks.len(),
    ensures
        receipts_in_order(proofs, Seq::empty(), shuffles).len() == 0,
        receipts_in_order(proofs, blocks.push(block), shuffles.push(shuffle))
            == receipts_in_order(proofs, blocks, shuffles) + block_receipts(
            proofs,
            block,
            shuffle@,
        ),
{
    assert(blocks.push(block).drop_last() =~= blocks);
    assert(shuffles.push(shuffle) =~= shuffles + seq![shuffle]);
    lemma_receipts_of_first(proofs, blocks, shuffles, seq![shuffle]);
}

/// A chunk that was carried over from an earlier block needs no proof. A new one needs a proof
/// under its own hash, and it has the faults that this proof has for the chunk and the target.
pub proof fn law_every_new_chunk_needs_a_proof(
    proofs: Map<CryptoHash, ReceiptProof>,
    block: Block,
    n: int,
    target: ShardId,
)
    requires
        0 <= n < block.chunks@.len(),
    ensures
        ({
            let chunk = block.chunks@[n];
            let hash = chunk.inner.chunk_hash;
            let is_new = chunk.inner.height_included == block.header.height;
            let fault = chunk_fault(proofs, block, n, target);
            &&& !is_new ==> fault is None
            &&& is_new && !proofs.contains_key(hash) ==> fault == Some(
                WitnessFault::MissingSourceReceiptProof { chunk_hash: hash },
            )
            &&& is_new && proofs.contains_key(hash) ==> fault == receipt_proof_fault(
                proofs[hash],
                chunk,
                target,
            )
        }),
{
}

/// The fault of a set of proofs is that of the first chunk that has one, block by block and shard
/// by shard.
pub proof fn law_first_faulty_chunk_is_blamed(
    proofs: Map<CryptoHash, ReceiptProof>,
    blocks: Seq<Block>,
    target: ShardId,
    i: int,
    n: int,
)
    requires
        0 <= i < blocks.len(),
        0 <= n < blocks[i].chunks@.len(),
        chunk_fault(proofs, blocks[i], n, target) is Some,
        forall|j: int, k: int|
            0 <= j < i && 0 <= k < blocks[j].chunks@.len() ==> (#[trigger] chunk_fault(
                proofs,
                blocks[j],
                k,
                target,
            )) is None,
        forall|k: int|
            0 <= k < n ==> (#[trigger] chunk_fault(proofs, blocks[i], k, target)) is None,
    ensures
        source_receipts_fault(proofs, blocks, target) == chunk_fault(
            proofs,
            blocks[i],
            n,
            target,
        ),
{
    let earlier = blocks.take(i);
    let block = blocks[i];
    assert(all_in_order(proofs, earlier, target)) by {
        assert forall|j: int, k: int|
            0 <= j < earlier.len() && 0 <= k < earlier[j].chunks@.len() implies (
        #[trigger] chunk_fault(proofs, earlier[j], k, target)) is None by {
            assert(chunk_fault(proofs, blocks[j], k, target) is None);
        }
    }
    lemma_all_in_order(proofs, earlier, target);
    lemma_block_in_order(proofs, block, target, n);
    lemma_fault_before_of_prefix(proofs, block, target, n + 1, block.chunks@.len() as int);
    assert(blocks.take(i + 1).drop_last() =~= earlier);
    assert(blocks.take(i + 1).last() == block);
    lemma_fault_of_prefix(proofs, blocks, target, i + 1);
}

/// Where no chunk is at fault, a set of proofs is accepted exactly if there are as many proofs as
/// new chunks; otherwise both numbers are named.
pub proof fn law_proofs_are_as_many_as_new_chunks(
    proofs: Map<CryptoHash, ReceiptProof>,
    blocks: Seq<Block>,
    target: ShardId,
)
    requires
        forall|i: int, n: int|
            0 <= i < blocks.len() && 0 <= n < blocks[i].chunks@.len() ==> (#[trigger] chunk_fault(
                proofs,
                blocks[i],
                n,
                target,
            )) is None,
        proofs.dom().len() <= usize::MAX,
        new_chunks_of_all(blocks).len() <= u128::MAX,
    ensures
        match source_receipts_fault(proofs, blocks, target) {
            None => proofs.dom().len() == new_chunks_of_all(blocks).len(),
            Some(WitnessFault::TooManyProofs { expected_proofs, found }) => {
                &&& expected_proofs == new_chunks_of_all(blocks).len()
                &&& found == proofs.dom().len()
                &&& found != expected_proofs
            },
            Some(_) => false,
        },
{
    assert(all_in_order(proofs, blocks, target));
    lemma_all_in_order(proofs, blocks, target);
}

} // verus!
