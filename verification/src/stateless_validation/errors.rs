//! Why a chunk's state witness is refused.
use vstd::prelude::*;
use crate::crypto::{hash_text, hash_to_string};
use crate::text::{decimal, decimal_text};
use crate::types::{CryptoHash, ShardId};

verus! {

/// What is wrong with a state witness.
#[derive(Clone, Debug, PartialEq, Eq)]
pub enum WitnessFault {
    /// The witness is not signed by the chunk's producer.
    InvalidSignature,
    /// A block in the chunk's history has no shard of this number.
    ShardDoesNotExist { shard_id: ShardId, block_hash: CryptoHash },
    /// No proof was given for the receipts of a chunk that sends some.
    MissingSourceReceiptProof { chunk_hash: CryptoHash },
    /// The proof for a chunk's receipts names another source shard.
    ReceiptProofFromShard {
        chunk_hash: CryptoHash,
        from_shard_id: ShardId,
        expected_shard: ShardId,
    },
    /// The proof for a chunk's receipts names another target shard.
    ReceiptProofToShard { chunk_hash: CryptoHash, to_shard_id: ShardId, expected_shard: ShardId },
    /// The proof for a chunk's receipts does not lead to the root that the chunk commits to.
    ReceiptProofPath { chunk_hash: CryptoHash },
    /// The number of proofs is not the number of chunks that send receipts.
    TooManyProofs { expected_proofs: u128, found: usize },
    /// The receipts to apply do not have the hash that the witness names.
    AppliedReceiptsHash { computed: CryptoHash, expected: CryptoHash },
    /// The transactions do not have the root that the last chunk commits to.
    TransactionRoot { root: Option<CryptoHash>, expected_root: CryptoHash },
    /// Some of the proposed transactions are not valid.
    NewTransactionsInvalid { valid: usize, proposed: usize },
    /// The proposed transactions could not be checked.
    NewTransactionsFailed(String),
    /// The rest of the node found the witness at fault, in these words.
    Reported(String),
    /// Applying the last chunk leads to another state than the witness names.
    MainPostStateRoot { computed: CryptoHash, expected: CryptoHash },
    /// Applying a block without a new chunk leads to another state than the witness names.
    ImplicitPostStateRoot { computed: CryptoHash, block_hash: CryptoHash, expected: CryptoHash },
}

/// The hash of a chunk, marked as such.
pub open spec fn chunk_hash_text(hash: Seq<u8>) -> Seq<char> {
    "ChunkHash("@ + hash_text(hash) + ")"@
}

/// A root, if there is one.
pub open spec fn root_text(root: Option<CryptoHash>) -> Seq<char> {
    match root {
        Some(root) => hash_text(root.0@),
        None => "of no transactions"@,
    }
}

fn chunk_hash_string(hash: &CryptoHash) -> (r: String)
    ensures
        r@ == chunk_hash_text(hash.0@),
{
    "ChunkHash(".to_string().concat(hash_to_string(hash).as_str()).concat(")")
}

fn root_string(root: &Option<CryptoHash>) -> (r: String)
    ensures
        r@ == root_text(*root),
{
    match root {
        Some(root) => hash_to_string(root),
        None => "of no transactions".to_string(),
    }
}

impl WitnessFault {
    /// The words for a fault.
    pub open spec fn words(self) -> Seq<char> {
        match self {
            WitnessFault::InvalidSignature => {
                "Invalid signature"@
            },
            WitnessFault::ShardDoesNotExist { shard_id, block_hash } => {
                "Shard "@ + decimal(shard_id as nat) + " does not exist in block "@
                    + hash_text(block_hash.0@)
            },
            WitnessFault::MissingSourceReceiptProof { chunk_hash } => {
                "Missing source receipt proof for chunk "@ + chunk_hash_text(chunk_hash.0@)
            },
            WitnessFault::ReceiptProofFromShard { chunk_hash, from_shard_id, expected_shard } => {
                "Receipt proof for chunk "@ + chunk_hash_text(chunk_hash.0@)
                    + " is from shard "@ + decimal(from_shard_id as nat) + ", expected shard "@
                    + decimal(expected_shard as nat)
            },
            WitnessFault::ReceiptProofToShard { chunk_hash, to_shard_id, expected_shard } => {
                "Receipt proof for chunk "@ + chunk_hash_text(chunk_hash.0@)
                    + " is for shard "@ + decimal(to_shard_id as nat) + ", expected shard "@
                    + decimal(expected_shard as nat)
            },
            WitnessFault::ReceiptProofPath { chunk_hash } => {
                "Receipt proof for chunk "@ + chunk_hash_text(chunk_hash.0@)
                    + " has invalid merkle path, doesn't match outgoing receipts root"@
            },
            WitnessFault::TooManyProofs { expected_proofs, found } => {
                "source_receipt_proofs contains too many proofs. Expected "@
                    + decimal(expected_proofs as nat) + " proofs, found "@
                    + decimal(found as nat)
            },
            WitnessFault::AppliedReceiptsHash { computed, expected } => {
                "Receipts hash "@ + hash_text(computed.0@)
                    + " does not match expected receipts hash "@ + hash_text(expected.0@)
            },
            WitnessFault::TransactionRoot { root, expected_root } => {
                "Transaction root "@ + root_text(root)
                    + " does not match expected transaction root "@
                    + hash_text(expected_root.0@)
            },
            WitnessFault::NewTransactionsInvalid { valid, proposed } => {
                "New transactions validation failed. "@ + decimal(valid as nat)
                    + " transactions out of "@ + decimal(proposed as nat)
                    + " proposed transactions were valid."@
            },
            WitnessFault::NewTransactionsFailed(reason) => {
                "New transactions validation failed: "@ + reason@
            },
            WitnessFault::Reported(reason) => {
                reason@
            },
            WitnessFault::MainPostStateRoot { computed, expected } => {
                "Post state root "@ + hash_text(computed.0@)
                    + " for main transition does not match expected post state root "@
                    + hash_text(expected.0@)
            },
            WitnessFault::ImplicitPostStateRoot { computed, block_hash, expected } => {
                "Post state root "@ + hash_text(computed.0@)
                    + " for implicit transition at block "@ + hash_text(block_hash.0@)
                    + ", does not match expected state root "@ + hash_text(expected.0@)
            },
        }
    }

    /// The fault in words.
    pub fn message(&self) -> (r: String)
        ensures
            r@ == self.words(),
    {
        match self {
            WitnessFault::InvalidSignature => {
                "Invalid signature".to_string()
            },
            WitnessFault::ShardDoesNotExist { shard_id, block_hash } => {
                "Shard ".to_string()
                    .concat(decimal_text(*shard_id as u128).as_str())
                    .concat(" does not exist in block ")
                    .concat(hash_to_string(block_hash).as_str())
            },
            WitnessFault::MissingSourceReceiptProof { chunk_hash } => {
                "Missing source receipt proof for chunk ".to_string()
                    .concat(chunk_hash_string(chunk_hash).as_str())
            },
            WitnessFault::ReceiptProofFromShard { chunk_hash, from_shard_id, expected_shard } => {
                "Receipt proof for chunk ".to_string()
                    .concat(chunk_hash_string(chunk_hash).as_str())
                    .concat(" is from shard ")
                    .concat(decimal_text(*from_shard_id as u128).as_str())
                    .concat(", expected shard ")
                    .concat(decimal_text(*expected_shard as u128).as_str())
            },
            WitnessFault::ReceiptProofToShard { chunk_hash, to_shard_id, expected_shard } => {
                "Receipt proof for chunk ".to_string()
                    .concat(chunk_hash_string(chunk_hash).as_str())
                    .concat(" is for shard ")
                    .concat(decimal_text(*to_shard_id as u128).as_str())
                    .concat(", expected shard ")
                    .concat(decimal_text(*expected_shard as u128).as_str())
            },
            WitnessFault::ReceiptProofPath { chunk_hash } => {
                "Receipt proof for chunk ".to_string()
                    .concat(chunk_hash_string(chunk_hash).as_str())
                    .concat(" has invalid merkle path, doesn't match outgoing receipts root")
            },
            WitnessFault::TooManyProofs { expected_proofs, found } => {
                "source_receipt_proofs contains too many proofs. Expected ".to_string()
                    .concat(decimal_text(*expected_proofs as u128).as_str())
                    .concat(" proofs, found ")
                    .concat(decimal_text(*found as u128).as_str())
            },
            WitnessFault::AppliedReceiptsHash { computed, expected } => {
                "Receipts hash ".to_string()
                    .concat(hash_to_string(computed).as_str())
                    .concat(" does not match expected receipts hash ")
                    .concat(hash_to_string(expected).as_str())
            },
            WitnessFault::TransactionRoot { root, expected_root } => {
                "Transaction root ".to_string()
                    .concat(root_string(root).as_str())
                    .concat(" does not match expected transaction root ")
                    .concat(hash_to_string(expected_root).as_str())
            },
            WitnessFault::NewTransactionsInvalid { valid, proposed } => {
                "New transactions validation failed. ".to_string()
                    .concat(decimal_text(*valid as u128).as_str())
                    .concat(" transactions out of ")
                    .concat(decimal_text(*proposed as u128).as_str())
                    .concat(" proposed transactions were valid.")
            },
            WitnessFault::NewTransactionsFailed(reason) => {
                "New transactions validation failed: ".to_string()
                    .concat(reason.as_str())
            },
            WitnessFault::Reported(reason) => {
                reason.clone()
            },
            WitnessFault::MainPostStateRoot { computed, expected } => {
                "Post state root ".to_string()
                    .concat(hash_to_string(computed).as_str())
                    .concat(" for main transition does not match expected post state root ")
                    .concat(hash_to_string(expected).as_str())
            },
            WitnessFault::ImplicitPostStateRoot { computed, block_hash, expected } => {
                "Post state root ".to_string()
                    .concat(hash_to_string(computed).as_str())
                    .concat(" for implicit transition at block ")
                    .concat(hash_to_string(block_hash).as_str())
                    .concat(", does not match expected state root ")
                    .concat(hash_to_string(expected).as_str())
            },
        }
    }
}

/// Why validating a chunk stopped.
#[derive(Clone, Debug, PartialEq, Eq)]
pub enum Error {
    /// The witness is at fault, and so is the peer that sent it.
    InvalidChunkStateWitness(WitnessFault),
    /// This node has no key to validate with.
    NotAValidator,
    /// This node is not assigned to the chunk.
    NotAChunkValidator,
    /// The chain, the epoch manager or the runtime failed.
    Chain(String),
    /// Anything else.
    Other(String),
}

impl Error {
    /// The witness itself is at fault.
    pub open spec fn blames_witness(self) -> bool {
        self is InvalidChunkStateWitness
    }
}

proof fn lemma_text_parts(first: Seq<char>, rest: Seq<char>, last: Seq<char>)
    ensures
        first.is_prefix_of(first + rest + last),
        last.is_suffix_of(first + rest + last),
{
    let whole = first + rest + last;
    assert(whole.take(first.len() as int) =~= first);
    assert(whole.skip(whole.len() - last.len()) =~= last);
}

/// The words about a value that was computed begin with that value, and end with the one that was
/// expected, named or claimed in its place.
pub proof fn law_words_tell_the_computed_before_the_expected(
    computed: CryptoHash,
    expected: CryptoHash,
    block_hash: CryptoHash,
    root: Option<CryptoHash>,
)
    ensures
        ({
            let words = WitnessFault::MainPostStateRoot { computed, expected }.words();
            &&& ("Post state root "@ + hash_text(computed.0@)).is_prefix_of(words)
            &&& hash_text(expected.0@).is_suffix_of(words)
        }),
        ({
            let words = WitnessFault::ImplicitPostStateRoot {
                computed,
                block_hash,
                expected,
            }.words();
            &&& ("Post state root "@ + hash_text(computed.0@)
                + " for implicit transition at block "@ + hash_text(block_hash.0@)).is_prefix_of(
                words,
            )
            &&& hash_text(expected.0@).is_suffix_of(words)
        }),
        ({
            let words = WitnessFault::AppliedReceiptsHash { computed, expected }.words();
            &&& ("Receipts hash "@ + hash_text(computed.0@)).is_prefix_of(words)
            &&& hash_text(expected.0@).is_suffix_of(words)
        }),
        ({
            let words = WitnessFault::TransactionRoot { root, expected_root: expected }.words();
            &&& root matches Some(found) ==> ("Transaction root "@ + hash_text(
                found.0@,
            )).is_prefix_of(words)
            &&& hash_text(expected.0@).is_suffix_of(words)
        }),
{
    let text = hash_text(computed.0@);
    let end = hash_text(expected.0@);
    lemma_text_parts(
        "Post state root "@ + text,
        " for main transition does not match expected post state root "@,
        end,
    );
    lemma_text_parts(
        "Post state root "@ + text + " for implicit transition at block "@ + hash_text(
            block_hash.0@,
        ),
        ", does not match expected state root "@,
        end,
    );
    lemma_text_parts(
        "Receipts hash "@ + text,
        " does not match expected receipts hash "@,
        end,
    );
    lemma_text_parts(
        "Transaction root "@ + root_text(root),
        " does not match expected transaction root "@,
        end,
    );
}

/// The words for a fault with more than one value tell them in a fixed order: the chunk and the
/// shard of a proof before the shard that was expected, the expected number of proofs before the
/// one that was found, the valid transactions before the proposed ones, the shard before the block.
pub proof fn law_words_tell_each_number_in_its_place(
    chunk_hash: CryptoHash,
    found_shard: ShardId,
    expected_shard: ShardId,
    expected_proofs: u128,
    found: usize,
    valid: usize,
    proposed: usize,
    block_hash: CryptoHash,
)
    ensures
        ({
            let words = WitnessFault::ReceiptProofFromShard {
                chunk_hash,
                from_shard_id: found_shard,
                expected_shard,
            }.words();
            &&& ("Receipt proof for chunk "@ + ("ChunkHash("@ + hash_text(chunk_hash.0@) + ")"@)
                + " is from shard "@ + decimal(found_shard as nat)).is_prefix_of(words)
            &&& decimal(expected_shard as nat).is_suffix_of(words)
        }),
        ({
            let words = WitnessFault::ReceiptProofToShard {
                chunk_hash,
                to_shard_id: found_shard,
                expected_shard,
            }.words();
            &&& ("Receipt proof for chunk "@ + ("ChunkHash("@ + hash_text(chunk_hash.0@) + ")"@)
                + " is for shard "@ + decimal(found_shard as nat)).is_prefix_of(words)
            &&& decimal(expected_shard as nat).is_suffix_of(words)
        }),
        ({
            let words = WitnessFault::TooManyProofs { expected_proofs, found }.words();
            &&& ("source_receipt_proofs contains too many proofs. Expected "@ + decimal(
                expected_proofs as nat,
            )).is_prefix_of(words)
            &&& decimal(found as nat).is_suffix_of(words)
        }),
        ({
            let words = WitnessFault::NewTransactionsInvalid { valid, proposed }.words();
            &&& ("New transactions validation failed. "@ + decimal(valid as nat)).is_prefix_of(
                words,
            )
            &&& (decimal(proposed as nat)
                + " proposed transactions were valid."@).is_suffix_of(words)
        }),
        ({
            let words = WitnessFault::ShardDoesNotExist {
                shard_id: found_shard,
                block_hash,
            }.words();
            &&& ("Shard "@ + decimal(found_shard as nat)).is_prefix_of(words)
            &&& hash_text(block_hash.0@).is_suffix_of(words)
        }),
{
    let chunk = "Receipt proof for chunk "@ + chunk_hash_text(chunk_hash.0@);
    let shard = decimal(found_shard as nat);
    lemma_text_parts(
        chunk + " is from shard "@ + shard,
        ", expected shard "@,
        decimal(expected_shard as nat),
    );
    lemma_text_parts(
        chunk + " is for shard "@ + shard,
        ", expected shard "@,
        decimal(expected_shard as nat),
    );
    lemma_text_parts(
        "source_receipt_proofs contains too many proofs. Expected "@ + decimal(
            expected_proofs as nat,
        ),
        " proofs, found "@,
        decimal(found as nat),
    );
    let start = "New transactions validation failed. "@ + decimal(valid as nat);
    let end = decimal(proposed as nat) + " proposed transactions were valid."@;
    lemma_text_parts(start, " transactions out of "@, end);
    assert(start + " transactions out of "@ + end =~= WitnessFault::NewTransactionsInvalid {
        valid,
        proposed,
    }.words());
    lemma_text_parts("Shard "@ + shard, " does not exist in block "@, hash_text(block_hash.0@));
}

} // verus!
