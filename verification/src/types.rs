//! Plain values that the rest of the crate works on: hashes, keys, headers, chunks and blocks.
use vstd::prelude::*;

verus! {

/// Number of a block in its chain.
pub type BlockHeight = u64;

/// Number of a shard.
pub type ShardId = u64;

/// Amount of gas.
pub type Gas = u64;

/// Amount of tokens.
pub type Balance = u128;

/// Name of an account.
pub type AccountId = String;

/// A length of time or a point on the node's monotonic clock, in nanoseconds.
pub type Nanos = u128;

/// A 32-byte hash: of a block, a chunk, an epoch, a state or a tree of values.
#[derive(Clone, Copy, Debug, Hash)]
pub struct CryptoHash(pub [u8; 32]);

impl vstd::std_specs::cmp::PartialEqSpecImpl for CryptoHash {
    open spec fn obeys_eq_spec() -> bool {
        true
    }

    open spec fn eq_spec(&self, other: &CryptoHash) -> bool {
        *self == *other
    }
}

impl PartialEq for CryptoHash {
    fn eq(&self, other: &CryptoHash) -> (r: bool) {
        let mut i: usize = 0;
        while i < 32
            invariant
                i <= 32,
                forall|j: int| 0 <= j < i ==> self.0@[j] == other.0@[j],
            decreases 32 - i,
        {
            if self.0[i] != other.0[i] {
                return false;
            }
            i += 1;
        }
        assert(self.0 =~= other.0);
        true
    }
}

impl Eq for CryptoHash {

}

impl CryptoHash {
    /// Every byte of the hash is zero.
    pub open spec fn is_zero(self) -> bool {
        forall|i: int| 0 <= i < 32 ==> self.0@[i] == 0
    }

    /// Tells whether this is the default hash.
    pub fn is_default(&self) -> (r: bool)
        ensures
            r == self.is_zero(),
            r <==> forall|i: int| 0 <= i < 32 ==> #[trigger] self.0@[i] == 0,
    {
        let zero = CryptoHash::default();
        proof {
            if self.is_zero() {
                assert(self.0 =~= zero.0);
            }
        }
        *self == zero
    }
}

impl Default for CryptoHash {
    fn default() -> (r: CryptoHash)
        ensures
            r.is_zero(),
            forall|i: int| 0 <= i < 32 ==> #[trigger] r.0@[i] == 0,
    {
        CryptoHash([0u8; 32])
    }
}

/// A public key on the curve that the network signs with.
#[derive(Clone, Copy, Debug, PartialEq, Eq)]
pub struct PublicKey(pub [u8; 32]);

/// A peer on the network, known by its public key.
#[derive(Clone, Copy, Debug, PartialEq, Eq)]
pub struct PeerId(pub PublicKey);

/// A signature made with a secret key.
#[derive(Clone, Copy, Debug, PartialEq, Eq)]
pub struct Signature(pub [u8; 64]);

/// Why a peer is banned.
#[derive(Clone, Copy, Debug, PartialEq, Eq)]
pub enum ReasonForBan {
    BadBlock,
    BadBlockHeader,
    BadBlockApproval,
    BadChunkStateWitness,
    InvalidHash,
    InvalidSignature,
}

/// A stake that an account offers in order to become a validator.
#[derive(Debug, PartialEq, Eq)]
pub struct ValidatorStake {
    pub account_id: AccountId,
    pub public_key: PublicKey,
    pub amount: Balance,
}

impl Clone for ValidatorStake {
    fn clone(&self) -> (r: ValidatorStake)
        ensures
            r == *self,
    {
        ValidatorStake {
            account_id: self.account_id.clone(),
            public_key: self.public_key,
            amount: self.amount,
        }
    }
}

/// An account is in a list.
pub open spec fn lists_account(accounts: Seq<AccountId>, account_id: Seq<char>) -> bool {
    exists|i: int| 0 <= i < accounts.len() && (#[trigger] accounts[i])@ == account_id
}

/// Tells whether an account is in a list.
pub fn contains_account(accounts: &Vec<AccountId>, account_id: &AccountId) -> (r: bool)
    ensures
        r == lists_account(accounts@, account_id@),
        r <==> exists|i: int|
            0 <= i < accounts@.len() && (#[trigger] accounts@[i])@ == account_id@,
{
    let mut i: usize = 0;
    while i < accounts.len()
        invariant
            i <= accounts@.len(),
            forall|j: int| 0 <= j < i ==> (#[trigger] accounts@[j])@ != account_id@,
        decreases accounts@.len() - i,
    {
        if accounts[i] == *account_id {
            assert(accounts@[i as int]@ == account_id@);
            return true;
        }
        i += 1;
    }
    false
}

/// What the client reads of a block's header.
#[derive(Clone, Copy, Debug, PartialEq, Eq)]
pub struct BlockHeader {
    pub hash: CryptoHash,
    pub prev_hash: CryptoHash,
    pub epoch_hash: CryptoHash,
    pub prev_state_root: CryptoHash,
    pub height: BlockHeight,
    pub timestamp: u64,
}

/// The end of a chain of blocks.
#[derive(Clone, Copy, Debug, PartialEq, Eq)]
pub struct Tip {
    pub height: BlockHeight,
    pub last_block_hash: CryptoHash,
    pub prev_block_hash: CryptoHash,
    pub epoch_hash: CryptoHash,
    pub total_weight: u64,
}

/// The part of a chunk's header that is of fixed size.
#[derive(Clone, Copy, Debug, PartialEq, Eq)]
pub struct ShardChunkHeaderInner {
    pub chunk_hash: CryptoHash,
    pub prev_block_hash: CryptoHash,
    pub prev_state_root: CryptoHash,
    pub tx_root: CryptoHash,
    pub prev_outgoing_receipts_root: CryptoHash,
    pub height_created: BlockHeight,
    pub height_included: BlockHeight,
    pub shard_id: ShardId,
    pub gas_used: Gas,
    pub gas_limit: Gas,
}

/// The header of a chunk.
#[derive(Debug, PartialEq, Eq)]
pub struct ShardChunkHeader {
    pub inner: ShardChunkHeaderInner,
    pub validator_proposals: Vec<ValidatorStake>,
}

/// What a chunk's header says, with the proposals as a sequence.
pub struct ShardChunkHeaderView {
    pub inner: ShardChunkHeaderInner,
    pub validator_proposals: Seq<ValidatorStake>,
}

impl View for ShardChunkHeader {
    type V = ShardChunkHeaderView;

    open spec fn view(&self) -> ShardChunkHeaderView {
        ShardChunkHeaderView {
            inner: self.inner,
            validator_proposals: self.validator_proposals@,
        }
    }
}

impl Clone for ShardChunkHeader {
    fn clone(&self) -> (r: ShardChunkHeader)
        ensures
            r@ == self@,
            r.inner == self.inner,
            r.validator_proposals@ == self.validator_proposals@,
    {
        let validator_proposals = self.validator_proposals.clone();
        assert(validator_proposals@ =~= self.validator_proposals@);
        ShardChunkHeader { inner: self.inner, validator_proposals }
    }
}

impl ShardChunkHeader {
    /// The chunk first stands in the block at `height`, and is not carried over from a block
    /// before it.
    pub open spec fn is_new_chunk_at(self, height: BlockHeight) -> bool {
        self.inner.height_included == height
    }

    pub fn is_new_chunk(&self, block_height: BlockHeight) -> (r: bool)
        ensures
            r == self.is_new_chunk_at(block_height),
            r <==> self.inner.height_included == block_height,
    {
        self.inner.height_included == block_height
    }
}

/// What the client reads of a block: its header, the header of each shard's latest chunk, and
/// how many transactions the block itself holds.
#[derive(Debug, PartialEq, Eq)]
pub struct Block {
    pub header: BlockHeader,
    pub chunks: Vec<ShardChunkHeader>,
    pub num_transactions: u64,
}

impl Clone for Block {
    fn clone(&self) -> (r: Block)
        ensures
            r.header == self.header,
            r.num_transactions == self.num_transactions,
            r.chunks@.len() == self.chunks@.len(),
            forall|i: int| 0 <= i < self.chunks@.len() ==> (#[trigger] r.chunks@[i])@
                == self.chunks@[i]@,
            forall|i: int|
                0 <= i < self.chunks@.len() ==> {
                    &&& (#[trigger] r.chunks@[i]).inner == self.chunks@[i].inner
                    &&& r.chunks@[i].validator_proposals@ == self.chunks@[i].validator_proposals@
                },
    {
        let chunks = self.chunks.clone();
        Block { header: self.header, chunks, num_transactions: self.num_transactions }
    }
}

impl Block {
    /// The block has a shard of this number.
    pub open spec fn has_shard(self, shard_id: ShardId) -> bool {
        shard_id < self.chunks@.len()
    }

    /// The block holds a new chunk for the shard.
    pub open spec fn has_new_chunk(self, shard_id: ShardId) -> bool {
        self.has_shard(shard_id) && self.chunks@[shard_id as int].is_new_chunk_at(
            self.header.height,
        )
    }

    /// The header of a shard's latest chunk.
    pub fn chunk(&self, shard_id: ShardId) -> (r: &ShardChunkHeader)
        requires
            self.has_shard(shard_id),
        ensures
            *r == self.chunks@[shard_id as int],
    {
        let num_shards = self.chunks.len();
        assert(shard_id < num_shards);
        &self.chunks[shard_id as usize]
    }
}

/// An account is in a list exactly if it stands at some place of it: no account is in the empty
/// list, and a list with one more entry has that account and those that it had.
pub proof fn law_list_has_the_accounts_put_into_it(
    accounts: Seq<AccountId>,
    last: AccountId,
    account_id: Seq<char>,
)
    ensures
        !lists_account(Seq::empty(), account_id),
        lists_account(accounts.push(last), account_id) <==> lists_account(accounts, account_id)
            || last@ == account_id,
{
    let more = accounts.push(last);
    if lists_account(accounts, account_id) {
        let i = choose|i: int| 0 <= i < accounts.len() && (#[trigger] accounts[i])@ == account_id;
        assert(more[i]@ == account_id);
    }
    if last@ == account_id {
        assert(more[accounts.len() as int]@ == account_id);
    }
    if lists_account(more, account_id) {
        let i = choose|i: int| 0 <= i < more.len() && (#[trigger] more[i])@ == account_id;
        if i < accounts.len() {
            assert(accounts[i]@ == account_id);
        }
    }
}

/// A block has exactly the shards that it has a chunk header for, and the chunk of such a shard is
/// new in it exactly if it was included at the block's own height.
pub proof fn law_new_chunk_is_included_at_the_blocks_height(block: Block, shard_id: ShardId)
    ensures
        block.has_shard(shard_id) <==> 0 <= shard_id < block.chunks@.len(),
        block.has_new_chunk(shard_id) <==> shard_id < block.chunks@.len()
            && block.chunks@[shard_id as int].inner.height_included == block.header.height,
{
}

} // verus!
