//! The endorsements that this node keeps: for each of the chunks that were touched last, who has
//! endorsed it and with which signature.
use vstd::prelude::*;
use near_cache::SyncLruCache;
use crate::types::{AccountId, CryptoHash, Signature};

verus! {

/// The bounded map of the `near_cache` crate. It forgets the entry that was touched longest ago
/// when a new one does not fit.
#[verifier::external_type_specification]
#[verifier::external_body]
#[verifier::reject_recursive_types(K)]
#[verifier::reject_recursive_types(V)]
pub struct ExSyncLruCache<K, V>(SyncLruCache<K, V>);

/// The largest table of entries that an address space of 32 bits has room for.
pub const MAX_CHUNKS: usize = 0x700_0000;

/// Who has endorsed a chunk, and each one's signature.
pub type SignatureList = Vec<(String, [u8; 64])>;

/// What a `SyncLruCache` holds: its keys and their values, the entry touched last coming first.
pub uninterp spec fn cache_entries(cache: SyncLruCache<[u8; 32], SignatureList>) -> Seq<
    (Seq<u8>, Seq<(Seq<char>, Seq<u8>)>),
>;

/// How many entries a `SyncLruCache` was made to hold.
pub uninterp spec fn cache_capacity(cache: SyncLruCache<[u8; 32], SignatureList>) -> nat;

/// The names and signatures of a list.
pub open spec fn signatures_view(list: Seq<(String, [u8; 64])>) -> Seq<(Seq<char>, Seq<u8>)> {
    list.map_values(|e: (String, [u8; 64])| (e.0@, e.1@))
}

/// Some entry is for the key.
pub open spec fn has_key<V>(entries: Seq<(Seq<u8>, V)>, key: Seq<u8>) -> bool {
    exists|i: int| 0 <= i < entries.len() && (#[trigger] entries[i]).0 == key
}

/// The entry for the key.
pub open spec fn key_position<V>(entries: Seq<(Seq<u8>, V)>, key: Seq<u8>) -> int {
    choose|i: int| 0 <= i < entries.len() && (#[trigger] entries[i]).0 == key
}

/// No two entries are for the same key.
pub open spec fn distinct_keys<V>(entries: Seq<(Seq<u8>, V)>) -> bool {
    forall|i: int, j: int|
        0 <= i < j < entries.len() ==> (#[trigger] entries[i]).0 != (#[trigger] entries[j]).0
}

/// The entries after a value was put in: the key's entry comes first, and if it is new and there
/// is no room for it, the last entry goes.
pub open spec fn after_put<V>(
    entries: Seq<(Seq<u8>, V)>,
    capacity: nat,
    key: Seq<u8>,
    value: V,
) -> Seq<(Seq<u8>, V)> {
    if has_key(entries, key) {
        seq![(key, value)] + entries.remove(key_position(entries, key))
    } else if entries.len() < capacity {
        seq![(key, value)] + entries
    } else if capacity == 0 {
        entries
    } else {
        seq![(key, value)] + entries.drop_last()
    }
}

/// Calls `near_cache::SyncLruCache::new`, which makes an empty cache of a given capacity. The
/// room is set aside at once, in a table that must fit into the address space: with pointers of
/// four bytes there is room for so many entries, and no more.
#[verifier::external_body]
fn cache_new(capacity: usize) -> (r: SyncLruCache<[u8; 32], SignatureList>)
    requires
        capacity <= MAX_CHUNKS,
    ensures
        cache_entries(r).len() == 0,
        cache_capacity(r) == capacity,
{
    SyncLruCache::new(capacity)
}

/// Calls `near_cache::SyncLruCache::get_or_put`. A key that is there comes first and its value is
/// handed back; otherwise the default is put in and handed back.
#[verifier::external_body]
fn cache_get_or_put(
    cache: &mut SyncLruCache<[u8; 32], SignatureList>,
    key: [u8; 32],
    default: SignatureList,
) -> (r: SignatureList)
    ensures
        ({
            let before = cache_entries(*old(cache));
            let value = if has_key(before, key@) {
                before[key_position(before, key@)].1
            } else {
                signatures_view(default@)
            };
            &&& signatures_view(r@) == value
            &&& cache_entries(*final(cache)) == after_put(
                before,
                cache_capacity(*old(cache)),
                key@,
                value,
            )
        }),
        cache_capacity(*final(cache)) == cache_capacity(*old(cache)),
{
    cache.get_or_put(key, |_| default)
}

/// Calls `near_cache::SyncLruCache::put`, which gives a key a value and puts its entry first.
#[verifier::external_body]
fn cache_put(
    cache: &mut SyncLruCache<[u8; 32], SignatureList>,
    key: [u8; 32],
    value: SignatureList,
)
    ensures
        cache_entries(*final(cache)) == after_put(
            cache_entries(*old(cache)),
            cache_capacity(*old(cache)),
            key@,
            signatures_view(value@),
        ),
        cache_capacity(*final(cache)) == cache_capacity(*old(cache)),
{
    cache.put(key, value)
}

/// Calls `near_cache::SyncLruCache::get`, which hands back a copy of a key's value and puts its
/// entry first.
#[verifier::external_body]
fn cache_get(cache: &mut SyncLruCache<[u8; 32], SignatureList>, key: &[u8; 32]) -> (r: Option<
    SignatureList,
>)
    ensures
        ({
            let before = cache_entries(*old(cache));
            if has_key(before, key@) {
                let value = before[key_position(before, key@)].1;
                &&& r matches Some(found) && signatures_view(found@) == value
                &&& cache_entries(*final(cache)) == after_put(
                    before,
                    cache_capacity(*old(cache)),
                    key@,
                    value,
                )
            } else {
                r is None && cache_entries(*final(cache)) == before
            }
        }),
        cache_capacity(*final(cache)) == cache_capacity(*old(cache)),
{
    cache.get(key)
}

/// The map that a list of names and signatures stands for, where no name occurs twice.
pub open spec fn signature_map(list: Seq<(Seq<char>, Seq<u8>)>) -> Map<Seq<char>, Seq<u8>>
    decreases list.len(),
{
    if list.len() == 0 {
        Map::empty()
    } else {
        signature_map(list.drop_last()).insert(list.last().0, list.last().1)
    }
}

/// No name occurs twice.
pub open spec fn distinct_names(list: Seq<(Seq<char>, Seq<u8>)>) -> bool {
    forall|i: int, j: int|
        0 <= i < j < list.len() ==> (#[trigger] list[i]).0 != (#[trigger] list[j]).0
}

/// Replacing the signature of a name replaces it in the map.
proof fn lemma_signature_map_update(list: Seq<(Seq<char>, Seq<u8>)>, i: int, signature: Seq<u8>)
    requires
        distinct_names(list),
        0 <= i < list.len(),
    ensures
        signature_map(list.update(i, (list[i].0, signature))) =~= signature_map(list).insert(
            list[i].0,
            signature,
        ),
    decreases list.len(),
{
    let changed = list.update(i, (list[i].0, signature));
    if i == list.len() - 1 {
        assert(changed.drop_last() =~= list.drop_last());
    } else {
        assert(changed.drop_last() =~= list.drop_last().update(i, (list[i].0, signature)));
        assert(list.drop_last()[i] == list[i]);
        assert(distinct_names(list.drop_last())) by {
            assert forall|a: int, b: int| 0 <= a < b < list.len() - 1 implies (
            #[trigger] list.drop_last()[a]).0 != (#[trigger] list.drop_last()[b]).0 by {
                assert(list[a].0 != list[b].0);
            }
        }
        lemma_signature_map_update(list.drop_last(), i, signature);
        assert(list[i].0 != list[list.len() - 1].0);
    }
}

/// The endorsements that this node keeps.
pub struct ChunkEndorsementTracker {
    chunk_endorsements: SyncLruCache<[u8; 32], SignatureList>,
}

/// What a tracker holds after an endorsement was recorded: the chunk comes first, with the
/// account's signature added, and if the chunk is new and there is no room for it, the chunk
/// touched longest ago goes.
pub open spec fn recorded(
    entries: Seq<(Seq<u8>, Map<Seq<char>, Seq<u8>>)>,
    capacity: nat,
    chunk_hash: Seq<u8>,
    account_id: Seq<char>,
    signature: Seq<u8>,
) -> Seq<(Seq<u8>, Map<Seq<char>, Seq<u8>>)> {
    let known = if has_key(entries, chunk_hash) {
        entries[key_position(entries, chunk_hash)].1
    } else {
        Map::empty()
    };
    after_put(entries, capacity, chunk_hash, known.insert(account_id, signature))
}

/// The entries of a cache with their lists taken as maps.
spec fn as_maps(entries: Seq<(Seq<u8>, Seq<(Seq<char>, Seq<u8>)>)>) -> Seq<
    (Seq<u8>, Map<Seq<char>, Seq<u8>>),
> {
    entries.map_values(|e: (Seq<u8>, Seq<(Seq<char>, Seq<u8>)>)| (e.0, signature_map(e.1)))
}

/// Keys stand at the same places whatever their values are.
proof fn lemma_as_maps_keys(entries: Seq<(Seq<u8>, Seq<(Seq<char>, Seq<u8>)>)>, key: Seq<u8>)
    requires
        distinct_keys(entries),
    ensures
        distinct_keys(as_maps(entries)),
        has_key(as_maps(entries), key) == has_key(entries, key),
        has_key(entries, key) ==> key_position(as_maps(entries), key) == key_position(entries, key),
{
    let maps = as_maps(entries);
    assert forall|i: int, j: int| 0 <= i < j < maps.len() implies (#[trigger] maps[i]).0 != (
    #[trigger] maps[j]).0 by {
        assert(entries[i].0 != entries[j].0);
    }
    if has_key(entries, key) {
        let i = key_position(entries, key);
        assert(maps[i].0 == key);
        let j = key_position(maps, key);
        assert(maps[j].0 == key);
        assert(entries[j].0 == key);
    }
    if has_key(maps, key) {
        let j = key_position(maps, key);
        assert(entries[j].0 == key);
    }
}

/// Putting a value in keeps the keys distinct, puts the key first, and keeps to the capacity.
proof fn lemma_after_put<V>(
    entries: Seq<(Seq<u8>, V)>,
    capacity: nat,
    key: Seq<u8>,
    value: V,
)
    requires
        distinct_keys(entries),
        entries.len() <= capacity,
        capacity > 0,
    ensures
        ({
            let after = after_put(entries, capacity, key, value);
            &&& distinct_keys(after)
            &&& after.len() <= capacity
            &&& after.len() > 0
            &&& after[0] == (key, value)
            &&& has_key(after, key)
            &&& key_position(after, key) == 0
        }),
{
    let after = after_put(entries, capacity, key, value);
    let p = key_position(entries, key);
    assert forall|i: int, j: int| 0 <= i < j < after.len() implies (#[trigger] after[i]).0 != (
    #[trigger] after[j]).0 by {
        if has_key(entries, key) {
            let lj = if j - 1 < p {
                j - 1
            } else {
                j
            };
            assert(after[j] == entries[lj]);
            if i == 0 {
                if lj < p {
                    assert(entries[lj].0 != entries[p].0);
                } else {
                    assert(entries[p].0 != entries[lj].0);
                }
            } else {
                let li = if i - 1 < p {
                    i - 1
                } else {
                    i
                };
                assert(after[i] == entries[li]);
                assert(entries[li].0 != entries[lj].0);
            }
        } else {
            assert(after[j] == entries[j - 1]);
            if i > 0 {
                assert(after[i] == entries[i - 1]);
                assert(entries[i - 1].0 != entries[j - 1].0);
            }
        }
    }
    assert(after[0].0 == key);
    let q = key_position(after, key);
    assert(after[q].0 == key);
}

/// Putting two values in for the same key leaves the second.
proof fn lemma_put_twice<V>(
    entries: Seq<(Seq<u8>, V)>,
    capacity: nat,
    key: Seq<u8>,
    first: V,
    second: V,
)
    requires
        distinct_keys(entries),
        entries.len() <= capacity,
        capacity > 0,
    ensures
        after_put(after_put(entries, capacity, key, first), capacity, key, second) == after_put(
            entries,
            capacity,
            key,
            second,
        ),
{
    lemma_after_put(entries, capacity, key, first);
    let once = after_put(entries, capacity, key, first);
    assert(after_put(once, capacity, key, second) =~= after_put(entries, capacity, key, second));
}

/// Recording an endorsement twice is recording it once.
pub proof fn law_recording_twice(
    entries: Seq<(Seq<u8>, Map<Seq<char>, Seq<u8>>)>,
    capacity: nat,
    chunk_hash: Seq<u8>,
    account_id: Seq<char>,
    signature: Seq<u8>,
)
    requires
        distinct_keys(entries),
        entries.len() <= capacity,
        capacity > 0,
    ensures
        recorded(
            recorded(entries, capacity, chunk_hash, account_id, signature),
            capacity,
            chunk_hash,
            account_id,
            signature,
        ) == recorded(entries, capacity, chunk_hash, account_id, signature),
{
    let known = if has_key(entries, chunk_hash) {
        entries[key_position(entries, chunk_hash)].1
    } else {
        Map::empty()
    };
    let value = known.insert(account_id, signature);
    lemma_after_put(entries, capacity, chunk_hash, value);
    lemma_put_twice(entries, capacity, chunk_hash, value, value);
    assert(value.insert(account_id, signature) =~= value);
}

/// An endorsement that was recorded is found again, and with it all that were known of the same
/// chunk before.
pub proof fn law_recorded_endorsement_is_found(
    entries: Seq<(Seq<u8>, Map<Seq<char>, Seq<u8>>)>,
    capacity: nat,
    chunk_hash: Seq<u8>,
    account_id: Seq<char>,
    signature: Seq<u8>,
)
    requires
        distinct_keys(entries),
        entries.len() <= capacity,
        capacity > 0,
    ensures
        ({
            let after = recorded(entries, capacity, chunk_hash, account_id, signature);
            let found = after[key_position(after, chunk_hash)].1;
            &&& has_key(after, chunk_hash)
            &&& found.contains_key(account_id)
            &&& found[account_id] == signature
            &&& has_key(entries, chunk_hash) ==> {
                let known = entries[key_position(entries, chunk_hash)].1;
                forall|other: Seq<char>|
                    other != account_id && #[trigger] known.contains_key(other)
                        ==> found.contains_key(other) && found[other] == known[other]
            }
        }),
{
    let known = if has_key(entries, chunk_hash) {
        entries[key_position(entries, chunk_hash)].1
    } else {
        Map::empty()
    };
    lemma_after_put(entries, capacity, chunk_hash, known.insert(account_id, signature));
}

/// Recording an endorsement forgets no chunk, unless the chunk is new and there is no room for it:
/// then it forgets the one that was touched longest ago, and no other.
pub proof fn law_recording_forgets_the_oldest(
    entries: Seq<(Seq<u8>, Map<Seq<char>, Seq<u8>>)>,
    capacity: nat,
    chunk_hash: Seq<u8>,
    account_id: Seq<char>,
    signature: Seq<u8>,
    i: int,
)
    requires
        distinct_keys(entries),
        entries.len() <= capacity,
        capacity > 0,
        0 <= i < entries.len(),
        entries[i].0 != chunk_hash,
    ensures
        ({
            let after = recorded(entries, capacity, chunk_hash, account_id, signature);
            let is_full = !has_key(entries, chunk_hash) && entries.len() == capacity;
            if is_full && i == entries.len() - 1 {
                !has_key(after, entries[i].0)
            } else {
                after.contains(entries[i])
            }
        }),
{
    let after = recorded(entries, capacity, chunk_hash, account_id, signature);
    let is_full = !has_key(entries, chunk_hash) && entries.len() == capacity;
    if is_full && i == entries.len() - 1 {
        if has_key(after, entries[i].0) {
            let j = key_position(after, entries[i].0);
            assert(after[j].0 == entries[i].0);
            assert(after[j] == entries[j - 1]);
            assert(entries[j - 1].0 != entries[i].0);
        }
    } else if has_key(entries, chunk_hash) {
        let p = key_position(entries, chunk_hash);
        assert(entries[p].0 == chunk_hash);
        if i < p {
            assert(after[i + 1] == entries[i]);
        } else {
            assert(after[i] == entries[i]);
        }
    } else {
        assert(after[i + 1] == entries[i]);
    }
}

/// Gives an account its signature in a list, in place of the one it had, if any.
fn add_signature(list: &mut SignatureList, account_id: &AccountId, signature: &Signature)
    requires
        distinct_names(signatures_view(old(list)@)),
    ensures
        distinct_names(signatures_view(final(list)@)),
        signature_map(signatures_view(final(list)@)) == signature_map(
            signatures_view(old(list)@),
        ).insert(account_id@, signature.0@),
{
    let ghost known = signatures_view(list@);
    let mut i: usize = 0;
    let mut found = false;
    while i < list.len() && !found
        invariant
            i <= list@.len(),
            known == signatures_view(list@),
            found ==> i < list@.len() && list@[i as int].0@ == account_id@,
            !found ==> forall|j: int| 0 <= j < i ==> (#[trigger] known[j]).0 != account_id@,
        decreases list@.len() - i + (if found { 0int } else { 1int }),
    {
        if list[i].0 == *account_id {
            found = true;
        } else {
            i += 1;
        }
    }
    if found {
        list.set(i, (account_id.clone(), signature.0));
        proof {
            let after = signatures_view(list@);
            assert(after =~= known.update(i as int, (known[i as int].0, signature.0@)));
            lemma_signature_map_update(known, i as int, signature.0@);
            assert(distinct_names(after)) by {
                assert forall|a: int, b: int| 0 <= a < b < after.len() implies (
                #[trigger] after[a]).0 != (#[trigger] after[b]).0 by {
                    assert(known[a].0 != known[b].0);
                }
            }
        }
    } else {
        list.push((account_id.clone(), signature.0));
        proof {
            let after = signatures_view(list@);
            assert(after =~= known.push((account_id@, signature.0@)));
            assert(after.drop_last() =~= known);
            assert(distinct_names(after)) by {
                assert forall|a: int, b: int| 0 <= a < b < after.len() implies (
                #[trigger] after[a]).0 != (#[trigger] after[b]).0 by {
                    if b < known.len() {
                        assert(known[a].0 != known[b].0);
                    } else {
                        assert(known[a].0 != account_id@);
                    }
                }
            }
        }
    }
    assert(signature_map(signatures_view(list@)) =~= signature_map(known).insert(
        account_id@,
        signature.0@,
    ));
}

/// Putting in a list without a name that occurs twice keeps all lists so.
proof fn lemma_names_after_put(
    entries: Seq<(Seq<u8>, Seq<(Seq<char>, Seq<u8>)>)>,
    capacity: nat,
    key: Seq<u8>,
    value: Seq<(Seq<char>, Seq<u8>)>,
)
    requires
        forall|i: int| 0 <= i < entries.len() ==> distinct_names((#[trigger] entries[i]).1),
        distinct_names(value),
    ensures
        ({
            let after = after_put(entries, capacity, key, value);
            forall|i: int| 0 <= i < after.len() ==> distinct_names((#[trigger] after[i]).1)
        }),
{
    let after = after_put(entries, capacity, key, value);
    assert forall|j: int| 0 <= j < after.len() implies distinct_names((#[trigger] after[j]).1) by {
        if after == entries {
            assert(distinct_names(entries[j].1));
        } else if j > 0 {
            if has_key(entries, key) {
                let l = if j - 1 < key_position(entries, key) {
                    j - 1
                } else {
                    j
                };
                assert(after[j] == entries[l]);
            } else {
                assert(after[j] == entries[j - 1]);
            }
        }
    }
}

impl View for ChunkEndorsementTracker {
    type V = Seq<(Seq<u8>, Map<Seq<char>, Seq<u8>>)>;

    /// For each chunk, the signature of each account that has endorsed it; the chunk touched last
    /// comes first.
    closed spec fn view(&self) -> Seq<(Seq<u8>, Map<Seq<char>, Seq<u8>>)> {
        as_maps(cache_entries(self.chunk_endorsements))
    }
}

impl ChunkEndorsementTracker {
    /// How many chunks there is room for.
    pub closed spec fn capacity(self) -> nat {
        cache_capacity(self.chunk_endorsements)
    }

    /// Every chunk stands once, and there is room for all of them.
    pub open spec fn wf(self) -> bool {
        &&& distinct_keys(self@)
        &&& self@.len() <= self.capacity()
        &&& self.capacity() > 0
    }

    #[verifier::type_invariant]
    spec fn inv(self) -> bool {
        let entries = cache_entries(self.chunk_endorsements);
        &&& cache_capacity(self.chunk_endorsements) > 0
        &&& entries.len() <= cache_capacity(self.chunk_endorsements)
        &&& distinct_keys(entries)
        &&& forall|i: int| 0 <= i < entries.len() ==> distinct_names((#[trigger] entries[i]).1)
    }

    /// Keeps the endorsements of up to `capacity` chunks.
    pub fn new(capacity: usize) -> (r: ChunkEndorsementTracker)
        requires
            0 < capacity <= MAX_CHUNKS,
        ensures
            r.wf(),
            r@.len() == 0,
            r.capacity() == capacity,
    {
        ChunkEndorsementTracker { chunk_endorsements: cache_new(capacity) }
    }

    /// Records that an account has endorsed a chunk.
    pub fn record(
        &mut self,
        chunk_hash: &CryptoHash,
        account_id: &AccountId,
        signature: &Signature,
    )
        ensures
            final(self).wf(),
            final(self)@ == recorded(
                old(self)@,
                old(self).capacity(),
                chunk_hash.0@,
                account_id@,
                signature.0@,
            ),
            final(self).capacity() == old(self).capacity(),
    {
        proof {
            use_type_invariant(&*self);
        }
        let ghost before = cache_entries(self.chunk_endorsements);
        let ghost capacity = cache_capacity(self.chunk_endorsements);
        let ghost key = chunk_hash.0@;
        let mut cache = cache_new(1);
        std::mem::swap(&mut cache, &mut self.chunk_endorsements);
        let default: SignatureList = Vec::new();
        assert(signatures_view(default@) =~= Seq::empty());
        let mut list = cache_get_or_put(&mut cache, chunk_hash.0, default);
        let ghost known = signatures_view(list@);
        assert(distinct_names(known)) by {
            if has_key(before, key) {
                assert(distinct_names(before[key_position(before, key)].1));
            }
        }
        proof {
            lemma_after_put(before, capacity, key, known);
        }
        add_signature(&mut list, account_id, signature);
        let ghost value = signatures_view(list@);
        cache_put(&mut cache, chunk_hash.0, list);
        proof {
            lemma_put_twice(before, capacity, key, known, value);
            lemma_after_put(before, capacity, key, value);
            lemma_as_maps_keys(before, key);
            let after = after_put(before, capacity, key, value);
            lemma_as_maps_keys(after, key);
            lemma_names_after_put(before, capacity, key, value);
            let maps = as_maps(before);
            let known_map = if has_key(maps, key) {
                maps[key_position(maps, key)].1
            } else {
                Map::empty()
            };
            assert(known_map =~= signature_map(known));
            assert(as_maps(after) =~= recorded(maps, capacity, key, account_id@, signature.0@));
        }
        self.chunk_endorsements = cache;
    }

    /// The endorsements of a chunk: each account that has endorsed it, and its signature. Looking
    /// a chunk up counts as touching it.
    pub fn endorsements(&mut self, chunk_hash: &CryptoHash) -> (r: Option<SignatureList>)
        ensures
            final(self).wf(),
            final(self).capacity() == old(self).capacity(),
            match r {
                Some(list) => {
                    &&& has_key(old(self)@, chunk_hash.0@)
                    &&& distinct_names(signatures_view(list@))
                    &&& signature_map(signatures_view(list@)) == old(self)@[key_position(
                        old(self)@,
                        chunk_hash.0@,
                    )].1
                    &&& final(self)@ == after_put(
                        old(self)@,
                        old(self).capacity(),
                        chunk_hash.0@,
                        signature_map(signatures_view(list@)),
                    )
                },
                None => !has_key(old(self)@, chunk_hash.0@) && final(self)@ == old(self)@,
            },
    {
        proof {
            use_type_invariant(&*self);
        }
        let ghost before = cache_entries(self.chunk_endorsements);
        let ghost capacity = cache_capacity(self.chunk_endorsements);
        let ghost key = chunk_hash.0@;
        let mut cache = cache_new(1);
        std::mem::swap(&mut cache, &mut self.chunk_endorsements);
        let r = cache_get(&mut cache, &chunk_hash.0);
        proof {
            lemma_as_maps_keys(before, key);
            if has_key(before, key) {
                let p = key_position(before, key);
                let value = before[p].1;
                lemma_after_put(before, capacity, key, value);
                let after = after_put(before, capacity, key, value);
                assert(distinct_names(before[p].1));
                lemma_names_after_put(before, capacity, key, value);
                assert(as_maps(after) =~= after_put(
                    as_maps(before),
                    capacity,
                    key,
                    signature_map(value),
                ));
            }
        }
        self.chunk_endorsements = cache;
        r
    }
}

/// Recording an endorsement puts its chunk in front, with the signature beside those that were
/// known of it, and leaves all other chunks behind it as they were and in their order. Where the
/// chunk is new and there is no room for it, the chunk at the very end goes.
pub proof fn law_recording_puts_the_chunk_in_front(
    entries: Seq<(Seq<u8>, Map<Seq<char>, Seq<u8>>)>,
    capacity: nat,
    chunk_hash: Seq<u8>,
    account_id: Seq<char>,
    signature: Seq<u8>,
    at: int,
)
    requires
        forall|i: int, j: int|
            0 <= i < j < entries.len() ==> (#[trigger] entries[i]).0 != (#[trigger] entries[j]).0,
        entries.len() <= capacity,
        capacity > 0,
    ensures
        ({
            let after = recorded(entries, capacity, chunk_hash, account_id, signature);
            let is_new = forall|i: int|
                0 <= i < entries.len() ==> (#[trigger] entries[i]).0 != chunk_hash;
            let alone = Map::<Seq<char>, Seq<u8>>::empty().insert(account_id, signature);
            &&& 0 <= at < entries.len() && entries[at].0 == chunk_hash ==> after == seq![
                (chunk_hash, entries[at].1.insert(account_id, signature)),
            ] + entries.remove(at)
            &&& is_new && entries.len() < capacity ==> after == seq![(chunk_hash, alone)] + entries
            &&& is_new && entries.len() == capacity ==> after == seq![(chunk_hash, alone)]
                + entries.drop_last()
        }),
{
    if 0 <= at < entries.len() && entries[at].0 == chunk_hash {
        let p = key_position(entries, chunk_hash);
        assert(entries[p].0 == chunk_hash);
        if p < at {
            assert(entries[p].0 != entries[at].0);
        } else if at < p {
            assert(entries[at].0 != entries[p].0);
        }
    }
}

/// A list of signatures stands for the signature of each account that is in it, the later one where
/// an account is in it twice.
pub proof fn law_later_signature_counts(
    list: Seq<(Seq<char>, Seq<u8>)>,
    account_id: Seq<char>,
    signature: Seq<u8>,
)
    ensures
        signature_map(Seq::empty()) == Map::<Seq<char>, Seq<u8>>::empty(),
        signature_map(list.push((account_id, signature))) == signature_map(list).insert(
            account_id,
            signature,
        ),
{
    assert(list.push((account_id, signature)).drop_last() =~= list);
}

} // verus!
