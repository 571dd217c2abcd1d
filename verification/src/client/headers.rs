//! Walks along the chain's headers: to serve a peer that is behind, and to find the block at which
//! to fetch the state.
use vstd::prelude::*;
use crate::client::actor::ClientActor;
use crate::ancestry::ancestor;
use crate::client::errors::ChainError;
use crate::types::{BlockHeader, BlockHeight, CryptoHash, Tip};

verus! {

/// A collection of headers for a peer, in order of height.
#[derive(Debug)]
pub struct HeadersWalk {
    /// The height to look at next, if the walk is not over.
    pub next_height: Option<BlockHeight>,
    /// The last height to look at.
    pub max_height: BlockHeight,
    /// How many headers are enough.
    pub limit: usize,
    /// The headers found so far.
    pub headers: Vec<BlockHeader>,
}

/// The headers that a chain has at the heights from `from` up to, but without, `to`.
pub open spec fn headers_between(
    by_height: Map<BlockHeight, BlockHeader>,
    from: int,
    to: int,
) -> Seq<BlockHeader>
    decreases to - from,
{
    if to <= from {
        Seq::empty()
    } else {
        let before = headers_between(by_height, from, to - 1);
        let height = (to - 1) as BlockHeight;
        if by_height.contains_key(height) {
            before.push(by_height[height])
        } else {
            before
        }
    }
}

proof fn lemma_headers_grow(
    by_height: Map<BlockHeight, BlockHeader>,
    from: int,
    mid: int,
    to: int,
)
    requires
        mid <= to,
    ensures
        headers_between(by_height, from, mid).is_prefix_of(headers_between(by_height, from, to)),
    decreases to - mid,
{
    if mid < to {
        lemma_headers_grow(by_height, from, mid, to - 1);
    }
}

/// A collection that begins right above a common header, if there is one, and has found nothing so
/// far.
pub open spec fn begins_above(
    walk: HeadersWalk,
    common_header: Option<BlockHeader>,
    head: Tip,
    limit: usize,
) -> bool {
    &&& walk.headers@.len() == 0
    &&& match common_header {
        None => walk.next_height is None,
        Some(header) => {
            &&& walk.max_height == head.height
            &&& walk.limit == limit
            &&& walk.next_height == (if header.height < head.height {
                Some((header.height + 1) as u64)
            } else {
                None
            })
        },
    }
}

impl HeadersWalk {
    /// The headers found are those that a chain has from `from` up to the height to look at next.
    /// A walk that is over has got to its last height, or has found as many headers as are
    /// enough.
    pub open spec fn follows(self, by_height: Map<BlockHeight, BlockHeader>, from: int) -> bool {
        &&& self.headers@.len() <= self.limit || self.headers@.len() <= 1
        &&& match self.next_height {
            Some(next) => {
                &&& from <= next <= self.max_height
                &&& self.headers@ == headers_between(by_height, from, next as int)
                &&& self.headers@.len() == 0 || self.headers@.len() < self.limit
            },
            None => {
                ||| self.headers@ == headers_between(by_height, from, self.max_height + 1)
                ||| {
                    &&& self.headers@.is_prefix_of(
                        headers_between(by_height, from, self.max_height + 1),
                    )
                    &&& self.headers@.len() > 0
                    &&& self.headers@.len() >= self.limit
                }
            },
        }
    }

    /// Begins right above the header that the chain has in common with a peer, and goes up to the
    /// latest header. There is nothing to collect where the two have no header in common.
    pub fn new(
        common_header: Option<BlockHeader>,
        header_head: Result<Tip, ChainError>,
        limit: usize,
    ) -> (r: Result<HeadersWalk, ChainError>)
        requires
            common_header matches Some(header) ==> header.height < u64::MAX,
        ensures
            match (common_header, header_head) {
                (None, _) => {
                    &&& r matches Ok(walk)
                    &&& walk.next_height is None
                    &&& walk.headers@.len() == 0
                },
                (Some(_), Err(error)) => r == Err::<HeadersWalk, ChainError>(error),
                (Some(header), Ok(head)) => {
                    &&& r matches Ok(walk)
                    &&& walk.next_height == (if header.height < head.height {
                        Some((header.height + 1) as u64)
                    } else {
                        None
                    })
                    &&& walk.max_height == head.height
                    &&& walk.limit == limit
                    &&& walk.headers@.len() == 0
                    &&& forall|by_height: Map<BlockHeight, BlockHeader>| #[trigger]
                        walk.follows(by_height, header.height + 1)
                },
            },
            header_head matches Ok(head) ==> r is Ok && begins_above(
                r->Ok_0,
                common_header,
                head,
                limit,
            ),
    {
        let header = match common_header {
            Some(header) => header,
            None => {
                return Ok(
                    HeadersWalk { next_height: None, max_height: 0, limit, headers: Vec::new() },
                );
            },
        };
        let max_height: u64 = match header_head {
            Ok(head) => head.height,
            Err(error) => {
                return Err(error);
            },
        };
        let next_height = if header.height < max_height {
            Some(header.height + 1)
        } else {
            None
        };
        let walk = HeadersWalk { next_height, max_height, limit, headers: Vec::new() };
        proof {
            assert forall|by_height: Map<BlockHeight, BlockHeader>| #[trigger]
                walk.follows(by_height, header.height + 1) by {
                assert(walk.headers@ =~= Seq::empty());
            }
        }
        Ok(walk)
    }

    /// Takes up what the chain has at the height that was wanted, and goes on to the next height,
    /// unless that was the last or there are enough headers.
    pub fn push_header(&mut self, header: Option<BlockHeader>)
        requires
            old(self).next_height matches Some(next) ==> next <= old(self).max_height,
        ensures
            final(self).max_height == old(self).max_height,
            final(self).limit == old(self).limit,
            match old(self).next_height {
                None => *final(self) == *old(self),
                Some(next) => {
                    let headers = match header {
                        Some(header) => old(self).headers@.push(header),
                        None => old(self).headers@,
                    };
                    &&& final(self).headers@ == headers
                    &&& final(self).next_height == (if header is Some && headers.len() >= old(
                        self,
                    ).limit || next == old(self).max_height {
                        None
                    } else {
                        Some((next + 1) as u64)
                    })
                },
            },
            forall|by_height: Map<BlockHeight, BlockHeader>, from: int|
                (old(self).next_height matches Some(next) && old(self).follows(by_height, from)
                    && header == (if by_height.contains_key(next) {
                    Some(by_height[next])
                } else {
                    None
                })) ==> #[trigger] final(self).follows(by_height, from),
    {
        let next: u64 = match self.next_height {
            Some(next) => next,
            None => {
                return;
            },
        };
        let ghost before = *self;
        let found = header.is_some();
        match header {
            Some(header) => {
                self.headers.push(header);
            },
            None => {},
        }
        if found && self.headers.len() >= self.limit || next == self.max_height {
            self.next_height = None;
        } else {
            self.next_height = Some(next + 1);
        }
        proof {
            assert forall|by_height: Map<BlockHeight, BlockHeader>, from: int|
                before.follows(by_height, from) && header == (if by_height.contains_key(next) {
                    Some(by_height[next])
                } else {
                    None
                }) implies #[trigger] self.follows(by_height, from) by {
                assert(self.headers@ =~= headers_between(by_height, from, next + 1));
                lemma_headers_grow(by_height, from, next + 1, self.max_height + 1);
            }
        }
    }
}

/// A walk that is over hands back, in order of height, the headers that the chain has above the
/// common one, all of them or as many as are enough, and no more. The first is always among them.
pub proof fn law_headers_are_served_in_order(
    walk: HeadersWalk,
    by_height: Map<BlockHeight, BlockHeader>,
    from: int,
)
    requires
        walk.next_height is None,
        walk.follows(by_height, from),
    ensures
        ({
            let all = headers_between(by_height, from, walk.max_height + 1);
            &&& walk.headers@.is_prefix_of(all)
            &&& walk.headers@ == all || walk.headers@.len() >= walk.limit
            &&& walk.headers@.len() <= walk.limit || walk.headers@.len() <= 1
            &&& all.len() > 0 ==> walk.headers@.len() > 0
        }),
{
}

/// The search for the block at which to fetch the state.
#[derive(Debug)]
pub struct SyncHashWalk {
    /// Where the search stands.
    pub sync_hash: CryptoHash,
    /// How many blocks it has yet to go back.
    pub blocks_left: u64,
}

impl SyncHashWalk {
    /// The block whose header is needed next, unless the search is over.
    pub fn wanted(&self) -> (r: Option<CryptoHash>)
        ensures
            r == (if self.blocks_left > 0 {
                Some(self.sync_hash)
            } else {
                None
            }),
    {
        if self.blocks_left > 0 {
            Some(self.sync_hash)
        } else {
            None
        }
    }

    /// The search has gone back from `start` along a chain for all but `blocks_left` of the
    /// `horizon` blocks.
    pub open spec fn follows(
        self,
        chain: Map<CryptoHash, BlockHeader>,
        start: CryptoHash,
        horizon: u64,
    ) -> bool {
        &&& self.blocks_left <= horizon
        &&& self.sync_hash == ancestor(chain, start, (horizon - self.blocks_left) as nat)
    }

    /// Goes back by one block, given its header.
    pub fn push_header(&mut self, header: Result<BlockHeader, ChainError>) -> (r: Result<
        (),
        ChainError,
    >)
        requires
            old(self).blocks_left > 0,
        ensures
            match header {
                Ok(header) => {
                    &&& r == Ok::<(), ChainError>(())
                    &&& final(self).sync_hash == header.prev_hash
                    &&& final(self).blocks_left == old(self).blocks_left - 1
                },
                Err(error) => r == Err::<(), ChainError>(error) && *final(self) == *old(self),
            },
            forall|chain: Map<CryptoHash, BlockHeader>, start: CryptoHash, horizon: u64|
                old(self).follows(chain, start, horizon) && header == Ok::<
                    BlockHeader,
                    ChainError,
                >(chain[old(self).sync_hash]) ==> #[trigger] final(self).follows(
                    chain,
                    start,
                    horizon,
                ),
    {
        match header {
            Ok(header) => {
                self.sync_hash = header.prev_hash;
                self.blocks_left = self.blocks_left - 1;
                Ok(())
            },
            Err(error) => Err(error),
        }
    }
}

/// Where the search for the block at which to fetch the state begins.
pub open spec fn search_from(
    client: ClientActor,
    header_head: Result<Tip, ChainError>,
) -> Result<SyncHashWalk, ChainError> {
    match header_head {
        Ok(head) => Ok(
            SyncHashWalk {
                sync_hash: head.prev_block_hash,
                blocks_left: client.config.state_fetch_horizon,
            },
        ),
        Err(error) => Err(error),
    }
}

impl ClientActor {
    /// Starts the search for the block at which to fetch the state: a number of blocks back from
    /// the parent of the latest header.
    pub fn find_sync_hash(&self, header_head: Result<Tip, ChainError>) -> (r: Result<
        SyncHashWalk,
        ChainError,
    >)
        ensures
            r == search_from(*self, header_head),
            match header_head {
                Ok(head) => {
                    &&& r matches Ok(walk)
                    &&& walk.sync_hash == head.prev_block_hash
                    &&& walk.blocks_left == self.config.state_fetch_horizon
                    &&& forall|chain: Map<CryptoHash, BlockHeader>| #[trigger]
                        walk.follows(chain, head.prev_block_hash, self.config.state_fetch_horizon)
                },
                Err(error) => r == Err::<SyncHashWalk, ChainError>(error),
            },
    {
        match header_head {
            Ok(head) => Ok(
                SyncHashWalk {
                    sync_hash: head.prev_block_hash,
                    blocks_left: self.config.state_fetch_horizon,
                },
            ),
            Err(error) => Err(error),
        }
    }
}

/// The search ends at the block that lies as many steps back as the horizon says.
pub proof fn law_sync_hash_lies_at_horizon(
    walk: SyncHashWalk,
    chain: Map<CryptoHash, BlockHeader>,
    start: CryptoHash,
    horizon: u64,
)
    requires
        walk.follows(chain, start, horizon),
        walk.blocks_left == 0,
    ensures
        walk.sync_hash == ancestor(chain, start, horizon as nat),
{
}

/// The headers of a stretch of heights are those of its first part and then those of the rest, and
/// a single height has the one header that the chain has there, or none.
pub proof fn law_stretches_of_headers_join(
    by_height: Map<BlockHeight, BlockHeader>,
    from: int,
    mid: int,
    to: int,
    height: BlockHeight,
)
    requires
        from <= mid <= to,
    ensures
        headers_between(by_height, from, to) == headers_between(by_height, from, mid)
            + headers_between(by_height, mid, to),
        headers_between(by_height, height as int, height + 1) == (if by_height.contains_key(
            height,
        ) {
            seq![by_height[height]]
        } else {
            Seq::empty()
        }),
        headers_between(by_height, from, from).len() == 0,
    decreases to - mid,
{
    reveal_with_fuel(headers_between, 2);
    assert(headers_between(by_height, height as int, height as int) =~= Seq::empty());
    if mid < to {
        law_stretches_of_headers_join(by_height, from, mid, to - 1, height);
        assert(headers_between(by_height, from, to) =~= headers_between(by_height, from, mid)
            + headers_between(by_height, mid, to));
    } else {
        assert(headers_between(by_height, from, mid) + headers_between(by_height, mid, to)
            =~= headers_between(by_height, from, to));
    }
}

/// The search for the block at which to fetch the state begins at the parent of the latest header,
/// and goes back by as many blocks as the client is set to. Without a latest header there is none.
pub proof fn law_search_begins_at_the_parent_of_the_latest_header(
    client: ClientActor,
    header_head: Result<Tip, ChainError>,
)
    ensures
        match search_from(client, header_head) {
            Ok(walk) => {
                &&& header_head is Ok
                &&& walk.sync_hash == header_head->Ok_0.prev_block_hash
                &&& walk.blocks_left == client.config.state_fetch_horizon
            },
            Err(error) => header_head == Err::<Tip, ChainError>(error),
        },
{
}

/// A collection for a peer looks at the height right above the common header first, and goes no
/// further than the latest header. There is nothing to look at where the common header is the
/// latest or above it, or where there is none.
pub proof fn law_collection_begins_right_above_the_common_header(
    walk: HeadersWalk,
    common_header: Option<BlockHeader>,
    head: Tip,
    limit: usize,
)
    requires
        begins_above(walk, common_header, head, limit),
    ensures
        walk.headers@.len() == 0,
        walk.next_height is Some <==> common_header is Some && common_header->Some_0.height
            < head.height,
        walk.next_height matches Some(next) ==> {
            &&& next == common_header->Some_0.height + 1
            &&& walk.max_height == head.height
            &&& walk.limit == limit
            &&& next <= walk.max_height
        },
{
}

} // verus!
