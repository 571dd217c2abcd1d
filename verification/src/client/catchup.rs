//! Fetching the state for epochs to come: a walk over the blocks at which that is noted to be under
//! way.
//!
//! Each answer leads to the next step. A walk that has failed is gone, so nothing can follow.
use std::collections::HashMap;
use vstd::prelude::*;
use crate::client::actor::{ClientActor, ShardStatuses, ShardSyncStatus};
use crate::client::errors::Error;
use crate::client::sync::StateSyncResult;
use crate::types::{CryptoHash, ShardId};

verus! {

/// A walk over the fetches of state that the chain has noted: for each, the block at which the
/// state is fetched and the shards that are fetched there.
#[derive(Debug)]
pub struct CatchupWalk {
    pub syncs: Vec<(CryptoHash, Vec<ShardId>)>,
    /// The fetch that is being dealt with.
    pub at: usize,
}

/// What a walk has to do next, or how it has ended.
#[derive(Debug)]
pub enum CatchupStep {
    /// Fetch the state of these shards at this block for another round.
    RunStateSync {
        sync_hash: CryptoHash,
        shards: Vec<ShardId>,
        shard_statuses: ShardStatuses,
        walk: CatchupWalk,
    },
    /// Catch up with the blocks that follow this one.
    CatchupBlocks { sync_hash: CryptoHash, walk: CatchupWalk },
    /// Every fetch has been dealt with.
    Done,
    /// A fetch has failed, and those after it are left alone.
    Fail(Error),
}

/// A step, without what is handed along with it.
pub enum CatchupMove {
    Run { sync_hash: CryptoHash, shards: Seq<ShardId> },
    Blocks { sync_hash: CryptoHash },
    Done,
    Fail(Error),
}

/// The noted fetches of a list.
pub open spec fn syncs_view(syncs: Seq<(CryptoHash, Vec<ShardId>)>) -> Seq<
    (CryptoHash, Seq<ShardId>),
> {
    syncs.map_values(|sync: (CryptoHash, Vec<ShardId>)| (sync.0, sync.1@))
}

/// What a walk does when it comes to a place in the list.
pub open spec fn move_at(syncs: Seq<(CryptoHash, Seq<ShardId>)>, at: int) -> CatchupMove {
    if at < syncs.len() {
        CatchupMove::Run { sync_hash: syncs[at].0, shards: syncs[at].1 }
    } else {
        CatchupMove::Done
    }
}

/// What it does once a round of fetching state is over.
pub open spec fn move_after_run(
    syncs: Seq<(CryptoHash, Seq<ShardId>)>,
    at: int,
    result: Result<StateSyncResult, Error>,
) -> CatchupMove {
    match result {
        Err(error) => CatchupMove::Fail(error),
        Ok(StateSyncResult::Completed) => CatchupMove::Blocks { sync_hash: syncs[at].0 },
        Ok(_) => move_at(syncs, at + 1),
    }
}

/// What it does once the blocks that follow have been caught up with.
pub open spec fn move_after_blocks(
    syncs: Seq<(CryptoHash, Seq<ShardId>)>,
    at: int,
    result: Result<(), Error>,
) -> CatchupMove {
    match result {
        Err(error) => CatchupMove::Fail(error),
        Ok(()) => move_at(syncs, at + 1),
    }
}

/// What is known of the fetches when the walk comes to a place in the list: a fetch that is new to
/// the client is there with no shard begun, and nothing else has changed.
pub open spec fn opened(
    before: Map<CryptoHash, ShardStatuses>,
    after: Map<CryptoHash, ShardStatuses>,
    syncs: Seq<(CryptoHash, Seq<ShardId>)>,
    at: int,
) -> bool {
    if at < syncs.len() && !before.contains_key(syncs[at].0) {
        let sync_hash = syncs[at].0;
        &&& after == before.insert(sync_hash, after[sync_hash])
        &&& after[sync_hash]@ == Map::<ShardId, ShardSyncStatus>::empty()
    } else {
        after == before
    }
}

impl CatchupStep {
    /// The step makes a move. Where the walk goes on, it goes on in the same list at the given
    /// place, and with what is known of the fetch there.
    pub open spec fn makes(
        self,
        next: CatchupMove,
        syncs: Seq<(CryptoHash, Seq<ShardId>)>,
        at: int,
        known: Map<CryptoHash, ShardStatuses>,
    ) -> bool {
        match self {
            CatchupStep::RunStateSync { sync_hash, shards, shard_statuses, walk } => {
                &&& next == CatchupMove::Run { sync_hash, shards: shards@ }
                &&& known.contains_key(sync_hash)
                &&& shard_statuses@ == known[sync_hash]@
                &&& syncs_view(walk.syncs@) == syncs
                &&& walk.at == at
                &&& at < syncs.len()
            },
            CatchupStep::CatchupBlocks { sync_hash, walk } => {
                &&& next == CatchupMove::Blocks { sync_hash }
                &&& syncs_view(walk.syncs@) == syncs
                &&& walk.at == at
                &&& at < syncs.len()
            },
            CatchupStep::Done => next is Done,
            CatchupStep::Fail(error) => next == CatchupMove::Fail(error),
        }
    }
}

impl ClientActor {
    /// Begins a walk over the fetches of state that the chain has noted.
    pub fn catchup(&mut self, syncs: Vec<(CryptoHash, Vec<ShardId>)>) -> (r: CatchupStep)
        ensures
            *final(self) == (ClientActor {
                catchup_state_syncs: final(self).catchup_state_syncs,
                ..*old(self)
            }),
            opened(
                old(self).catchup_state_syncs@,
                final(self).catchup_state_syncs@,
                syncs_view(syncs@),
                0,
            ),
            r.makes(
                move_at(syncs_view(syncs@), 0),
                syncs_view(syncs@),
                0,
                final(self).catchup_state_syncs@,
            ),
    {
        self.next_sync(CatchupWalk { syncs, at: 0 })
    }

    fn next_sync(&mut self, walk: CatchupWalk) -> (r: CatchupStep)
        ensures
            *final(self) == (ClientActor {
                catchup_state_syncs: final(self).catchup_state_syncs,
                ..*old(self)
            }),
            opened(
                old(self).catchup_state_syncs@,
                final(self).catchup_state_syncs@,
                syncs_view(walk.syncs@),
                walk.at as int,
            ),
            r.makes(
                move_at(syncs_view(walk.syncs@), walk.at as int),
                syncs_view(walk.syncs@),
                walk.at as int,
                final(self).catchup_state_syncs@,
            ),
    {
        if walk.at >= walk.syncs.len() {
            return CatchupStep::Done;
        }
        let sync_hash = walk.syncs[walk.at].0;
        let shards = walk.syncs[walk.at].1.clone();
        assert(shards@ =~= walk.syncs@[walk.at as int].1@);
        if !self.catchup_state_syncs.contains_key(&sync_hash) {
            self.catchup_state_syncs.insert(sync_hash, HashMap::new());
        }
        let shard_statuses = match self.catchup_state_syncs.get(&sync_hash) {
            Some(statuses) => statuses.clone(),
            None => HashMap::new(),
        };
        CatchupStep::RunStateSync { sync_hash, shards, shard_statuses, walk }
    }

    /// Goes on with a walk once a round of fetching state is over, which has left the shards as
    /// `shard_statuses` says. That is kept whatever the round came to. Where all shards are done,
    /// the blocks that follow can be caught up with; a failure ends the walk.
    pub fn catchup_state_sync_ran(
        &mut self,
        walk: CatchupWalk,
        shard_statuses: ShardStatuses,
        result: Result<StateSyncResult, Error>,
    ) -> (r: CatchupStep)
        requires
            walk.at < walk.syncs@.len(),
        ensures
            *final(self) == (ClientActor {
                catchup_state_syncs: final(self).catchup_state_syncs,
                ..*old(self)
            }),
            ({
                let syncs = syncs_view(walk.syncs@);
                let at = walk.at as int;
                let kept = old(self).catchup_state_syncs@.insert(syncs[at].0, shard_statuses);
                let after = final(self).catchup_state_syncs@;
                let goes_on = result matches Ok(result) && !(result is Completed);
                &&& if goes_on {
                    opened(kept, after, syncs, at + 1)
                } else {
                    after == kept
                }
                &&& r.makes(
                    move_after_run(syncs, at, result),
                    syncs,
                    if goes_on {
                        at + 1
                    } else {
                        at
                    },
                    after,
                )
            }),
    {
        let sync_hash = walk.syncs[walk.at].0;
        self.catchup_state_syncs.insert(sync_hash, shard_statuses);
        match result {
            Err(error) => CatchupStep::Fail(error),
            Ok(StateSyncResult::Completed) => CatchupStep::CatchupBlocks { sync_hash, walk },
            Ok(_) => {
                let count = walk.syncs.len();
                assert(walk.at < count);
                self.next_sync(CatchupWalk { syncs: walk.syncs, at: walk.at + 1 })
            },
        }
    }

    /// Goes on with a walk once the blocks that follow have been caught up with. A failure ends it.
    pub fn catchup_blocks_processed(
        &mut self,
        walk: CatchupWalk,
        result: Result<(), Error>,
    ) -> (r: CatchupStep)
        requires
            walk.at < walk.syncs@.len(),
        ensures
            *final(self) == (ClientActor {
                catchup_state_syncs: final(self).catchup_state_syncs,
                ..*old(self)
            }),
            ({
                let syncs = syncs_view(walk.syncs@);
                let at = walk.at as int;
                let before = old(self).catchup_state_syncs@;
                let after = final(self).catchup_state_syncs@;
                &&& if result is Ok {
                    opened(before, after, syncs, at + 1)
                } else {
                    after == before
                }
                &&& r.makes(
                    move_after_blocks(syncs, at, result),
                    syncs,
                    if result is Ok {
                        at + 1
                    } else {
                        at
                    },
                    after,
                )
            }),
    {
        match result {
            Err(error) => CatchupStep::Fail(error),
            Ok(()) => {
                let count = walk.syncs.len();
                assert(walk.at < count);
                self.next_sync(CatchupWalk { syncs: walk.syncs, at: walk.at + 1 })
            },
        }
    }
}

/// All moves of a walk from a place in the list on, where `runs` and `blocks` say what each round
/// of fetching state and each catching up with blocks comes to.
pub open spec fn moves_from(
    syncs: Seq<(CryptoHash, Seq<ShardId>)>,
    runs: Seq<Result<StateSyncResult, Error>>,
    blocks: Seq<Result<(), Error>>,
    at: int,
) -> Seq<CatchupMove>
    decreases syncs.len() - at,
{
    let first = seq![move_at(syncs, at)];
    if at >= syncs.len() {
        first
    } else {
        match move_after_run(syncs, at, runs[at]) {
            CatchupMove::Fail(error) => first.push(CatchupMove::Fail(error)),
            CatchupMove::Blocks { sync_hash } => {
                let second = first.push(CatchupMove::Blocks { sync_hash });
                match move_after_blocks(syncs, at, blocks[at]) {
                    CatchupMove::Fail(error) => second.push(CatchupMove::Fail(error)),
                    _ => second + moves_from(syncs, runs, blocks, at + 1),
                }
            },
            _ => first + moves_from(syncs, runs, blocks, at + 1),
        }
    }
}

/// Why a fetch fails, if it does.
pub open spec fn failure_at(
    runs: Seq<Result<StateSyncResult, Error>>,
    blocks: Seq<Result<(), Error>>,
    i: int,
) -> Option<Error> {
    match (runs[i], blocks[i]) {
        (Err(error), _) => Some(error),
        (Ok(StateSyncResult::Completed), Err(error)) => Some(error),
        _ => None,
    }
}

/// What is done about one fetch: a round on its own shards, and the blocks that follow exactly if
/// the round completed it.
pub open spec fn moves_for(
    syncs: Seq<(CryptoHash, Seq<ShardId>)>,
    runs: Seq<Result<StateSyncResult, Error>>,
    i: int,
) -> Seq<CatchupMove> {
    let run = seq![CatchupMove::Run { sync_hash: syncs[i].0, shards: syncs[i].1 }];
    if runs[i] == Ok::<StateSyncResult, Error>(StateSyncResult::Completed) {
        run.push(CatchupMove::Blocks { sync_hash: syncs[i].0 })
    } else {
        run
    }
}

/// What is done about the fetches from `i` up to, but without, `k`, one after the other.
pub open spec fn moves_between(
    syncs: Seq<(CryptoHash, Seq<ShardId>)>,
    runs: Seq<Result<StateSyncResult, Error>>,
    i: int,
    k: int,
) -> Seq<CatchupMove>
    decreases k - i,
{
    if i >= k {
        Seq::empty()
    } else {
        moves_for(syncs, runs, i) + moves_between(syncs, runs, i + 1, k)
    }
}

/// A walk deals with the noted fetches in the order of the list, up to the first that fails. Where
/// `k` is the first, the walk ends there with its failure and does nothing more; where none fails,
/// all are dealt with and the walk ends well.
pub proof fn law_catchup_in_order_up_to_first_failure(
    syncs: Seq<(CryptoHash, Seq<ShardId>)>,
    runs: Seq<Result<StateSyncResult, Error>>,
    blocks: Seq<Result<(), Error>>,
    k: int,
)
    requires
        runs.len() == syncs.len(),
        blocks.len() == syncs.len(),
        0 <= k <= syncs.len(),
        forall|i: int| 0 <= i < k ==> (#[trigger] failure_at(runs, blocks, i)) is None,
        k < syncs.len() ==> failure_at(runs, blocks, k) is Some,
    ensures
        moves_from(syncs, runs, blocks, 0) == moves_between(syncs, runs, 0, k) + (if k
            < syncs.len() {
            moves_for(syncs, runs, k).push(CatchupMove::Fail(failure_at(runs, blocks, k)->0))
        } else {
            seq![CatchupMove::Done]
        }),
{
    lemma_moves_from(syncs, runs, blocks, 0, k);
}

proof fn lemma_moves_from(
    syncs: Seq<(CryptoHash, Seq<ShardId>)>,
    runs: Seq<Result<StateSyncResult, Error>>,
    blocks: Seq<Result<(), Error>>,
    i: int,
    k: int,
)
    requires
        0 <= i <= k <= syncs.len(),
        forall|j: int| 0 <= j < k ==> (#[trigger] failure_at(runs, blocks, j)) is None,
        k < syncs.len() ==> failure_at(runs, blocks, k) is Some,
    ensures
        moves_from(syncs, runs, blocks, i) == moves_between(syncs, runs, i, k) + (if k
            < syncs.len() {
            moves_for(syncs, runs, k).push(CatchupMove::Fail(failure_at(runs, blocks, k)->0))
        } else {
            seq![CatchupMove::Done]
        }),
    decreases k - i,
{
    let end = if k < syncs.len() {
        moves_for(syncs, runs, k).push(CatchupMove::Fail(failure_at(runs, blocks, k)->0))
    } else {
        seq![CatchupMove::Done]
    };
    if i < k {
        lemma_moves_from(syncs, runs, blocks, i + 1, k);
        assert(failure_at(runs, blocks, i) is None);
        assert(moves_from(syncs, runs, blocks, i) =~= moves_for(syncs, runs, i) + moves_from(
            syncs,
            runs,
            blocks,
            i + 1,
        ));
    }
    assert(moves_from(syncs, runs, blocks, i) =~= moves_between(syncs, runs, i, k) + end);
}

/// A walk never loses what is known of a fetch: whatever it was before, it is there afterwards.
pub proof fn law_catchup_removes_nothing(
    before: Map<CryptoHash, ShardStatuses>,
    after: Map<CryptoHash, ShardStatuses>,
    syncs: Seq<(CryptoHash, Seq<ShardId>)>,
    at: int,
    sync_hash: CryptoHash,
    shard_statuses: ShardStatuses,
)
    requires
        opened(before, after, syncs, at) || opened(
            before.insert(sync_hash, shard_statuses),
            after,
            syncs,
            at,
        ),
    ensures
        before.dom().subset_of(after.dom()),
        0 <= at < syncs.len() ==> after.contains_key(syncs[at].0),
{
}

/// When a walk comes to a fetch, everything that was known stays as it was; a fetch that was not
/// known is there afterwards, with no shard begun, and nothing else is added.
pub proof fn law_new_fetch_begins_with_nothing(
    before: Map<CryptoHash, ShardStatuses>,
    after: Map<CryptoHash, ShardStatuses>,
    syncs: Seq<(CryptoHash, Seq<ShardId>)>,
    at: int,
    hash: CryptoHash,
)
    requires
        opened(before, after, syncs, at),
        0 <= at,
    ensures
        before.contains_key(hash) ==> after.contains_key(hash) && after[hash] == before[hash],
        at < syncs.len() ==> after.contains_key(syncs[at].0),
        after.contains_key(hash) && !before.contains_key(hash) ==> {
            &&& at < syncs.len()
            &&& hash == syncs[at].0
            &&& after[hash]@ == Map::<ShardId, ShardSyncStatus>::empty()
        },
{
}

/// A walk runs a round for each noted fetch, on the shards that are noted with it, and is done
/// behind the last one. Only a round that completed a fetch leads to the blocks that follow its
/// block; after any other round, and after those blocks, the next fetch comes. A failure ends the
/// walk as it is.
pub proof fn law_walk_takes_one_fetch_after_the_other(
    syncs: Seq<(CryptoHash, Seq<ShardId>)>,
    at: int,
    error: Error,
)
    requires
        0 <= at < syncs.len(),
    ensures
        move_at(syncs, at) == (CatchupMove::Run { sync_hash: syncs[at].0, shards: syncs[at].1 }),
        move_at(syncs, syncs.len() as int) is Done,
        move_after_run(syncs, at, Ok(StateSyncResult::Completed)) == (CatchupMove::Blocks {
            sync_hash: syncs[at].0,
        }),
        move_after_run(syncs, at, Ok(StateSyncResult::Changed)) == move_at(syncs, at + 1),
        move_after_run(syncs, at, Ok(StateSyncResult::Unchanged)) == move_at(syncs, at + 1),
        move_after_run(syncs, at, Err(error)) == CatchupMove::Fail(error),
        move_after_blocks(syncs, at, Ok(())) == move_at(syncs, at + 1),
        move_after_blocks(syncs, at, Err(error)) == CatchupMove::Fail(error),
{
}

/// A step that runs a round is for the fetch at the walk's place in the list, on that fetch's
/// shards, and hands along what is known of that fetch; a step for blocks is for the same fetch.
pub proof fn law_step_is_for_the_fetch_at_its_place(
    step: CatchupStep,
    syncs: Seq<(CryptoHash, Seq<ShardId>)>,
    at: int,
    known: Map<CryptoHash, ShardStatuses>,
)
    requires
        0 <= at < syncs.len(),
    ensures
        step.makes(move_at(syncs, at), syncs, at, known) ==> {
            &&& step matches CatchupStep::RunStateSync { sync_hash, shards, shard_statuses, walk }
            &&& sync_hash == syncs[at].0
            &&& shards@ == syncs[at].1
            &&& known.contains_key(sync_hash)
            &&& shard_statuses@ == known[sync_hash]@
            &&& walk.at == at
            &&& walk.syncs@.len() == syncs.len()
            &&& forall|i: int|
                0 <= i < syncs.len() ==> (#[trigger] walk.syncs@[i]).0 == syncs[i].0
                    && walk.syncs@[i].1@ == syncs[i].1
        },
        step.makes(
            move_after_run(syncs, at, Ok(StateSyncResult::Completed)),
            syncs,
            at,
            known,
        ) ==> {
            &&& step matches CatchupStep::CatchupBlocks { sync_hash, walk }
            &&& sync_hash == syncs[at].0
            &&& walk.at == at
            &&& walk.syncs@.len() == syncs.len()
            &&& forall|i: int|
                0 <= i < syncs.len() ==> (#[trigger] walk.syncs@[i]).0 == syncs[i].0
                    && walk.syncs@[i].1@ == syncs[i].1
        },
{
    let walk = match step {
        CatchupStep::RunStateSync { walk, .. } => walk,
        CatchupStep::CatchupBlocks { walk, .. } => walk,
        _ => arbitrary(),
    };
    if syncs_view(walk.syncs@) == syncs {
        assert forall|i: int| 0 <= i < syncs.len() implies (#[trigger] walk.syncs@[i]).0
            == syncs[i].0 && walk.syncs@[i].1@ == syncs[i].1 by {
            assert(syncs_view(walk.syncs@)[i] == syncs[i]);
        }
    }
}

} // verus!
