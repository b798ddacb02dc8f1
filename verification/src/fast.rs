//! Fast sync: which state snapshot to ask the peer with the most work for.

use vstd::prelude::*;
use crate::types::BlockHeader;
use crate::types::BlockHash;

verus! {

/// The snapshot is asked for this many blocks inside the horizon, out of
/// reach of a small reorganisation.
pub const SAFETY_MARGIN: u64 = 20;

/// A request for the chain state as of one block.
#[derive(Clone, Copy, Debug, PartialEq, Eq)]
pub struct TxHashSetRequest {
    pub height: u64,
    pub hash: BlockHash,
}

/// How far behind the header head's previous block the snapshot lies.
pub open spec fn snapshot_depth(horizon: u64) -> int {
    if horizon > SAFETY_MARGIN {
        horizon - SAFETY_MARGIN
    } else {
        0
    }
}

/// Each header of the walk is the one before its predecessor in the walk,
/// one block lower.
pub open spec fn linked(walk: Seq<BlockHeader>) -> bool {
    forall|i: int|
        #![trigger walk[i]]
        0 <= i < walk.len() - 1 ==> walk[i].previous == walk[i + 1].hash && walk[i].height
            == walk[i + 1].height + 1
}

/// How many steps back from the header head's previous block the walk goes.
pub fn txhashset_depth(horizon: u64) -> (depth: u64)
    ensures
        depth == snapshot_depth(horizon),
{
    if horizon > SAFETY_MARGIN {
        horizon - SAFETY_MARGIN
    } else {
        0
    }
}

/// Whether the walk has reached the header to ask the state of, so that the
/// caller may stop walking.
pub fn walk_reaches_snapshot(walk: &Vec<BlockHeader>, horizon: u64) -> (reached: bool)
    ensures
        reached == (snapshot_depth(horizon) < walk.len()),
{
    txhashset_depth(horizon) < walk.len() as u64
}

/// The request to send. `walk` starts with the header head's previous block
/// and goes back from there, each header followed by the one before it; the
/// request names the header `snapshot_depth(horizon)` steps into the walk.
/// Where the walk ended before it got there, nothing is asked for.
pub fn txhashset_request(walk: &Vec<BlockHeader>, horizon: u64) -> (request: Option<
    TxHashSetRequest,
>)
    ensures
        request is Some <==> snapshot_depth(horizon) < walk.len(),
        request is Some ==> request->Some_0.height == walk[snapshot_depth(horizon)].height
            && request->Some_0.hash == walk[snapshot_depth(horizon)].hash,
{
    if walk_reaches_snapshot(walk, horizon) {
        let depth: u64 = txhashset_depth(horizon);
        let target = walk[depth as usize];
        Some(TxHashSetRequest { height: target.height, hash: target.hash })
    } else {
        None
    }
}

/// In a linked walk the header `depth` steps in lies exactly `depth` blocks
/// below the first.
pub proof fn lemma_walk_height(walk: Seq<BlockHeader>, depth: int)
    requires
        linked(walk),
        0 <= depth < walk.len(),
    ensures
        walk[depth].height + depth == walk[0].height,
    decreases depth,
{
    if depth > 0 {
        lemma_walk_height(walk, depth - 1);
        assert(walk[depth - 1].height == walk[depth].height + 1);
    }
}

/// The snapshot asked for lies exactly `horizon - 20` blocks behind the
/// header head's previous block (at that block itself for a horizon of 20 or
/// less).
pub proof fn lemma_snapshot_behind(walk: Seq<BlockHeader>, horizon: u64)
    requires
        linked(walk),
        snapshot_depth(horizon) < walk.len(),
    ensures
        walk[snapshot_depth(horizon)].height == walk[0].height - snapshot_depth(horizon),
{
    lemma_walk_height(walk, snapshot_depth(horizon));
}

} // verus!
