//! Header sync: whether to ask for headers, and with which locator.

use vstd::prelude::*;
use crate::locator::get_locator_heights;
use crate::locator::locator_heights;
use crate::locator::lemma_locator_heights_len;
use crate::types::BlockHeader;
use crate::types::BlockHash;
use crate::types::PeerReading;
use crate::types::Tip;

verus! {

/// The hashes of the headers of `walk` whose height is among `heights`, in
/// the order of the walk.
pub open spec fn locator_of(heights: Seq<u64>, walk: Seq<BlockHeader>) -> Seq<BlockHash>
    decreases walk.len(),
{
    if walk.len() == 0 {
        Seq::empty()
    } else if heights.contains(walk.last().height) {
        locator_of(heights, walk.drop_last()).push(walk.last().hash)
    } else {
        locator_of(heights, walk.drop_last())
    }
}

/// Every header of the walk lies lower than those before it.
pub open spec fn descending(walk: Seq<BlockHeader>) -> bool {
    forall|i: int, j: int| 0 <= i < j < walk.len() ==> walk[i].height > walk[j].height
}

/// The heights among `heights` at which a header of the walk stands.
spec fn matched(heights: Seq<u64>, walk: Seq<BlockHeader>) -> Set<u64>
    decreases walk.len(),
{
    if walk.len() == 0 {
        Set::empty()
    } else if heights.contains(walk.last().height) {
        matched(heights, walk.drop_last()).insert(walk.last().height)
    } else {
        matched(heights, walk.drop_last())
    }
}

/// A descending walk gives one locator entry for each height it matches.
proof fn lemma_matched(heights: Seq<u64>, walk: Seq<BlockHeader>)
    requires
        descending(walk),
    ensures
        matched(heights, walk).finite(),
        matched(heights, walk).subset_of(heights.to_set()),
        forall|h: u64| #[trigger]
            matched(heights, walk).contains(h) ==> exists|i: int|
                0 <= i < walk.len() && walk[i].height == h,
        locator_of(heights, walk).len() == matched(heights, walk).len(),
    decreases walk.len(),
{
    if walk.len() > 0 {
        let rest = walk.drop_last();
        assert(descending(rest));
        lemma_matched(heights, rest);
        let last = walk.last().height;
        if matched(heights, rest).contains(last) {
            let i = choose|i: int| 0 <= i < rest.len() && rest[i].height == last;
            assert(walk[i].height > walk[walk.len() - 1].height);
        }
        assert forall|h: u64| #[trigger] matched(heights, walk).contains(h) implies exists|i: int|
            0 <= i < walk.len() && walk[i].height == h by {
            if h == last && heights.contains(last) {
                assert(walk[walk.len() - 1].height == h);
            } else {
                let i = choose|i: int| 0 <= i < rest.len() && rest[i].height == h;
                assert(walk[i].height == h);
            }
        }
    }
}

/// The locator of a descending walk is no longer than the list of locator
/// heights, so it is logarithmic in the tip's height: never more than 65 hashes.
pub proof fn lemma_locator_len(tip_height: u64, walk: Seq<BlockHeader>)
    requires
        descending(walk),
    ensures
        locator_of(locator_heights(tip_height), walk).len() <= locator_heights(tip_height).len(),
        locator_of(locator_heights(tip_height), walk).len() <= 65,
{
    let heights = locator_heights(tip_height);
    lemma_matched(heights, walk);
    vstd::seq_lib::seq_to_set_is_finite(heights);
    vstd::set_lib::lemma_len_subset(matched(heights, walk), heights.to_set());
    heights.lemma_cardinality_of_set();
    lemma_locator_heights_len(tip_height);
}

/// Headers are asked for where the peer with the most work could be read and
/// advertises more work than the header chain holds.
pub fn header_sync_wanted(header_head: &Tip, peer: PeerReading) -> (wanted: bool)
    ensures
        wanted == (peer is Ready && peer->Ready_0.total_difficulty.num
            > header_head.total_difficulty.num),
{
    match peer {
        PeerReading::Ready(info) => info.total_difficulty.num > header_head.total_difficulty.num,
        _ => false,
    }
}

fn contains_height(heights: &Vec<u64>, height: u64) -> (found: bool)
    ensures
        found == heights@.contains(height),
{
    let mut i: usize = 0;
    while i < heights.len()
        invariant
            i <= heights.len(),
            forall|k: int| 0 <= k < i ==> heights@[k] != height,
        decreases heights.len() - i,
    {
        if heights[i] == height {
            return true;
        }
        i = i + 1;
    }
    false
}

/// Builds the locator on the sync head `tip`. `walk` holds the headers from
/// the sync head's last block back as far as the chain store gave them; the
/// locator names those that stand at a locator height of the tip.
pub fn get_locator(tip: &Tip, walk: &Vec<BlockHeader>) -> (locator: Vec<BlockHash>)
    ensures
        locator@ == locator_of(locator_heights(tip.height), walk@),
        locator.len() <= walk.len(),
{
    let heights = get_locator_heights(tip.height);
    let mut locator: Vec<BlockHash> = Vec::new();
    let mut i: usize = 0;
    while i < walk.len()
        invariant
            i <= walk.len(),
            heights@ == locator_heights(tip.height),
            locator@ == locator_of(heights@, walk@.take(i as int)),
            locator.len() <= i,
        decreases walk.len() - i,
    {
        proof {
            assert(walk@.take(i + 1).drop_last() =~= walk@.take(i as int));
        }
        if contains_height(&heights, walk[i].height) {
            locator.push(walk[i].hash);
        }
        i = i + 1;
    }
    proof {
        assert(walk@.take(walk.len() as int) =~= walk@);
    }
    locator
}

} // verus!
