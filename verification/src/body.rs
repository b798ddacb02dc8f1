//! Body sync: which full blocks to ask the peers for.
//!
//! The caller walks the header chain back from the header head, one header at
//! a time, until it meets the validated chain; `body_walk_start` and
//! `body_walk_step` decide where the walk begins, what it collects and when
//! it ends. `blocks_to_request` then picks the blocks to ask for.

use vstd::prelude::*;
use crate::types::BlockHeader;
use crate::types::BlockHash;
use crate::types::Tip;
use crate::types::first_up_to;

verus! {

/// No more peers than this count towards the number of blocks asked for.
pub const MAX_PEERS: usize = 10;

/// Blocks asked for per peer with more work.
pub const BLOCKS_PER_PEER: usize = 10;

/// A block of the header chain and what the chain store knows of it.
#[derive(Clone, Copy, Debug, PartialEq, Eq)]
pub struct BlockStatus {
    pub hash: BlockHash,
    /// The full block is stored already.
    pub stored: bool,
    /// The full block waits among the orphans.
    pub orphan: bool,
}

/// A block is wanted where it is neither stored nor an orphan.
pub open spec fn wanted(block: BlockStatus) -> bool {
    !block.stored && !block.orphan
}

/// The hashes of the wanted blocks, in their order.
pub open spec fn missing(blocks: Seq<BlockStatus>) -> Seq<BlockHash>
    decreases blocks.len(),
{
    if blocks.len() == 0 {
        Seq::empty()
    } else if wanted(blocks.last()) {
        missing(blocks.drop_last()).push(blocks.last().hash)
    } else {
        missing(blocks.drop_last())
    }
}

/// How many blocks one round asks for: ten for each peer with more work,
/// of which at most ten count.
pub open spec fn block_count(more_work_peers: usize) -> int {
    if more_work_peers <= MAX_PEERS {
        more_work_peers * BLOCKS_PER_PEER
    } else {
        MAX_PEERS * BLOCKS_PER_PEER
    }
}

/// The blocks to ask for: of the walked blocks, put in ascending height,
/// the first `block_count` that are wanted.
pub open spec fn requests_of(walked: Seq<BlockStatus>, more_work_peers: usize) -> Seq<BlockHash> {
    first_up_to(missing(walked.reverse()), block_count(more_work_peers))
}

/// The blocks asked for are the lowest of the wanted blocks, in ascending
/// height, as many as there are up to `block_count`.
pub proof fn lemma_requests_prefix(walked: Seq<BlockStatus>, more_work_peers: usize)
    ensures
        requests_of(walked, more_work_peers).is_prefix_of(missing(walked.reverse())),
        requests_of(walked, more_work_peers).len() == (if missing(walked.reverse()).len()
            <= block_count(more_work_peers) {
            missing(walked.reverse()).len() as int
        } else {
            block_count(more_work_peers)
        }),
{
}

/// The wanted blocks are the blocks that are neither stored nor orphans, in
/// their order: `missing(blocks)[k]` is the hash of the `k`-th such block.
pub proof fn lemma_missing_are_wanted(blocks: Seq<BlockStatus>, k: int)
    requires
        0 <= k < missing(blocks).len(),
    ensures
        missing(blocks).len() <= blocks.len(),
        exists|i: int|
            k <= i < blocks.len() && wanted(#[trigger] blocks[i]) && blocks[i].hash == missing(
                blocks,
            )[k] && missing(blocks.take(i)).len() == k,
    decreases blocks.len(),
{
    let rest = blocks.drop_last();
    assert(blocks.take(blocks.len() - 1) =~= rest);
    if wanted(blocks.last()) && k == missing(rest).len() {
        lemma_missing_len(rest);
        assert(wanted(blocks[blocks.len() - 1]));
    } else {
        lemma_missing_are_wanted(rest, k);
        let i = choose|i: int|
            k <= i < rest.len() && wanted(#[trigger] rest[i]) && rest[i].hash == missing(rest)[k]
                && missing(rest.take(i)).len() == k;
        assert(rest.take(i) =~= blocks.take(i));
        assert(wanted(blocks[i]));
    }
}

proof fn lemma_missing_len(blocks: Seq<BlockStatus>)
    ensures
        missing(blocks).len() <= blocks.len(),
    decreases blocks.len(),
{
    if blocks.len() > 0 {
        lemma_missing_len(blocks.drop_last());
    }
}

/// Where the walk begins: at the header head's last block, and only where
/// the header chain holds more work than the validated chain.
pub fn body_walk_start(header_head: &Tip, body_head: &Tip) -> (first: Option<BlockHash>)
    ensures
        first == (if header_head.total_difficulty.num > body_head.total_difficulty.num {
            Some(header_head.last_block_h)
        } else {
            None
        }),
{
    if header_head.total_difficulty.num > body_head.total_difficulty.num {
        Some(header_head.last_block_h)
    } else {
        None
    }
}

/// One step of the walk, on the header just read and whether it lies on the
/// validated chain. A header on that chain ends the walk and is not
/// collected; any other is collected, and the walk goes on with the header
/// before it.
pub fn body_walk_step(header: &BlockHeader, on_current_chain: bool, hashes: &mut Vec<BlockHash>) -> (next:
    Option<BlockHash>)
    ensures
        on_current_chain ==> next is None && final(hashes)@ == old(hashes)@,
        !on_current_chain ==> next == Some(header.previous) && final(hashes)@ == old(hashes)@.push(
            header.hash,
        ),
{
    if on_current_chain {
        None
    } else {
        hashes.push(header.hash);
        Some(header.previous)
    }
}

/// How many blocks one round asks for.
pub fn blocks_per_round(more_work_peers: usize) -> (count: usize)
    ensures
        count == block_count(more_work_peers),
        count <= MAX_PEERS * BLOCKS_PER_PEER,
{
    let peer_count: usize = if more_work_peers <= MAX_PEERS {
        more_work_peers
    } else {
        MAX_PEERS
    };
    peer_count * BLOCKS_PER_PEER
}

/// Picks the blocks to ask for. `walked` holds the collected blocks in the
/// order of the walk, highest first; the result is in ascending height.
pub fn blocks_to_request(walked: &Vec<BlockStatus>, more_work_peers: usize) -> (hashes: Vec<BlockHash>)
    ensures
        hashes@ == requests_of(walked@, more_work_peers),
        hashes.len() <= block_count(more_work_peers),
        hashes.len() <= walked.len(),
{
    let count: usize = blocks_per_round(more_work_peers);
    let mut hashes: Vec<BlockHash> = Vec::new();
    let mut left: usize = walked.len();
    let ghost ascending = walked@.reverse();
    while left > 0
        invariant
            left <= walked.len(),
            ascending == walked@.reverse(),
            count == block_count(more_work_peers),
            hashes@ == first_up_to(missing(ascending.take(walked.len() - left)), count as int),
            hashes.len() <= walked.len() - left,
        decreases left,
    {
        left = left - 1;
        let block = walked[left];
        proof {
            let done = walked.len() - left - 1;
            assert(ascending.take(done + 1).drop_last() =~= ascending.take(done));
            assert(ascending.take(done + 1).last() == block);
            let before = missing(ascending.take(done));
            if wanted(block) {
                if hashes.len() >= count {
                    assert(before.push(block.hash).take(count as int) =~= first_up_to(
                        before,
                        count as int,
                    ));
                }
            }
        }
        if !block.stored && !block.orphan && hashes.len() < count {
            hashes.push(block.hash);
        }
    }
    proof {
        assert(ascending.take(walked.len() as int) =~= ascending);
    }
    hashes
}

} // verus!
