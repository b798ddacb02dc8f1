//! Plain values that the sync decisions read: hashes, chain positions,
//! headers, and what a peer advertises.

use vstd::prelude::*;

verus! {

/// A block hash. The sync logic only carries hashes around.
#[derive(Clone, Copy, Debug, PartialEq, Eq)]
pub struct BlockHash(pub [u8; 32]);

/// Cumulative proof-of-work.
#[derive(Clone, Copy, Debug, PartialEq, Eq, Structural)]
pub struct Difficulty {
    pub num: u64,
}

impl Difficulty {
    /// No work at all.
    pub fn zero() -> (d: Difficulty)
        ensures
            d.num == 0,
    {
        Difficulty { num: 0 }
    }

    /// The difficulty that stands for `num`.
    pub fn from_num(num: u64) -> (d: Difficulty)
        ensures
            d.num == num,
    {
        Difficulty { num }
    }

    /// The number behind this difficulty.
    pub fn into_num(&self) -> (num: u64)
        ensures
            num == self.num,
    {
        self.num
    }
}

/// A position of a chain: its last block, the one before, and the work up to it.
#[derive(Clone, Copy, Debug, PartialEq, Eq)]
pub struct Tip {
    pub last_block_h: BlockHash,
    pub prev_block_h: BlockHash,
    pub height: u64,
    pub total_difficulty: Difficulty,
}

/// What the sync logic reads of a block header.
#[derive(Clone, Copy, Debug, PartialEq, Eq)]
pub struct BlockHeader {
    pub hash: BlockHash,
    pub previous: BlockHash,
    pub height: u64,
}

/// What a peer advertises of its chain.
#[derive(Clone, Copy, Debug, PartialEq, Eq)]
pub struct PeerInfo {
    pub height: u64,
    pub total_difficulty: Difficulty,
}

/// The outcome of looking for the peer with the most work and reading it
/// without blocking.
#[derive(Clone, Copy, Debug, PartialEq, Eq)]
pub enum PeerReading {
    /// No peer is connected.
    Absent,
    /// There is a peer, but it could not be read right now.
    Busy,
    /// The peer's advertised state.
    Ready(PeerInfo),
}

/// The first `n` items of `run`, or all of it where it has fewer.
pub open spec fn first_up_to<T>(run: Seq<T>, n: int) -> Seq<T> {
    if run.len() <= n {
        run
    } else {
        run.take(n)
    }
}

} // verus!
