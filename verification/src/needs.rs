//! Whether the node has to sync, judged from its own work and that of the
//! peer with the most work.

use vstd::prelude::*;
use crate::types::Difficulty;
use crate::types::PeerReading;
use crate::types::first_up_to;

verus! {

/// How many recent blocks make up the threshold a peer has to exceed.
pub const THRESHOLD_BLOCKS: usize = 5;

/// What the caller owes the rest of the node after a decision.
#[derive(Clone, Copy, Debug, PartialEq, Eq, Structural)]
pub enum SyncEffect {
    /// Nothing to do.
    Nothing,
    /// No peer is left while syncing: warn, sync is switched off.
    WarnNoPeers,
    /// The node has caught up: report it and reset the chain's sync head.
    ResetHead,
    /// A peer is far enough ahead: report that sync is switched on.
    AnnounceSync,
}

/// The decision of one tick.
#[derive(Clone, Copy, Debug, PartialEq, Eq, Structural)]
pub struct SyncDecision {
    /// Whether the node should be syncing from now on.
    pub syncing: bool,
    /// The height of the peer with the most work, 0 where none was read.
    pub most_work_height: u64,
    /// What goes with the decision.
    pub effect: SyncEffect,
}

/// The difficulties of the entries that could be read, in their order.
pub open spec fn readable(entries: Seq<Option<Difficulty>>) -> Seq<Difficulty>
    decreases entries.len(),
{
    if entries.len() == 0 {
        Seq::empty()
    } else {
        match entries.last() {
            Some(d) => readable(entries.drop_last()).push(d),
            None => readable(entries.drop_last()),
        }
    }
}

/// The sum of a run of difficulties.
pub open spec fn total(run: Seq<Difficulty>) -> int
    decreases run.len(),
{
    if run.len() == 0 {
        0
    } else {
        total(run.drop_last()) + run.last().num
    }
}

/// The threshold: the sum of the first five readable entries of the chain's
/// difficulties, which are walked from the tip downwards.
pub open spec fn threshold_of(entries: Seq<Option<Difficulty>>) -> int {
    total(first_up_to(readable(entries), THRESHOLD_BLOCKS as int))
}

/// The decision as a function of what was observed.
pub open spec fn decide(
    is_syncing: bool,
    local_diff: Difficulty,
    peer: PeerReading,
    recent: Seq<Option<Difficulty>>,
) -> SyncDecision {
    match peer {
        PeerReading::Absent => SyncDecision {
            syncing: false,
            most_work_height: 0,
            effect: if is_syncing {
                SyncEffect::WarnNoPeers
            } else {
                SyncEffect::Nothing
            },
        },
        PeerReading::Busy => SyncDecision {
            syncing: is_syncing,
            most_work_height: 0,
            effect: SyncEffect::Nothing,
        },
        PeerReading::Ready(info) => if is_syncing {
            if info.total_difficulty.num <= local_diff.num {
                SyncDecision { syncing: false, most_work_height: 0, effect: SyncEffect::ResetHead }
            } else {
                SyncDecision {
                    syncing: true,
                    most_work_height: info.height,
                    effect: SyncEffect::Nothing,
                }
            }
        } else {
            if info.total_difficulty.num > local_diff.num + threshold_of(recent) {
                SyncDecision {
                    syncing: true,
                    most_work_height: info.height,
                    effect: SyncEffect::AnnounceSync,
                }
            } else {
                SyncDecision {
                    syncing: false,
                    most_work_height: info.height,
                    effect: SyncEffect::Nothing,
                }
            }
        },
    }
}

proof fn lemma_readable_take_succ(entries: Seq<Option<Difficulty>>, i: int)
    requires
        0 <= i < entries.len(),
    ensures
        readable(entries.take(i + 1)) == match entries[i] {
            Some(d) => readable(entries.take(i)).push(d),
            None => readable(entries.take(i)),
        },
{
    assert(entries.take(i + 1).drop_last() =~= entries.take(i));
}

/// Once five entries have been read, later entries do not change the first five.
proof fn lemma_readable_prefix(entries: Seq<Option<Difficulty>>, i: int, j: int)
    requires
        0 <= i <= j <= entries.len(),
        readable(entries.take(i)).len() >= THRESHOLD_BLOCKS,
    ensures
        readable(entries.take(j)).len() >= THRESHOLD_BLOCKS,
        readable(entries.take(j)).take(THRESHOLD_BLOCKS as int) == readable(entries.take(i)).take(
            THRESHOLD_BLOCKS as int,
        ),
    decreases j - i,
{
    if i < j {
        lemma_readable_prefix(entries, i, j - 1);
        lemma_readable_take_succ(entries, j - 1);
        assert(readable(entries.take(j)).take(THRESHOLD_BLOCKS as int) =~= readable(
            entries.take(j - 1),
        ).take(THRESHOLD_BLOCKS as int));
    }
}

/// Once five entries have been read, whatever follows leaves the threshold as it is.
pub proof fn lemma_threshold_settled(entries: Seq<Option<Difficulty>>, more: Seq<Option<Difficulty>>)
    requires
        readable(entries).len() >= THRESHOLD_BLOCKS,
    ensures
        threshold_of(entries + more) == threshold_of(entries),
{
    let all = entries + more;
    assert(all.take(entries.len() as int) =~= entries);
    assert(all.take(all.len() as int) =~= all);
    lemma_readable_prefix(all, entries.len() as int, all.len() as int);
    let n = THRESHOLD_BLOCKS as int;
    assert(first_up_to(readable(all), n) =~= readable(all).take(n));
    assert(first_up_to(readable(entries), n) =~= readable(entries).take(n));
}

/// Whether `recent` holds all that the threshold is made of: five readable
/// entries. The caller may stop reading the chain's difficulties there.
pub fn reads_enough(recent: &Vec<Option<Difficulty>>) -> (enough: bool)
    ensures
        enough == (readable(recent@).len() >= THRESHOLD_BLOCKS),
{
    let mut found: usize = 0;
    let mut i: usize = 0;
    while i < recent.len()
        invariant
            0 <= i <= recent.len(),
            found == readable(recent@.take(i as int)).len(),
            found <= i,
        decreases recent.len() - i,
    {
        proof {
            lemma_readable_take_succ(recent@, i as int);
        }
        if recent[i].is_some() {
            found = found + 1;
        }
        i = i + 1;
    }
    proof {
        assert(recent@.take(recent@.len() as int) =~= recent@);
    }
    found >= THRESHOLD_BLOCKS
}

/// Whether a decision on these observations reads the chain's recent
/// difficulties at all: only a node that is not syncing and has read a peer
/// compares against the threshold.
pub fn reads_threshold(is_syncing: bool, peer: PeerReading) -> (reads: bool)
    ensures
        reads == (!is_syncing && peer is Ready),
        !reads ==> forall|local_diff: Difficulty, a: Seq<Option<Difficulty>>, b: Seq<Option<Difficulty>>|
            decide(is_syncing, local_diff, peer, a) == decide(is_syncing, local_diff, peer, b),
{
    match peer {
        PeerReading::Ready(_) => !is_syncing,
        _ => false,
    }
}

/// Sums the first five readable entries of `recent`, the chain's
/// difficulties from the tip downwards; entries that failed to read are `None`.
pub fn sync_threshold(recent: &Vec<Option<Difficulty>>) -> (threshold: u128)
    ensures
        threshold == threshold_of(recent@),
        threshold <= THRESHOLD_BLOCKS * u64::MAX,
{
    let mut sum: u128 = 0;
    let mut found: usize = 0;
    let mut i: usize = 0;
    while i < recent.len() && found < THRESHOLD_BLOCKS
        invariant
            0 <= i <= recent.len(),
            found <= THRESHOLD_BLOCKS,
            found == readable(recent@.take(i as int)).len(),
            sum == total(readable(recent@.take(i as int))),
            sum <= found * u64::MAX,
        decreases recent.len() - i,
    {
        proof {
            lemma_readable_take_succ(recent@, i as int);
        }
        match recent[i] {
            Some(d) => {
                proof {
                    let before = readable(recent@.take(i as int));
                    assert(before.push(d).drop_last() =~= before);
                }
                sum = sum + d.num as u128;
                found = found + 1;
            },
            None => {},
        }
        i = i + 1;
    }
    proof {
        let seen = readable(recent@.take(i as int));
        assert(recent@.take(recent@.len() as int) =~= recent@);
        if found == THRESHOLD_BLOCKS {
            lemma_readable_prefix(recent@, i as int, recent@.len() as int);
            assert(seen.take(THRESHOLD_BLOCKS as int) =~= seen);
            assert(readable(recent@).take(THRESHOLD_BLOCKS as int) =~= first_up_to(
                readable(recent@),
                THRESHOLD_BLOCKS as int,
            ));
        }
    }
    sum
}

/// Decides whether the node should be syncing.
///
/// `is_syncing` is the current flag, `local_diff` the chain's total
/// difficulty, `peer` the reading of the peer with the most work, and
/// `recent` the chain's difficulties from the tip downwards (read only where
/// `reads_threshold` says so).
///
/// A syncing node stops when no peer is left or when the peer's work does not
/// exceed its own; a node that is not syncing starts only when the peer's work
/// exceeds its own by more than the threshold.
pub fn needs_syncing(
    is_syncing: bool,
    local_diff: Difficulty,
    peer: PeerReading,
    recent: &Vec<Option<Difficulty>>,
) -> (decision: SyncDecision)
    ensures
        decision == decide(is_syncing, local_diff, peer, recent@),
        is_syncing && peer is Absent ==> !decision.syncing && decision.most_work_height == 0,
        is_syncing && peer is Ready && peer->Ready_0.total_difficulty.num <= local_diff.num ==> (
        !decision.syncing && decision.most_work_height == 0 && decision.effect
            == SyncEffect::ResetHead),
        is_syncing && peer is Ready && peer->Ready_0.total_difficulty.num > local_diff.num ==> (
        decision.syncing && decision.most_work_height == peer->Ready_0.height),
        !is_syncing && peer is Ready && peer->Ready_0.total_difficulty.num <= local_diff.num
            + threshold_of(recent@) ==> (!decision.syncing && decision.most_work_height
            == peer->Ready_0.height),
        !is_syncing && peer is Ready && peer->Ready_0.total_difficulty.num > local_diff.num
            + threshold_of(recent@) ==> (decision.syncing && decision.most_work_height
            == peer->Ready_0.height),
        decision.effect == SyncEffect::ResetHead ==> is_syncing && !decision.syncing,
        decision.most_work_height != 0 ==> peer is Ready && decision.most_work_height
            == peer->Ready_0.height,
{
    match peer {
        PeerReading::Absent => SyncDecision {
            syncing: false,
            most_work_height: 0,
            effect: if is_syncing {
                SyncEffect::WarnNoPeers
            } else {
                SyncEffect::Nothing
            },
        },
        PeerReading::Busy => SyncDecision {
            syncing: is_syncing,
            most_work_height: 0,
            effect: SyncEffect::Nothing,
        },
        PeerReading::Ready(info) => {
            if is_syncing {
                if info.total_difficulty.num <= local_diff.num {
                    SyncDecision {
                        syncing: false,
                        most_work_height: 0,
                        effect: SyncEffect::ResetHead,
                    }
                } else {
                    SyncDecision {
                        syncing: true,
                        most_work_height: info.height,
                        effect: SyncEffect::Nothing,
                    }
                }
            } else {
                let threshold: u128 = sync_threshold(recent);
                if info.total_difficulty.num as u128 > local_diff.num as u128 + threshold {
                    SyncDecision {
                        syncing: true,
                        most_work_height: info.height,
                        effect: SyncEffect::AnnounceSync,
                    }
                } else {
                    SyncDecision {
                        syncing: false,
                        most_work_height: info.height,
                        effect: SyncEffect::Nothing,
                    }
                }
            }
        },
    }
}

} // verus!
