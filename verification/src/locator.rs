//! Header locators: a sparse, logarithmically spaced list of heights that
//! lets a peer find the common ancestor with few hashes.

use vstd::prelude::*;
use vstd::arithmetic::power2::pow2;
use vstd::arithmetic::power2::lemma_pow2_unfold;
use vstd::arithmetic::power2::lemma_pow2_pos;
use vstd::arithmetic::power2::lemma2_to64;
use vstd::arithmetic::power2::lemma_pow2_strictly_increases;

verus! {

/// The height that follows `current` when `taken` heights have been listed:
/// `current` less `2^taken`, or 0 where that would not stay above 0.
pub open spec fn next_height(current: u64, taken: nat) -> u64 {
    if current > pow2(taken) {
        (current - pow2(taken)) as u64
    } else {
        0
    }
}

/// The heights listed from `current` on, when `taken` heights stand before it.
pub open spec fn heights_from(current: u64, taken: nat) -> Seq<u64>
    decreases current,
    via heights_from_decreases
{
    if current == 0 {
        seq![0u64]
    } else {
        seq![current] + heights_from(next_height(current, (taken + 1) as nat), (taken + 1) as nat)
    }
}

#[via_fn]
proof fn heights_from_decreases(current: u64, taken: nat) {
    lemma_pow2_pos((taken + 1) as nat);
}

/// The locator heights of a chain whose tip is at `height`.
pub open spec fn locator_heights(height: u64) -> Seq<u64> {
    heights_from(height, 0)
}

/// What induction over `current` shows of `heights_from(current, taken)`.
proof fn lemma_heights_from(current: u64, taken: nat)
    ensures
        ({
            let s = heights_from(current, taken);
            &&& s.len() >= 1
            &&& s[0] == current
            &&& s[s.len() - 1] == 0
            &&& forall|i: int| #![trigger s[i]] 0 <= i < s.len() - 1 ==> s[i] > s[i + 1]
            &&& forall|i: int|
                #![trigger s[i]]
                0 <= i < s.len() - 2 ==> s[i] - s[i + 1] == pow2((taken + 1 + i) as nat)
            &&& s.len() >= 2 ==> s[s.len() - 2] <= pow2((taken + s.len() - 1) as nat)
            &&& pow2((taken + s.len() - 1) as nat) <= current + pow2((taken + 1) as nat) - 1
        }),
    decreases current,
{
    let s = heights_from(current, taken);
    lemma_pow2_pos(taken);
    lemma_pow2_pos((taken + 1) as nat);
    lemma_pow2_unfold((taken + 1) as nat);
    lemma_pow2_unfold((taken + 2) as nat);
    if current != 0 {
        let next = next_height(current, (taken + 1) as nat);
        let t = heights_from(next, (taken + 1) as nat);
        lemma_heights_from(next, (taken + 1) as nat);
        assert(s =~= seq![current] + t);
        assert(s.len() == t.len() + 1);
        assert(forall|i: int| 1 <= i < s.len() ==> s[i] == t[i - 1]);
        if t.len() == 1 {
            assert(next == 0);
        } else {
            assert(t[0] > t[1]);
            assert(next > 0);
        }
        assert forall|i: int| #![trigger s[i]] 0 <= i < s.len() - 1 implies s[i] > s[i + 1] by {
            if i > 0 {
                assert(t[i - 1] > t[i]);
            }
        }
        assert forall|i: int| #![trigger s[i]] 0 <= i < s.len() - 2 implies s[i] - s[i + 1]
            == pow2((taken + 1 + i) as nat) by {
            if i > 0 {
                assert(t[i - 1] - t[i] == pow2((taken + 1 + 1 + (i - 1)) as nat));
            }
        }
        if t.len() >= 2 {
            assert(s[s.len() - 2] == t[t.len() - 2]);
        }
    }
}

/// The list ends in 0 and every entry is greater than the one after it.
pub proof fn lemma_locator_heights_strictly_decreasing(height: u64)
    ensures
        locator_heights(height).len() >= 1,
        locator_heights(height).last() == 0,
        forall|i: int|
            #![trigger locator_heights(height)[i]]
            0 <= i < locator_heights(height).len() - 1 ==> locator_heights(height)[i]
                > locator_heights(height)[i + 1],
{
    lemma_heights_from(height, 0);
}

/// The list starts at the tip's height; for a tip at 0 it is `[0]` alone.
pub proof fn lemma_locator_heights_first(height: u64)
    ensures
        locator_heights(height).len() >= 1,
        locator_heights(height)[0] == height,
        height == 0 ==> locator_heights(height) == seq![0u64],
        height > 0 ==> locator_heights(height).len() >= 2,
{
    lemma_heights_from(height, 0);
    if height > 0 {
        let next = next_height(height, 1);
        lemma_heights_from(next, 1);
    }
}

/// Entry `k + 1` lies `2^(k + 1)` below entry `k`, but for the closing 0,
/// which lies at most that far below the entry before it.
pub proof fn lemma_locator_heights_steps(height: u64, k: int)
    requires
        0 <= k < locator_heights(height).len() - 1,
    ensures
        k + 2 < locator_heights(height).len() ==> locator_heights(height)[k] - locator_heights(
            height,
        )[k + 1] == pow2((k + 1) as nat),
        k + 2 == locator_heights(height).len() ==> locator_heights(height)[k + 1] == 0
            && locator_heights(height)[k] <= pow2((k + 1) as nat),
{
    lemma_heights_from(height, 0);
    let s = locator_heights(height);
    if k + 2 < s.len() {
        assert(s[k] - s[k + 1] == pow2((0 + 1 + k) as nat));
    }
}

/// The list is logarithmic in the height: with `n` entries,
/// `2^(n - 1) <= height + 1`, so there are never more than 65.
pub proof fn lemma_locator_heights_len(height: u64)
    ensures
        1 <= locator_heights(height).len() <= 65,
        pow2((locator_heights(height).len() - 1) as nat) <= height + 1,
{
    lemma_heights_from(height, 0);
    lemma2_to64();
    let n = locator_heights(height).len();
    if n > 65 {
        lemma_pow2_strictly_increases(64, (n - 1) as nat);
    }
}

/// Heights from the tip back to 0, the step doubling after each entry.
pub fn get_locator_heights(height: u64) -> (heights: Vec<u64>)
    ensures
        heights@ == locator_heights(height),
        1 <= heights.len() <= 65,
        heights[0] == height,
        heights[heights.len() - 1] == 0,
        forall|i: int| #![trigger heights[i]] 0 <= i < heights.len() - 1 ==> heights[i] > heights[i + 1],
{
    let mut current: u64 = height;
    let mut heights: Vec<u64> = Vec::new();
    let mut step: u128 = 2;
    proof {
        lemma2_to64();
    }
    while current > 0
        invariant
            step == pow2((heights.len() + 1) as nat),
            step <= 2 * height + 2,
            current > 0 ==> current + step <= height + 2,
            heights@ + heights_from(current, heights.len() as nat) == locator_heights(height),
        decreases current,
    {
        proof {
            lemma_pow2_unfold((heights.len() + 2) as nat);
            lemma_pow2_pos((heights.len() + 1) as nat);
            assert(heights@.push(current) + heights_from(
                next_height(current, (heights.len() + 1) as nat),
                (heights.len() + 1) as nat,
            ) =~= heights@ + heights_from(current, heights.len() as nat));
        }
        heights.push(current);
        current = if current as u128 > step {
            (current as u128 - step) as u64
        } else {
            0
        };
        step = step * 2;
    }
    heights.push(0);
    proof {
        assert(heights@ =~= locator_heights(height));
        lemma_locator_heights_len(height);
        lemma_locator_heights_first(height);
        lemma_locator_heights_strictly_decreasing(height);
    }
    heights
}

} // verus!
