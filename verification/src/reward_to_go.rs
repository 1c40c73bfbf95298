use vstd::prelude::*;

verus! {

/// The return-to-go at index `i`: the sum of `rewards[j]` for `i <= j < rewards.len()`.
/// It is 0 at and beyond the end of the trajectory.
pub open spec fn return_to_go(rewards: Seq<i64>, i: int) -> int
    decreases rewards.len() - i,
{
    if 0 <= i < rewards.len() {
        rewards[i] + return_to_go(rewards, i + 1)
    } else {
        0
    }
}

/// The whole return-to-go sequence of a reward sequence.
pub open spec fn returns_to_go(rewards: Seq<i64>) -> Seq<i128> {
    Seq::new(rewards.len(), |i: int| return_to_go(rewards, i) as i128)
}

/// A return-to-go is bounded by the number of rewards it sums, so a sum of 64-bit
/// rewards over any trajectory that fits in memory fits in 128 bits.
pub proof fn lemma_return_to_go_bounds(rewards: Seq<i64>, i: int)
    requires
        0 <= i <= rewards.len(),
    ensures
        -(rewards.len() - i) * 0x8000_0000_0000_0000 <= return_to_go(rewards, i),
        return_to_go(rewards, i) <= (rewards.len() - i) * 0x7fff_ffff_ffff_ffff,
    decreases rewards.len() - i,
{
    if i < rewards.len() {
        lemma_return_to_go_bounds(rewards, i + 1);
    }
}

/// The recurrence of the return-to-go: each entry is its own reward plus the next
/// entry, and the entry past the end counts as 0.  In particular the last entry is
/// the last reward.
pub proof fn lemma_return_to_go_recurrence(rewards: Seq<i64>, i: int)
    requires
        0 <= i < rewards.len(),
    ensures
        return_to_go(rewards, i) == rewards[i] + return_to_go(rewards, i + 1),
        return_to_go(rewards, rewards.len() as int) == 0,
        return_to_go(rewards, rewards.len() - 1) == rewards[rewards.len() - 1],
{
    assert(return_to_go(rewards, rewards.len() - 1) == rewards[rewards.len() - 1]
        + return_to_go(rewards, rewards.len() as int));
}

/// Computes the return-to-go of every step from the per-step rewards.
///
/// The sums are exact: they are accumulated in 128 bits, which no trajectory of
/// 64-bit rewards can overflow.
pub fn rewards_to_go(rewards: &Vec<i64>) -> (out: Vec<i128>)
    ensures
        out@ == returns_to_go(rewards@),
        out.len() == rewards.len(),
        forall|i: int| 0 <= i < out.len() ==> out[i] == return_to_go(rewards@, i),
        forall|i: int| 0 <= i < out.len() - 1 ==> out[i] == rewards[i] + out[i + 1],
        out.len() > 0 ==> out[out.len() - 1] == rewards[rewards.len() - 1],
{
    let n: usize = rewards.len();
    // Accumulate from the last step to the first: `backwards[j]` is the
    // return-to-go of step `n - 1 - j`.
    let mut backwards: Vec<i128> = Vec::new();
    let mut so_far: i128 = 0;
    let mut k: usize = n;
    while k > 0
        invariant
            n == rewards.len(),
            k <= n,
            so_far == return_to_go(rewards@, k as int),
            backwards.len() == n - k,
            forall|j: int| 0 <= j < backwards.len() ==> backwards[j] == return_to_go(
                rewards@,
                n - 1 - j,
            ),
        decreases k,
    {
        k = k - 1;
        proof {
            lemma_return_to_go_bounds(rewards@, k as int);
            lemma_return_to_go_bounds(rewards@, k + 1);
        }
        so_far = so_far + rewards[k] as i128;
        backwards.push(so_far);
    }
    let mut out: Vec<i128> = Vec::new();
    let mut i: usize = 0;
    while i < n
        invariant
            n == rewards.len(),
            i <= n,
            backwards.len() == n,
            out.len() == i,
            forall|j: int| 0 <= j < n ==> backwards[j] == return_to_go(rewards@, n - 1 - j),
            forall|j: int| 0 <= j < i ==> out[j] == return_to_go(rewards@, j),
        decreases n - i,
    {
        out.push(backwards[n - 1 - i]);
        i = i + 1;
    }
    proof {
        assert(out@ =~= returns_to_go(rewards@));
        assert forall|i: int| 0 <= i < out.len() - 1 implies out[i] == rewards[i] + out[i + 1] by {
            lemma_return_to_go_recurrence(rewards@, i);
        }
        if n > 0 {
            lemma_return_to_go_recurrence(rewards@, n - 1);
        }
    }
    out
}

} // verus!
