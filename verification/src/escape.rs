//! The step count of the escape-time recurrence.
//!
//! For one point of the plane the driver runs the quadratic recurrence
//! `z_{n+1} = z_n^2 + c` from `z_0 = 0` and records, for each 1-indexed step,
//! whether the squared magnitude of the new iterate exceeded the escape
//! radius. The library turns that record into the reported iteration count:
//! the index of the first step whose test fired, or the number of steps taken
//! when none did.

use vstd::prelude::*;

verus! {

/// The iteration count reported for a record of escape-test outcomes:
/// one more than the index of the first `true`, or the length of the record
/// when every outcome is `false`.
pub open spec fn escape_count(outcomes: Seq<bool>) -> int
    decreases outcomes.len(),
{
    if outcomes.len() == 0 {
        0
    } else if outcomes[0] {
        1
    } else {
        1 + escape_count(outcomes.subrange(1, outcomes.len() as int))
    }
}

/// The count never exceeds the number of recorded steps, and a non-empty
/// record counts at least one.
pub proof fn lemma_escape_count_in_range(outcomes: Seq<bool>)
    ensures
        0 <= escape_count(outcomes) <= outcomes.len(),
        outcomes.len() >= 1 ==> 1 <= escape_count(outcomes),
    decreases outcomes.len(),
{
    if outcomes.len() > 0 && !outcomes[0] {
        lemma_escape_count_in_range(outcomes.subrange(1, outcomes.len() as int));
    }
}

/// The count is `j + 1` exactly when step `j` is the first whose test fired.
pub proof fn lemma_escape_count_at_first(outcomes: Seq<bool>, j: int)
    requires
        0 <= j < outcomes.len(),
        outcomes[j],
        forall|i: int| 0 <= i < j ==> !outcomes[i],
    ensures
        escape_count(outcomes) == j + 1,
    decreases j,
{
    if j > 0 {
        let tail = outcomes.subrange(1, outcomes.len() as int);
        assert forall|i: int| 0 <= i < j - 1 implies !tail[i] by {
            assert(tail[i] == outcomes[i + 1]);
        }
        lemma_escape_count_at_first(tail, j - 1);
    }
}

/// A record in which no test fired counts out the full number of steps:
/// a point that never escapes within the bound is reported exactly at the
/// bound.
pub proof fn lemma_escape_count_no_escape(outcomes: Seq<bool>)
    requires
        forall|i: int| 0 <= i < outcomes.len() ==> !outcomes[i],
    ensures
        escape_count(outcomes) == outcomes.len(),
    decreases outcomes.len(),
{
    if outcomes.len() > 0 {
        let tail = outcomes.subrange(1, outcomes.len() as int);
        assert forall|i: int| 0 <= i < tail.len() implies !tail[i] by {
            assert(tail[i] == outcomes[i + 1]);
        }
        lemma_escape_count_no_escape(tail);
    }
}

/// A record whose very first test fired counts one step: a point already
/// outside the escape radius after one application of the recurrence is
/// reported at step one.
pub proof fn lemma_escape_count_first_step(outcomes: Seq<bool>)
    requires
        outcomes.len() >= 1,
        outcomes[0],
    ensures
        escape_count(outcomes) == 1,
{
}

/// A count below the record's length pins the first fired test.
proof fn lemma_escape_count_found(outcomes: Seq<bool>)
    requires
        outcomes.len() >= 1,
        escape_count(outcomes) < outcomes.len(),
    ensures
        outcomes[escape_count(outcomes) - 1],
        forall|i: int| 0 <= i < escape_count(outcomes) - 1 ==> !outcomes[i],
    decreases outcomes.len(),
{
    if !outcomes[0] {
        let tail = outcomes.subrange(1, outcomes.len() as int);
        lemma_escape_count_in_range(tail);
        lemma_escape_count_found(tail);
        assert forall|i: int| 0 <= i < escape_count(outcomes) - 1 implies !outcomes[i] by {
            if i > 0 {
                assert(tail[i - 1] == outcomes[i]);
            }
        }
    }
}

/// Raising the iteration bound cannot change a count once the test has fired:
/// a longer record that agrees with a shorter one on the shorter one's steps,
/// where the shorter one's count lies strictly below its length, has the same
/// count.
pub proof fn lemma_escape_count_stable(shorter: Seq<bool>, longer: Seq<bool>)
    requires
        shorter.len() >= 1,
        escape_count(shorter) < shorter.len(),
        shorter.len() <= longer.len(),
        forall|i: int| 0 <= i < shorter.len() ==> longer[i] == shorter[i],
    ensures
        escape_count(longer) == escape_count(shorter),
{
    lemma_escape_count_in_range(shorter);
    lemma_escape_count_found(shorter);
    let j = escape_count(shorter) - 1;
    assert(longer[j]);
    lemma_escape_count_at_first(longer, j);
}

/// Reports the iteration count for a non-empty record of escape-test
/// outcomes.
pub fn evaluate_outcomes(outcomes: &Vec<bool>) -> (count: usize)
    requires
        outcomes@.len() >= 1,
    ensures
        1 <= count <= outcomes@.len(),
        count as int == escape_count(outcomes@),
{
    let len = outcomes.len();
    let mut k: usize = 0;
    while k < len
        invariant
            k <= len,
            len == outcomes@.len(),
            forall|i: int| 0 <= i < k ==> !outcomes@[i],
        decreases len - k,
    {
        if outcomes[k] {
            proof {
                lemma_escape_count_at_first(outcomes@, k as int);
            }
            return k + 1;
        }
        k += 1;
    }
    proof {
        lemma_escape_count_no_escape(outcomes@);
    }
    len
}

} // verus!
