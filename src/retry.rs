//! The decisions of the run loop: after each remote call, whether to move on,
//! wait and retry the same call, or give up on the resource.
use vstd::prelude::*;

use crate::plan::{
    lemma_protection_off_precedes_delete, planned, Directive, EligibleSets, Mutation, Step,
};

verus! {

/// The fixed wait, in seconds, before a failed call is tried again.
pub const BACKOFF_SECONDS: u64 = 15;

/// How many times one mutation is tried.
#[derive(Clone, Copy, Debug, PartialEq, Eq, Structural)]
pub enum RetryPolicy {
    /// Retry a failing call for as long as the process runs.
    Unbounded,
    /// Try a call at most this many times in all.
    AtMost(u32),
}

/// Where a run stands: the plan position of the next call, and how many times
/// that call has failed so far.
#[derive(Clone, Copy, Debug, PartialEq, Eq, Structural)]
pub struct Progress {
    pub position: usize,
    pub failures: u32,
}

/// What a remote call returned.
#[derive(Clone, Copy, Debug, PartialEq, Eq, Structural)]
pub enum CallResult {
    Succeeded,
    Failed,
}

/// What became of a call, for the run's report.
#[derive(Clone, Copy, Debug, PartialEq, Eq, Structural)]
pub enum Verdict {
    /// The call succeeded; the run moves on.
    Succeeded,
    /// The call failed and will be made again after the backoff.
    Retried,
    /// The call failed for the last time; the run moves on without it.
    Failed,
    /// The call failed for the last time; it disabled a database's deletion
    /// protection, so that database's delete is skipped too.
    FailedSkippingDelete,
}

/// Whether a call that has now failed `failures` times may be tried again.
pub open spec fn may_retry(policy: RetryPolicy, failures: int) -> bool {
    match policy {
        RetryPolicy::Unbounded => true,
        RetryPolicy::AtMost(n) => failures < n,
    }
}

/// Whether the step at `pos` disables protection and the next step deletes
/// that same database.
pub open spec fn guards_next_delete(plan: Seq<Step>, pos: int) -> bool {
    &&& 0 <= pos
    &&& pos + 1 < plan.len()
    &&& plan[pos].mutation == Mutation::DisableDeletionProtection
    &&& plan[pos + 1].mutation == Mutation::DeleteDatabase
    &&& plan[pos + 1].target@ == plan[pos].target@
}

/// A failure count one higher, held at the largest `u32`.
pub open spec fn bumped(failures: u32) -> u32 {
    if failures < u32::MAX {
        (failures + 1) as u32
    } else {
        failures
    }
}

/// The progress and verdict after the call at `at.position` returned `result`.
pub open spec fn next_progress(
    plan: Seq<Step>,
    policy: RetryPolicy,
    at: Progress,
    result: CallResult,
) -> (Progress, Verdict) {
    match result {
        CallResult::Succeeded => (
            Progress { position: (at.position + 1) as usize, failures: 0 },
            Verdict::Succeeded,
        ),
        CallResult::Failed => if may_retry(policy, at.failures + 1) {
            (Progress { position: at.position, failures: bumped(at.failures) }, Verdict::Retried)
        } else if guards_next_delete(plan, at.position as int) {
            (
                Progress { position: (at.position + 2) as usize, failures: 0 },
                Verdict::FailedSkippingDelete,
            )
        } else {
            (Progress { position: (at.position + 1) as usize, failures: 0 }, Verdict::Failed)
        },
    }
}

impl Progress {
    /// The start of a run: the first step, not yet tried.
    pub fn start() -> (r: Progress)
        ensures
            r.position == 0,
            r.failures == 0,
    {
        Progress { position: 0, failures: 0 }
    }
}

/// Decides what follows the call at `at.position` of `plan`.
pub fn advance(plan: &Vec<Step>, policy: RetryPolicy, at: Progress, result: CallResult) -> (r: (
    Progress,
    Verdict,
))
    requires
        at.position < plan@.len(),
    ensures
        r == next_progress(plan@, policy, at, result),
{
    let len: usize = plan.len();
    match result {
        CallResult::Succeeded => (Progress { position: at.position + 1, failures: 0 }, Verdict::Succeeded),
        CallResult::Failed => {
            let retry = match policy {
                RetryPolicy::Unbounded => true,
                RetryPolicy::AtMost(n) => at.failures < n && at.failures + 1 < n,
            };
            if retry {
                let failures: u32 = if at.failures < u32::MAX {
                    at.failures + 1
                } else {
                    at.failures
                };
                (Progress { position: at.position, failures }, Verdict::Retried)
            } else if at.position + 1 < len && plan[at.position].mutation
                == Mutation::DisableDeletionProtection && plan[at.position + 1].mutation
                == Mutation::DeleteDatabase && plan[at.position + 1].target
                == plan[at.position].target {
                (Progress { position: at.position + 2, failures: 0 }, Verdict::FailedSkippingDelete)
            } else {
                (Progress { position: at.position + 1, failures: 0 }, Verdict::Failed)
            }
        },
    }
}

/// A database is never deleted after the call that disables its deletion
/// protection has failed: whatever the policy, a failed protection-disable is
/// either retried (the run stays on it) or given up together with the delete
/// that follows it, so the run never moves on to that delete.
pub proof fn lemma_failed_protection_blocks_delete(
    s: EligibleSets,
    d: Directive,
    policy: RetryPolicy,
    at: Progress,
)
    requires
        planned(s, d).len() <= usize::MAX,
        at.position < planned(s, d).len(),
        planned(s, d)[at.position as int].mutation == Mutation::DisableDeletionProtection,
    ensures
        planned(s, d)[at.position + 1].mutation == Mutation::DeleteDatabase,
        next_progress(planned(s, d), policy, at, CallResult::Failed).0.position != at.position
            + 1,
{
    let p = planned(s, d);
    assert(p[at.position + 1] == (Step {
        mutation: Mutation::DeleteDatabase,
        target: p[at.position as int].target,
    })) by {
        lemma_protection_off_precedes_delete(s, d);
    }
    lemma_guarded_delete_is_skipped(p, policy, at);
}

proof fn lemma_guarded_delete_is_skipped(plan: Seq<Step>, policy: RetryPolicy, at: Progress)
    requires
        plan.len() <= usize::MAX,
        at.position + 1 < plan.len(),
        plan[at.position as int].mutation == Mutation::DisableDeletionProtection,
        plan[at.position + 1] == (Step {
            mutation: Mutation::DeleteDatabase,
            target: plan[at.position as int].target,
        }),
    ensures
        next_progress(plan, policy, at, CallResult::Failed).0.position != at.position + 1,
{
    assert(guards_next_delete(plan, at.position as int));
}

} // verus!
