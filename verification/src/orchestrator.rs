//! Deciding how a set of checks is run and whether the run as a whole
//! succeeded.

use vstd::prelude::*;
use crate::display::{is_terminal, CheckStatus, StatusEvent};

verus! {

/// Every final status among `statuses` is `Success`.
pub open spec fn all_succeeded(statuses: Seq<CheckStatus>) -> bool {
    forall|i: int|
        0 <= i < statuses.len() && is_terminal(#[trigger] statuses[i]) ==> statuses[i] is Success
}

/// Whether the checks are run one after the other: when that was asked
/// for, and when there is only one check.
pub open spec fn runs_in_sequence(sequential: bool, checks: nat) -> bool {
    sequential || checks == 1
}

/// Whether the checks are run one after the other rather than all at once.
pub fn run_sequentially(sequential: bool, checks: usize) -> (r: bool)
    ensures
        r == runs_in_sequence(sequential, checks as nat),
{
    sequential || checks == 1
}

/// Whether the run as a whole succeeded: every final status is `Success`.
pub fn aggregate_success(statuses: &Vec<CheckStatus>) -> (success: bool)
    ensures
        success == all_succeeded(statuses@),
{
    let mut i: usize = 0;
    while i < statuses.len()
        invariant
            i <= statuses.len(),
            forall|j: int|
                0 <= j < i && is_terminal(#[trigger] statuses[j]) ==> statuses[j] is Success,
        decreases statuses.len() - i,
    {
        match statuses[i] {
            CheckStatus::Warning { .. } => {
                return false;
            },
            CheckStatus::Error { .. } => {
                return false;
            },
            CheckStatus::Failed { .. } => {
                return false;
            },
            _ => {},
        }
        i += 1;
    }
    true
}

/// The number of checks among `statuses` that ended as `Error` or `Failed`.
pub open spec fn broken_count(statuses: Seq<CheckStatus>) -> nat
    decreases statuses.len(),
{
    if statuses.len() == 0 {
        0
    } else {
        broken_count(statuses.drop_last()) + if statuses.last() is Error || statuses.last()
            is Failed {
            1nat
        } else {
            0nat
        }
    }
}

/// A run in which a check ended as `Error` or `Failed` did not succeed.
pub proof fn lemma_broken_check_fails_run(statuses: Seq<CheckStatus>)
    requires
        broken_count(statuses) > 0,
    ensures
        !all_succeeded(statuses),
    decreases statuses.len(),
{
    if !(statuses.last() is Error || statuses.last() is Failed) {
        lemma_broken_check_fails_run(statuses.drop_last());
    }
}

/// The code with which the process ends: 0 if the run succeeded, 1 if not.
pub fn exit_code(success: bool) -> (code: i32)
    ensures
        code == if success {
            0i32
        } else {
            1i32
        },
{
    if success {
        0
    } else {
        1
    }
}

/// The event that tells the display that every check has finished.
pub fn completion_event() -> (event: StatusEvent)
    ensures
        event == StatusEvent::AllCompleted,
{
    StatusEvent::AllCompleted
}

} // verus!
