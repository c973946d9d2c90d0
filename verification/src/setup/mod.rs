//! Preparation of the file system before any plan is scheduled.
//!
//! The setup never touches the file system itself. For every plan it names
//! the operations that have to succeed, in the order in which they are to
//! be performed, and from the operations that were reported as failed it
//! decides which plans survive and which are excluded with a recorded
//! failure.

pub mod cleanup;
pub mod general;
pub mod windows_permissions;

use crate::internal_config::{plan_ids, Plan, Platform, Source};
use crate::paths::{join, joined_path};
use crate::results::{failed_plan_ids, failure_views, SetupFailure, SetupFailureView};
use crate::session::{session_id, Session};
use vstd::prelude::*;
use vstd::string::StringExecFns;

verus! {

/// An operation on a directory that the setup asks for.
#[derive(Debug, Clone, PartialEq, Eq)]
pub enum DirectoryOperation {
    /// Create the directory and all of its missing parents.
    Create { path: String },
    /// Reset the access control list of the directory to what it inherits.
    ResetAccess { path: String },
    /// Give the user full, inheritable control of the directory tree.
    GrantFullAccess { user: String, path: String },
}

/// Mathematical content of a [`DirectoryOperation`].
pub ghost enum DirectoryOperationView {
    Create { path: Seq<char> },
    ResetAccess { path: Seq<char> },
    GrantFullAccess { user: Seq<char>, path: Seq<char> },
}

impl View for DirectoryOperation {
    type V = DirectoryOperationView;

    open spec fn view(&self) -> DirectoryOperationView {
        match self {
            DirectoryOperation::Create { path } => DirectoryOperationView::Create { path: path@ },
            DirectoryOperation::ResetAccess { path } => DirectoryOperationView::ResetAccess {
                path: path@,
            },
            DirectoryOperation::GrantFullAccess { user, path } => {
                DirectoryOperationView::GrantFullAccess { user: user@, path: path@ }
            },
        }
    }
}

impl DirectoryOperation {
    /// Whether both ask for the same operation on the same path, letter for
    /// letter.
    pub fn is_same(&self, other: &DirectoryOperation) -> (same: bool)
        ensures
            same == (self@ == other@),
    {
        match (self, other) {
            (DirectoryOperation::Create { path: left }, DirectoryOperation::Create { path: right }) => {
                *left == *right
            },
            (
                DirectoryOperation::ResetAccess { path: left },
                DirectoryOperation::ResetAccess { path: right },
            ) => *left == *right,
            (
                DirectoryOperation::GrantFullAccess { user: left_user, path: left },
                DirectoryOperation::GrantFullAccess { user: right_user, path: right },
            ) => *left_user == *right_user && *left == *right,
            _ => false,
        }
    }
}

/// Report that an operation was performed and failed.
#[derive(Debug, Clone, PartialEq, Eq)]
pub struct FailedOperation {
    pub operation: DirectoryOperation,
    pub details: String,
}

/// Mathematical content of a [`FailedOperation`].
pub ghost struct FailedOperationView {
    pub operation: DirectoryOperationView,
    pub details: Seq<char>,
}

impl View for FailedOperation {
    type V = FailedOperationView;

    open spec fn view(&self) -> FailedOperationView {
        FailedOperationView { operation: self.operation@, details: self.details@ }
    }
}

/// The contents of a sequence of reports.
pub open spec fn report_views(reports: Seq<FailedOperation>) -> Seq<FailedOperationView> {
    reports.map_values(|report: FailedOperation| report@)
}

/// One operation a plan depends on, with the summary under which its
/// failure is recorded.
#[derive(Debug, Clone, PartialEq, Eq)]
pub struct SetupStep {
    pub operation: DirectoryOperation,
    pub summary: String,
}

/// Mathematical content of a [`SetupStep`].
pub ghost struct SetupStepView {
    pub operation: DirectoryOperationView,
    pub summary: Seq<char>,
}

impl View for SetupStep {
    type V = SetupStepView;

    open spec fn view(&self) -> SetupStepView {
        SetupStepView { operation: self.operation@, summary: self.summary@ }
    }
}

/// The contents of a sequence of steps.
pub open spec fn step_views(steps: Seq<SetupStep>) -> Seq<SetupStepView> {
    steps.map_values(|step: SetupStep| step@)
}

/// The details of the first report about `operation`, if there is one.
pub open spec fn reported_details(
    operation: DirectoryOperationView,
    reports: Seq<FailedOperationView>,
) -> Option<Seq<char>>
    decreases reports.len(),
{
    if reports.len() == 0 {
        None
    } else {
        match reported_details(operation, reports.drop_last()) {
            Some(details) => Some(details),
            None => if reports.last().operation == operation {
                Some(reports.last().details)
            } else {
                None
            },
        }
    }
}

/// Summary and details of the first of `steps` that was reported as
/// failed, if there is one.
pub open spec fn first_failure(steps: Seq<SetupStepView>, reports: Seq<FailedOperationView>) -> Option<
    (Seq<char>, Seq<char>),
>
    decreases steps.len(),
{
    if steps.len() == 0 {
        None
    } else {
        match first_failure(steps.drop_last(), reports) {
            Some(failure) => Some(failure),
            None => match reported_details(steps.last().operation, reports) {
                Some(details) => Some((steps.last().summary, details)),
                None => None,
            },
        }
    }
}

/// A report that is found among the first reports stays the first one when
/// more reports follow.
pub proof fn lemma_reported_details_extends(
    operation: DirectoryOperationView,
    reports: Seq<FailedOperationView>,
    n: int,
)
    requires
        0 <= n <= reports.len(),
        reported_details(operation, reports.take(n)) is Some,
    ensures
        reported_details(operation, reports) == reported_details(operation, reports.take(n)),
    decreases reports.len() - n,
{
    if n == reports.len() {
        assert(reports.take(n) =~= reports);
    } else {
        assert(reports.take(n + 1).drop_last() =~= reports.take(n));
        lemma_reported_details_extends(operation, reports, n + 1);
    }
}

/// A failure that is found among the first steps stays the first one when
/// more steps follow.
pub proof fn lemma_first_failure_extends(
    steps: Seq<SetupStepView>,
    reports: Seq<FailedOperationView>,
    n: int,
)
    requires
        0 <= n <= steps.len(),
        first_failure(steps.take(n), reports) is Some,
    ensures
        first_failure(steps, reports) == first_failure(steps.take(n), reports),
    decreases steps.len() - n,
{
    if n == steps.len() {
        assert(steps.take(n) =~= steps);
    } else {
        assert(steps.take(n + 1).drop_last() =~= steps.take(n));
        lemma_first_failure_extends(steps, reports, n + 1);
    }
}

/// Looks up the first report about `operation`.
pub fn find_report<'a>(operation: &DirectoryOperation, reports: &'a Vec<FailedOperation>) -> (found:
    Option<&'a FailedOperation>)
    ensures
        match reported_details(operation@, report_views(reports@)) {
            Some(details) => found is Some && found->0.operation@ == operation@
                && found->0.details@ == details,
            None => found is None,
        },
{
    let ghost all = report_views(reports@);
    let mut i: usize = 0;
    while i < reports.len()
        invariant
            i <= reports.len(),
            all == report_views(reports@),
            reported_details(operation@, all.take(i as int)) is None,
        decreases reports.len() - i,
    {
        assert(all.take(i + 1).drop_last() =~= all.take(i as int));
        if reports[i].operation.is_same(operation) {
            proof {
                lemma_reported_details_extends(operation@, all, i + 1);
            }
            return Some(&reports[i]);
        }
        i += 1;
    }
    assert(all.take(reports.len() as int) =~= all);
    None
}

/// Finds the first of `steps` that was reported as failed and records it
/// for the plan with the given ID.
pub fn find_failure(plan_id: &String, steps: &Vec<SetupStep>, reports: &Vec<FailedOperation>) -> (found:
    Option<SetupFailure>)
    ensures
        match first_failure(step_views(steps@), report_views(reports@)) {
            Some(failure) => found is Some && found->0@ == (SetupFailureView {
                plan_id: plan_id@,
                summary: failure.0,
                details: failure.1,
            }),
            None => found is None,
        },
{
    let ghost all = step_views(steps@);
    let ghost reported = report_views(reports@);
    let mut i: usize = 0;
    while i < steps.len()
        invariant
            i <= steps.len(),
            all == step_views(steps@),
            reported == report_views(reports@),
            first_failure(all.take(i as int), reported) is None,
        decreases steps.len() - i,
    {
        assert(all.take(i + 1).drop_last() =~= all.take(i as int));
        match find_report(&steps[i].operation, reports) {
            Some(report) => {
                proof {
                    lemma_first_failure_extends(all, reported, i + 1);
                }
                return Some(
                    SetupFailure {
                        plan_id: plan_id.clone(),
                        summary: steps[i].summary.clone(),
                        details: report.details.clone(),
                    },
                );
            },
            None => {},
        }
        i += 1;
    }
    assert(all.take(steps.len() as int) =~= all);
    None
}

} // verus!
