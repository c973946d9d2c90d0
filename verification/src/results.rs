//! The records the scheduler leaves behind: failures of the setup, the
//! outcome of every attempt and the report of a suite execution.

use vstd::prelude::*;

verus! {

/// Why a plan was excluded from scheduling.
#[derive(Debug, Clone, PartialEq, Eq)]
pub struct SetupFailure {
    pub plan_id: String,
    pub summary: String,
    pub details: String,
}

/// Mathematical content of a [`SetupFailure`].
pub ghost struct SetupFailureView {
    pub plan_id: Seq<char>,
    pub summary: Seq<char>,
    pub details: Seq<char>,
}

impl View for SetupFailure {
    type V = SetupFailureView;

    open spec fn view(&self) -> SetupFailureView {
        SetupFailureView {
            plan_id: self.plan_id@,
            summary: self.summary@,
            details: self.details@,
        }
    }
}

/// The contents of a sequence of setup failures.
pub open spec fn failure_views(failures: Seq<SetupFailure>) -> Seq<SetupFailureView> {
    failures.map_values(|failure: SetupFailure| failure@)
}

/// The plan IDs named by a sequence of setup failures, in order.
pub open spec fn failed_plan_ids(failures: Seq<SetupFailureView>) -> Seq<Seq<char>> {
    failures.map_values(|failure: SetupFailureView| failure.plan_id)
}

/// What one attempt to run a suite resulted in.
#[derive(Debug, Clone, PartialEq, Eq)]
pub enum AttemptOutcome {
    AllTestsPassed,
    TestFailures,
    RobotFrameworkFailure,
    EnvironmentFailure,
    TimedOut,
    OtherError(String),
}

/// Mathematical content of an [`AttemptOutcome`].
pub ghost enum AttemptOutcomeView {
    AllTestsPassed,
    TestFailures,
    RobotFrameworkFailure,
    EnvironmentFailure,
    TimedOut,
    OtherError(Seq<char>),
}

impl View for AttemptOutcome {
    type V = AttemptOutcomeView;

    open spec fn view(&self) -> AttemptOutcomeView {
        match self {
            AttemptOutcome::AllTestsPassed => AttemptOutcomeView::AllTestsPassed,
            AttemptOutcome::TestFailures => AttemptOutcomeView::TestFailures,
            AttemptOutcome::RobotFrameworkFailure => AttemptOutcomeView::RobotFrameworkFailure,
            AttemptOutcome::EnvironmentFailure => AttemptOutcomeView::EnvironmentFailure,
            AttemptOutcome::TimedOut => AttemptOutcomeView::TimedOut,
            AttemptOutcome::OtherError(message) => AttemptOutcomeView::OtherError(message@),
        }
    }
}

/// The contents of a sequence of attempt outcomes.
pub open spec fn outcome_views(outcomes: Seq<AttemptOutcome>) -> Seq<AttemptOutcomeView> {
    outcomes.map_values(|outcome: AttemptOutcome| outcome@)
}

impl AttemptOutcome {
    /// Whether the attempt ended with all tests passed.
    pub fn is_success(&self) -> (success: bool)
        ensures
            success == (self@ is AllTestsPassed),
    {
        match self {
            AttemptOutcome::AllTestsPassed => true,
            _ => false,
        }
    }
}

/// The retry and timeout policy a suite was executed with.
#[derive(Debug, Clone, Copy, PartialEq, Eq)]
pub struct AttemptsConfig {
    pub interval: u64,
    pub timeout: u64,
    pub n_attempts_max: usize,
}

/// The consolidated report of all attempts that produced output.
#[derive(Debug, Clone, PartialEq, Eq)]
pub struct RebotResult {
    pub xml: String,
    pub html: String,
    pub timestamp: i64,
}

/// What merging the outputs of the attempts resulted in.
#[derive(Debug, Clone, PartialEq, Eq)]
pub enum RebotOutcome {
    Merged(RebotResult),
    Error(String),
}

/// The durable result of one execution of a suite.
#[derive(Debug, Clone, PartialEq, Eq)]
pub struct SuiteExecutionReport {
    pub suite_id: String,
    pub attempts: Vec<AttemptOutcome>,
    pub rebot: Option<RebotOutcome>,
    pub config: AttemptsConfig,
}

/// Mathematical content of a [`SuiteExecutionReport`].
pub ghost struct SuiteExecutionReportView {
    pub suite_id: Seq<char>,
    pub attempts: Seq<AttemptOutcomeView>,
    pub rebot: Option<RebotOutcome>,
    pub config: AttemptsConfig,
}

impl View for SuiteExecutionReport {
    type V = SuiteExecutionReportView;

    open spec fn view(&self) -> SuiteExecutionReportView {
        SuiteExecutionReportView {
            suite_id: self.suite_id@,
            attempts: outcome_views(self.attempts@),
            rebot: self.rebot,
            config: self.config,
        }
    }
}

/// The coarse phases the scheduler passes through.
#[derive(Debug, Clone, Copy, PartialEq, Eq)]
pub enum SchedulerPhase {
    ManagedRobots,
    GracePeriod(u64),
    RCCSetup,
    EnvironmentBuilding,
    Scheduling,
}

} // verus!
