//! The main sequence of the scheduler: which step follows which, where the
//! progress is recorded, and how cancellation and failure end the
//! sequence.

use crate::internal_config::GlobalConfig;
use crate::paths::{join, joined_path};
use crate::results::{failure_views, SchedulerPhase, SetupFailure, SetupFailureView};
use vstd::prelude::*;

verus! {

/// A step of the main sequence.
#[derive(Debug, Clone, Copy, PartialEq, Eq)]
pub enum RunStep {
    /// Prepare the file system for all plans.
    GeneralSetup,
    /// Record the phase that begins.
    WritePhase(SchedulerPhase),
    /// Unpack the files of the managed plans.
    ManagedRobotsSetup,
    /// Wait for the given number of seconds.
    AwaitGracePeriod(u64),
    /// Set up the package manager.
    RccSetup,
    /// Record the failures of all setup steps.
    WriteSetupFailures,
    /// Build the environments of the plans.
    BuildEnvironments,
    /// Run the plans until the scheduler is shut down.
    Schedule,
}

/// How a step ended.
#[derive(Debug, Clone, PartialEq, Eq)]
pub enum StepResult {
    /// The step was completed.
    Done,
    /// The scheduler is shutting down.
    Cancelled,
    /// The step failed in a way that affects all plans.
    Failed(String),
}

/// How the main sequence goes on.
#[derive(Debug, PartialEq, Eq)]
pub enum RunDecision {
    /// Perform the given step.
    Continue(RunStep),
    /// Stop with the given result.
    Stop(Result<(), String>),
}

/// The first step of the main sequence.
pub open spec fn first_step() -> RunStep {
    RunStep::GeneralSetup
}

/// The step that follows a completed step, if there is one.
pub open spec fn following_step(step: RunStep, grace_period: Option<u64>) -> Option<RunStep> {
    match step {
        RunStep::GeneralSetup => Some(RunStep::WritePhase(SchedulerPhase::ManagedRobots)),
        RunStep::WritePhase(SchedulerPhase::ManagedRobots) => Some(RunStep::ManagedRobotsSetup),
        RunStep::ManagedRobotsSetup => match grace_period {
            Some(seconds) => Some(RunStep::WritePhase(SchedulerPhase::GracePeriod(seconds))),
            None => Some(RunStep::WritePhase(SchedulerPhase::RCCSetup)),
        },
        RunStep::WritePhase(SchedulerPhase::GracePeriod(seconds)) => Some(
            RunStep::AwaitGracePeriod(seconds),
        ),
        RunStep::AwaitGracePeriod(_) => Some(RunStep::WritePhase(SchedulerPhase::RCCSetup)),
        RunStep::WritePhase(SchedulerPhase::RCCSetup) => Some(RunStep::RccSetup),
        RunStep::RccSetup => Some(RunStep::WriteSetupFailures),
        RunStep::WriteSetupFailures => Some(
            RunStep::WritePhase(SchedulerPhase::EnvironmentBuilding),
        ),
        RunStep::WritePhase(SchedulerPhase::EnvironmentBuilding) => Some(
            RunStep::BuildEnvironments,
        ),
        RunStep::BuildEnvironments => Some(RunStep::WritePhase(SchedulerPhase::Scheduling)),
        RunStep::WritePhase(SchedulerPhase::Scheduling) => Some(RunStep::Schedule),
        RunStep::Schedule => None,
    }
}

/// How the main sequence goes on after a step. Cancellation is a clean
/// shutdown, not a failure: it stops the sequence with success. A failure
/// stops it with the error. Otherwise the following step is due; after
/// the last step the sequence stops with success.
pub open spec fn decision(step: RunStep, result: StepResult, grace_period: Option<u64>) -> RunDecision {
    match result {
        StepResult::Cancelled => RunDecision::Stop(Ok(())),
        StepResult::Failed(message) => RunDecision::Stop(Err(message)),
        StepResult::Done => match following_step(step, grace_period) {
            Some(next) => RunDecision::Continue(next),
            None => RunDecision::Stop(Ok(())),
        },
    }
}

/// How far a step is from the end of the main sequence.
pub open spec fn steps_left(step: RunStep) -> nat {
    match step {
        RunStep::GeneralSetup => 11,
        RunStep::WritePhase(SchedulerPhase::ManagedRobots) => 10,
        RunStep::ManagedRobotsSetup => 9,
        RunStep::WritePhase(SchedulerPhase::GracePeriod(_)) => 8,
        RunStep::AwaitGracePeriod(_) => 7,
        RunStep::WritePhase(SchedulerPhase::RCCSetup) => 6,
        RunStep::RccSetup => 5,
        RunStep::WriteSetupFailures => 4,
        RunStep::WritePhase(SchedulerPhase::EnvironmentBuilding) => 3,
        RunStep::BuildEnvironments => 2,
        RunStep::WritePhase(SchedulerPhase::Scheduling) => 1,
        RunStep::Schedule => 0,
    }
}

/// The main sequence only moves forward, so it comes to an end and
/// records the phases in their order.
pub proof fn lemma_sequence_moves_forward(step: RunStep, grace_period: Option<u64>)
    ensures
        match following_step(step, grace_period) {
            Some(next) => steps_left(next) < steps_left(step),
            None => steps_left(step) == 0,
        },
{
}

/// Cancellation never turns into a failure, whichever step it hits.
pub proof fn lemma_cancellation_stops_cleanly(step: RunStep, grace_period: Option<u64>)
    ensures
        decision(step, StepResult::Cancelled, grace_period) == RunDecision::Stop(Ok(())),
{
}

/// Decides how the main sequence goes on after a step.
pub fn run(step: RunStep, result: StepResult, grace_period: Option<u64>) -> (next: RunDecision)
    ensures
        next == decision(step, result, grace_period),
{
    match result {
        StepResult::Cancelled => RunDecision::Stop(Ok(())),
        StepResult::Failed(message) => RunDecision::Stop(Err(message)),
        StepResult::Done => match step {
            RunStep::GeneralSetup => RunDecision::Continue(
                RunStep::WritePhase(SchedulerPhase::ManagedRobots),
            ),
            RunStep::WritePhase(phase) => match phase {
                SchedulerPhase::ManagedRobots => RunDecision::Continue(RunStep::ManagedRobotsSetup),
                SchedulerPhase::GracePeriod(seconds) => RunDecision::Continue(
                    RunStep::AwaitGracePeriod(seconds),
                ),
                SchedulerPhase::RCCSetup => RunDecision::Continue(RunStep::RccSetup),
                SchedulerPhase::EnvironmentBuilding => RunDecision::Continue(
                    RunStep::BuildEnvironments,
                ),
                SchedulerPhase::Scheduling => RunDecision::Continue(RunStep::Schedule),
            },
            RunStep::ManagedRobotsSetup => match grace_period {
                Some(seconds) => RunDecision::Continue(
                    RunStep::WritePhase(SchedulerPhase::GracePeriod(seconds)),
                ),
                None => RunDecision::Continue(RunStep::WritePhase(SchedulerPhase::RCCSetup)),
            },
            RunStep::AwaitGracePeriod(_) => RunDecision::Continue(
                RunStep::WritePhase(SchedulerPhase::RCCSetup),
            ),
            RunStep::RccSetup => RunDecision::Continue(RunStep::WriteSetupFailures),
            RunStep::WriteSetupFailures => RunDecision::Continue(
                RunStep::WritePhase(SchedulerPhase::EnvironmentBuilding),
            ),
            RunStep::BuildEnvironments => RunDecision::Continue(
                RunStep::WritePhase(SchedulerPhase::Scheduling),
            ),
            RunStep::Schedule => RunDecision::Stop(Ok(())),
        },
    }
}

/// Says where the phase of the scheduler is recorded: in a file at the
/// top level of the results directory.
pub fn write_phase(global_config: &GlobalConfig) -> (path: String)
    ensures
        path@ == joined_path(global_config.results_directory@, "scheduler_phase.json"@),
{
    join(global_config.results_directory.as_str(), "scheduler_phase.json")
}

/// Says where the failures of the setup are recorded, a file at the top
/// level of the results directory, and what is recorded there: the
/// failures of the general setup, then those of unpacking the managed
/// plans, then those of setting up the package manager.
pub fn write_setup_failures(
    general_setup_failures: Vec<SetupFailure>,
    unpacking_managed_failures: Vec<SetupFailure>,
    rcc_setup_failures: Vec<SetupFailure>,
    global_config: &GlobalConfig,
) -> (record: (String, Vec<SetupFailure>))
    ensures
        record.0@ == joined_path(global_config.results_directory@, "setup_failures.json"@),
        record.1@ == general_setup_failures@ + unpacking_managed_failures@ + rcc_setup_failures@,
{
    let mut failures = general_setup_failures;
    let mut unpacking_managed_failures = unpacking_managed_failures;
    let mut rcc_setup_failures = rcc_setup_failures;
    failures.append(&mut unpacking_managed_failures);
    failures.append(&mut rcc_setup_failures);
    (join(global_config.results_directory.as_str(), "setup_failures.json"), failures)
}

} // verus!
