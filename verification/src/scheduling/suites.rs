//! Execution of one suite: up to a maximal number of attempts, stopped by
//! the first attempt in which all tests pass, followed by the merge of the
//! outputs and the report.
//!
//! Launching a process, looking for its output, merging and writing are
//! left to the caller. Here is decided what each observation means and
//! what is to be done next.

use crate::command_spec::texts;
use crate::environment::ResultCode;
use crate::internal_config::Suite;
use crate::lock::WriteError;
use crate::paths::{join, joined_path};
use crate::results::{
    outcome_views, AttemptOutcome, AttemptOutcomeView, AttemptsConfig, RebotOutcome,
    SuiteExecutionReport, SuiteExecutionReportView,
};
use crate::rf::{attempt_of, output_xml_file, rebot_of, Attempt, AttemptView, Rebot, RebotView};
use crate::session::{RunOutcome, RunSpec, RunSpecView};
use crate::text::{decimal, decimal_text};
use vstd::prelude::*;
use vstd::string::StringExecFns;

verus! {

/// What was observed of one attempt.
#[derive(Debug, PartialEq, Eq)]
pub struct AttemptObservation {
    /// How the run ended, or why it could not be launched.
    pub run: Result<RunOutcome, String>,
    /// Whether the output file of the attempt exists after the run.
    pub output_exists: bool,
}

/// Why the execution of a suite was given up.
#[derive(Debug, Clone, PartialEq, Eq)]
pub enum SuiteError {
    /// The scheduler is shutting down.
    Terminated,
    /// The directory for the outputs of the run could not be created.
    OutputDirectory(String),
    /// The report could not be written.
    Reporting(WriteError),
    /// An event was handed in that the state of the run does not expect.
    UnexpectedEvent,
}

/// What is launched for an attempt of a suite: the command of the attempt,
/// wrapped by the environment of the suite.
pub open spec fn run_spec_of(suite: Suite, output_directory: Seq<char>, attempt: AttemptView) -> RunSpecView {
    RunSpecView {
        id: "robotmk_suite_"@ + suite.id@ + "_attempt_"@ + decimal(attempt.index),
        command_spec: suite.environment.wrapped(attempt.command_spec),
        base_path: joined_path(output_directory, decimal(attempt.index)),
        timeout: suite.timeout,
    }
}

/// Says what to launch for an attempt of a suite.
pub fn run_spec(suite: &Suite, attempt: Attempt, output_directory: &str) -> (run_spec: RunSpec)
    ensures
        run_spec@ == run_spec_of(*suite, output_directory@, attempt@),
{
    let number = decimal_text(attempt.index);
    RunSpec {
        id: String::from_str("robotmk_suite_").concat(suite.id.as_str()).concat("_attempt_").concat(
            number.as_str(),
        ),
        command_spec: suite.environment.wrap(attempt.command_spec),
        base_path: join(output_directory, number.as_str()),
        timeout: suite.timeout,
    }
}

/// The outcome of an attempt and the output it contributes to the merge,
/// or `None` if the run was terminated because the scheduler is shutting
/// down.
///
/// A run that could not be launched, and one whose exit code is unknown,
/// is an error of its own kind. Otherwise the environment of the suite
/// says what the exit code means. A failed test run counts as test
/// failures only if it left output behind.
pub open spec fn classified(
    suite: Suite,
    output_xml_file: Seq<char>,
    observation: AttemptObservation,
) -> Option<(AttemptOutcomeView, Option<Seq<char>>)> {
    match observation.run {
        Err(message) => Some((AttemptOutcomeView::OtherError(message@), None)),
        Ok(RunOutcome::TimedOut) => Some((AttemptOutcomeView::TimedOut, None)),
        Ok(RunOutcome::Terminated) => None,
        Ok(RunOutcome::Exited(None)) => Some(
            (
                AttemptOutcomeView::OtherError(
                    "Failed to query exit code of Robot Framework call"@,
                ),
                None,
            ),
        ),
        Ok(RunOutcome::Exited(Some(exit_code))) => match suite.environment.result_code(exit_code) {
            ResultCode::AllTestsPassed => Some(
                (AttemptOutcomeView::AllTestsPassed, Some(output_xml_file)),
            ),
            ResultCode::EnvironmentFailed => Some((AttemptOutcomeView::EnvironmentFailure, None)),
            ResultCode::RobotCommandFailed => if observation.output_exists {
                Some((AttemptOutcomeView::TestFailures, Some(output_xml_file)))
            } else {
                Some((AttemptOutcomeView::RobotFrameworkFailure, None))
            },
        },
    }
}

/// The text of an optional path.
pub open spec fn optional_text(path: Option<String>) -> Option<Seq<char>> {
    match path {
        Some(path) => Some(path@),
        None => None,
    }
}

/// Classifies what was observed of an attempt. A run that was terminated
/// because the scheduler is shutting down is no outcome of the attempt:
/// it ends the execution of the suite.
pub fn run_attempt(suite: &Suite, attempt: Attempt, observation: AttemptObservation) -> (result:
    Result<(AttemptOutcome, Option<String>), SuiteError>)
    ensures
        match classified(*suite, attempt.output_xml_file@, observation) {
            Some(expected) => result is Ok && result->Ok_0.0@ == expected.0 && optional_text(
                result->Ok_0.1,
            ) == expected.1,
            None => result == Err::<(AttemptOutcome, Option<String>), SuiteError>(
                SuiteError::Terminated,
            ),
        },
{
    let run_outcome = match observation.run {
        Ok(run_outcome) => run_outcome,
        Err(message) => {
            return Ok((AttemptOutcome::OtherError(message), None));
        },
    };
    let exit_code = match run_outcome {
        RunOutcome::Exited(exit_code) => exit_code,
        RunOutcome::TimedOut => {
            return Ok((AttemptOutcome::TimedOut, None));
        },
        RunOutcome::Terminated => {
            return Err(SuiteError::Terminated);
        },
    };
    let exit_code = match exit_code {
        Some(exit_code) => exit_code,
        None => {
            return Ok(
                (
                    AttemptOutcome::OtherError(
                        String::from_str("Failed to query exit code of Robot Framework call"),
                    ),
                    None,
                ),
            );
        },
    };
    match suite.environment.create_result_code(exit_code) {
        ResultCode::AllTestsPassed => Ok(
            (AttemptOutcome::AllTestsPassed, Some(attempt.output_xml_file)),
        ),
        ResultCode::EnvironmentFailed => Ok((AttemptOutcome::EnvironmentFailure, None)),
        ResultCode::RobotCommandFailed => {
            if observation.output_exists {
                Ok((AttemptOutcome::TestFailures, Some(attempt.output_xml_file)))
            } else {
                Ok((AttemptOutcome::RobotFrameworkFailure, None))
            }
        },
    }
}

/// The outcomes of the attempts that were run, in order, and the outputs
/// they contribute to the merge, in order.
pub ghost struct AttemptLog {
    pub outcomes: Seq<AttemptOutcomeView>,
    pub output_paths: Seq<Seq<char>>,
}

/// Whether no further attempt is to be run: the maximal number of
/// attempts was run, or all tests passed in the last one.
pub open spec fn is_complete(outcomes: Seq<AttemptOutcomeView>, n_attempts_max: usize) -> bool {
    outcomes.len() >= n_attempts_max || (outcomes.len() > 0 && outcomes.last() is AllTestsPassed)
}

/// The log with one more attempt.
pub open spec fn extended(log: AttemptLog, attempt: (AttemptOutcomeView, Option<Seq<char>>)) -> AttemptLog {
    AttemptLog {
        outcomes: log.outcomes.push(attempt.0),
        output_paths: match attempt.1 {
            Some(path) => log.output_paths.push(path),
            None => log.output_paths,
        },
    }
}

/// The log of the attempts after the given observations, the first for
/// attempt 1, the next for attempt 2 and so on; `None` if a run was
/// terminated. Observations beyond the last attempt that is to be run are
/// not looked at.
pub open spec fn attempts_after(
    suite: Suite,
    output_directory: Seq<char>,
    observations: Seq<AttemptObservation>,
) -> Option<AttemptLog>
    decreases observations.len(),
{
    if observations.len() == 0 {
        Some(AttemptLog { outcomes: Seq::empty(), output_paths: Seq::empty() })
    } else {
        match attempts_after(suite, output_directory, observations.drop_last()) {
            None => None,
            Some(log) => if is_complete(log.outcomes, suite.robot.n_attempts_max) {
                Some(log)
            } else {
                match classified(
                    suite,
                    output_xml_file(output_directory, log.outcomes.len() + 1),
                    observations.last(),
                ) {
                    None => None,
                    Some(attempt) => Some(extended(log, attempt)),
                }
            },
        }
    }
}

/// Never more attempts are run than the suite allows, and none after one
/// in which all tests passed. At most one output per attempt goes into the
/// merge.
pub proof fn lemma_attempts_are_bounded(
    suite: Suite,
    output_directory: Seq<char>,
    observations: Seq<AttemptObservation>,
)
    requires
        attempts_after(suite, output_directory, observations) is Some,
    ensures
        ({
            let log = attempts_after(suite, output_directory, observations)->0;
            &&& log.outcomes.len() <= suite.robot.n_attempts_max
            &&& log.outcomes.len() <= observations.len()
            &&& log.output_paths.len() <= log.outcomes.len()
            &&& forall|i: int|
                0 <= i < log.outcomes.len() - 1 ==> !(#[trigger] log.outcomes[i] is AllTestsPassed)
        }),
    decreases observations.len(),
{
    if observations.len() > 0 {
        lemma_attempts_are_bounded(suite, output_directory, observations.drop_last());
    }
}

/// Once a run was terminated, no observation that follows brings the
/// execution back.
pub proof fn lemma_termination_is_final(
    suite: Suite,
    output_directory: Seq<char>,
    observations: Seq<AttemptObservation>,
    n: int,
)
    requires
        0 <= n <= observations.len(),
        attempts_after(suite, output_directory, observations.take(n)) is None,
    ensures
        attempts_after(suite, output_directory, observations) is None,
    decreases observations.len() - n,
{
    if n == observations.len() {
        assert(observations.take(n) =~= observations);
    } else {
        assert(observations.take(n + 1).drop_last() =~= observations.take(n));
        lemma_termination_is_final(suite, output_directory, observations, n + 1);
    }
}

/// A terminated run aborts the execution whichever attempt it hits: if
/// the attempts before it did not end the execution, nothing is reported.
pub proof fn lemma_terminated_attempt_aborts(
    suite: Suite,
    output_directory: Seq<char>,
    observations: Seq<AttemptObservation>,
    k: int,
)
    requires
        0 <= k < observations.len(),
        observations[k].run == Ok::<RunOutcome, String>(RunOutcome::Terminated),
        attempts_after(suite, output_directory, observations.take(k)) matches Some(log)
            && !is_complete(log.outcomes, suite.robot.n_attempts_max),
    ensures
        attempts_after(suite, output_directory, observations) is None,
{
    assert(observations.take(k + 1).drop_last() =~= observations.take(k));
    assert(observations.take(k + 1).last() == observations[k]);
    lemma_termination_is_final(suite, output_directory, observations, k + 1);
}

fn is_finished(outcomes: &Vec<AttemptOutcome>, n_attempts_max: usize) -> (complete: bool)
    ensures
        complete == is_complete(outcome_views(outcomes@), n_attempts_max),
{
    if outcomes.len() >= n_attempts_max {
        return true;
    }
    if outcomes.len() == 0 {
        return false;
    }
    let last = outcomes.len() - 1;
    assert(outcome_views(outcomes@).last() == outcomes@[last as int]@);
    outcomes[last].is_success()
}

/// Goes through the observations of the attempts in their order until no
/// further attempt is to be run: the first observation is that of attempt
/// 1. Returns the outcomes of the attempts and the outputs that go into
/// the merge, or fails if a run was terminated.
pub fn run_attempts_until_succesful(
    suite: &Suite,
    output_directory: &str,
    observations: Vec<AttemptObservation>,
) -> (result: Result<(Vec<AttemptOutcome>, Vec<String>), SuiteError>)
    ensures
        match attempts_after(*suite, output_directory@, observations@) {
            Some(log) => result is Ok && outcome_views(result->Ok_0.0@) == log.outcomes && texts(
                result->Ok_0.1@,
            ) == log.output_paths,
            None => result == Err::<(Vec<AttemptOutcome>, Vec<String>), SuiteError>(
                SuiteError::Terminated,
            ),
        },
{
    let mut outcomes: Vec<AttemptOutcome> = Vec::new();
    let mut output_paths: Vec<String> = Vec::new();
    proof {
        assert(outcome_views(outcomes@) =~= Seq::empty());
        assert(texts(output_paths@) =~= Seq::empty());
    }
    for observation in it: observations
        invariant
            it.seq() == observations@,
            attempts_after(*suite, output_directory@, it.seq().take(it.index() as int)) == Some(
                AttemptLog {
                    outcomes: outcome_views(outcomes@),
                    output_paths: texts(output_paths@),
                },
            ),
    {
        proof {
            assert(it.seq().take(it.index() + 1).drop_last() =~= it.seq().take(it.index() as int));
            assert(it.seq().take(it.index() + 1).last() == observation);
        }
        if !is_finished(&outcomes, suite.robot.n_attempts_max) {
            let attempt = suite.robot.attempt(output_directory, outcomes.len() + 1);
            let ghost before = outcomes@;
            let ghost paths_before = output_paths@;
            match run_attempt(suite, attempt, observation) {
                Ok((outcome, output_path)) => {
                    outcomes.push(outcome);
                    assert(outcome_views(outcomes@) =~= outcome_views(before).push(outcome@));
                    match output_path {
                        Some(output_path) => {
                            output_paths.push(output_path);
                            assert(texts(output_paths@) =~= texts(paths_before).push(output_path@));
                        },
                        None => {},
                    }
                },
                Err(error) => {
                    proof {
                        lemma_termination_is_final(
                            *suite,
                            output_directory@,
                            observations@,
                            it.index() + 1,
                        );
                    }
                    return Err(error);
                },
            }
        }
    }
    proof {
        assert(observations@.take(observations@.len() as int) =~= observations@);
    }
    Ok((outcomes, output_paths))
}

/// The report of an execution of a suite.
pub open spec fn report_of(
    suite: Suite,
    outcomes: Seq<AttemptOutcomeView>,
    rebot: Option<RebotOutcome>,
) -> SuiteExecutionReportView {
    SuiteExecutionReportView {
        suite_id: suite.id@,
        attempts: outcomes,
        rebot: rebot,
        config: AttemptsConfig {
            interval: suite.execution_interval_seconds,
            timeout: suite.timeout,
            n_attempts_max: suite.robot.n_attempts_max,
        },
    }
}

/// Assembles the report of an execution: the outcomes of the attempts in
/// their order, the result of the merge if there was one, and the policy
/// the suite was executed with.
pub fn produce_suite_results(
    suite: &Suite,
    attempts: Vec<AttemptOutcome>,
    rebot: Option<RebotOutcome>,
) -> (report: SuiteExecutionReport)
    ensures
        report@ == report_of(*suite, outcome_views(attempts@), rebot),
{
    SuiteExecutionReport {
        suite_id: suite.id.clone(),
        attempts,
        rebot,
        config: AttemptsConfig {
            interval: suite.execution_interval_seconds,
            timeout: suite.timeout,
            n_attempts_max: suite.robot.n_attempts_max,
        },
    }
}

/// The format of the time stamp that names the output directory of a run.
pub open spec fn timestamp_format() -> Seq<char> {
    "%Y-%m-%dT%H.%M.%S%.f%z"@
}

/// Calls `chrono::Utc::now` and formats the result with
/// `chrono::DateTime::format`. Not verified. The text depends on the
/// clock, so nothing is claimed of it. The format is restricted to the
/// one this module uses, which the formatter accepts; with a format it
/// does not accept, turning the result into text would panic. The clock
/// must not be set to a time before 1970.
#[verifier::external_body]
fn utc_now(format: &str) -> (timestamp: String)
    requires
        format@ == timestamp_format(),
{
    chrono::Utc::now().format(format).to_string()
}

/// The directory for the outputs of a run that starts at the time with
/// the given stamp.
pub fn output_directory_at(suite: &Suite, timestamp: &str) -> (directory: String)
    ensures
        directory@ == joined_path(suite.working_directory@, timestamp@),
{
    join(suite.working_directory.as_str(), timestamp)
}

/// A fresh directory for the outputs of a run that starts now. It lies
/// below the working directory of the suite and is named by the current
/// time, so that the runs of a suite never share a directory.
pub fn new_output_directory(suite: &Suite) -> (directory: String)
    ensures
        exists|timestamp: Seq<char>|
            directory@ == #[trigger] joined_path(suite.working_directory@, timestamp),
{
    let timestamp = utc_now("%Y-%m-%dT%H.%M.%S%.f%z");
    output_directory_at(suite, timestamp.as_str())
}

/// The state of the execution of a suite.
#[derive(Debug, PartialEq, Eq)]
pub enum SuiteRun {
    /// Nothing was done yet.
    Idle,
    /// The directory for the outputs of the run is being created.
    CreatingOutputDirectory,
    /// The attempt that follows the recorded ones is being run.
    Attempting { outcomes: Vec<AttemptOutcome>, output_paths: Vec<String> },
    /// The outputs of the attempts are being merged.
    Merging { outcomes: Vec<AttemptOutcome> },
    /// The report is being written.
    Writing,
    /// The execution is over.
    Finished,
}

/// Mathematical content of a [`SuiteRun`].
pub ghost enum SuiteRunView {
    Idle,
    CreatingOutputDirectory,
    Attempting { outcomes: Seq<AttemptOutcomeView>, output_paths: Seq<Seq<char>> },
    Merging { outcomes: Seq<AttemptOutcomeView> },
    Writing,
    Finished,
}

impl View for SuiteRun {
    type V = SuiteRunView;

    open spec fn view(&self) -> SuiteRunView {
        match self {
            SuiteRun::Idle => SuiteRunView::Idle,
            SuiteRun::CreatingOutputDirectory => SuiteRunView::CreatingOutputDirectory,
            SuiteRun::Attempting { outcomes, output_paths } => SuiteRunView::Attempting {
                outcomes: outcome_views(outcomes@),
                output_paths: texts(output_paths@),
            },
            SuiteRun::Merging { outcomes } => SuiteRunView::Merging {
                outcomes: outcome_views(outcomes@),
            },
            SuiteRun::Writing => SuiteRunView::Writing,
            SuiteRun::Finished => SuiteRunView::Finished,
        }
    }
}

/// What happened since the last action was asked for.
#[derive(Debug, PartialEq, Eq)]
pub enum SuiteEvent {
    /// The suite is due.
    Triggered,
    /// The attempt to create the output directory ended.
    DirectoryCreated(Result<(), String>),
    /// The attempt ended.
    AttemptRan(AttemptObservation),
    /// The merge ended.
    Merged(RebotOutcome),
    /// The attempt to write the report ended.
    Written(Result<(), WriteError>),
}

/// What is to be done next in the execution of a suite.
#[derive(Debug, PartialEq, Eq)]
pub enum SuiteAction {
    /// Create the directory for the outputs of the run.
    CreateOutputDirectory(String),
    /// Launch the attempt in the session of the suite; afterwards look
    /// whether the output file exists.
    RunAttempt { run_spec: RunSpec, output_xml_file: String },
    /// Merge the outputs of the attempts in the environment of the suite.
    Merge(Rebot),
    /// Write the report to the results file of the suite, under the lock
    /// on the results directory.
    Write(SuiteExecutionReport),
    /// Nothing: the execution is over with the given result.
    Finish(Result<(), SuiteError>),
}

/// Mathematical content of a [`SuiteAction`].
pub ghost enum SuiteActionView {
    CreateOutputDirectory(Seq<char>),
    RunAttempt { run_spec: RunSpecView, output_xml_file: Seq<char> },
    Merge(RebotView),
    Write(SuiteExecutionReportView),
    Finish(Result<(), SuiteError>),
}

impl View for SuiteAction {
    type V = SuiteActionView;

    open spec fn view(&self) -> SuiteActionView {
        match self {
            SuiteAction::CreateOutputDirectory(path) => SuiteActionView::CreateOutputDirectory(
                path@,
            ),
            SuiteAction::RunAttempt { run_spec, output_xml_file } => SuiteActionView::RunAttempt {
                run_spec: run_spec@,
                output_xml_file: output_xml_file@,
            },
            SuiteAction::Merge(rebot) => SuiteActionView::Merge(rebot@),
            SuiteAction::Write(report) => SuiteActionView::Write(report@),
            SuiteAction::Finish(result) => SuiteActionView::Finish(*result),
        }
    }
}

/// How the execution goes on after the recorded attempts. While a further
/// attempt is to be run, it is launched. Afterwards the outputs are
/// merged, if there are any, and else the report is written without a
/// merged result.
pub open spec fn after_attempts(suite: Suite, output_directory: Seq<char>, log: AttemptLog) -> (
    SuiteRunView,
    SuiteActionView,
) {
    if !is_complete(log.outcomes, suite.robot.n_attempts_max) {
        let attempt = attempt_of(suite.robot, output_directory, log.outcomes.len() + 1);
        (
            SuiteRunView::Attempting { outcomes: log.outcomes, output_paths: log.output_paths },
            SuiteActionView::RunAttempt {
                run_spec: run_spec_of(suite, output_directory, attempt),
                output_xml_file: attempt.output_xml_file,
            },
        )
    } else if log.output_paths.len() == 0 {
        (SuiteRunView::Writing, SuiteActionView::Write(report_of(suite, log.outcomes, None)))
    } else {
        (
            SuiteRunView::Merging { outcomes: log.outcomes },
            SuiteActionView::Merge(rebot_of(output_directory, log.output_paths)),
        )
    }
}

/// The end of an execution that was handed an event it did not expect.
pub open spec fn gone_astray() -> (SuiteRunView, SuiteActionView) {
    (
        SuiteRunView::Finished,
        SuiteActionView::Finish(Err::<(), SuiteError>(SuiteError::UnexpectedEvent)),
    )
}

/// The state an event leads to, and what is to be done next.
pub open spec fn suite_step(
    suite: Suite,
    output_directory: Seq<char>,
    state: SuiteRunView,
    event: SuiteEvent,
) -> (SuiteRunView, SuiteActionView) {
    match (state, event) {
        (SuiteRunView::Idle, SuiteEvent::Triggered) => (
            SuiteRunView::CreatingOutputDirectory,
            SuiteActionView::CreateOutputDirectory(output_directory),
        ),
        (SuiteRunView::CreatingOutputDirectory, SuiteEvent::DirectoryCreated(Ok(()))) => {
            after_attempts(
                suite,
                output_directory,
                AttemptLog { outcomes: Seq::empty(), output_paths: Seq::empty() },
            )
        },
        (SuiteRunView::CreatingOutputDirectory, SuiteEvent::DirectoryCreated(Err(message))) => (
            SuiteRunView::Finished,
            SuiteActionView::Finish(Err::<(), SuiteError>(SuiteError::OutputDirectory(message))),
        ),
        (
            SuiteRunView::Attempting { outcomes, output_paths },
            SuiteEvent::AttemptRan(observation),
        ) => if is_complete(outcomes, suite.robot.n_attempts_max) {
            gone_astray()
        } else {
            match classified(
                suite,
                output_xml_file(output_directory, outcomes.len() + 1),
                observation,
            ) {
                None => (
                    SuiteRunView::Finished,
                    SuiteActionView::Finish(Err::<(), SuiteError>(SuiteError::Terminated)),
                ),
                Some(attempt) => after_attempts(
                    suite,
                    output_directory,
                    extended(AttemptLog { outcomes, output_paths }, attempt),
                ),
            }
        },
        (SuiteRunView::Merging { outcomes }, SuiteEvent::Merged(rebot)) => (
            SuiteRunView::Writing,
            SuiteActionView::Write(report_of(suite, outcomes, Some(rebot))),
        ),
        (SuiteRunView::Writing, SuiteEvent::Written(Ok(()))) => (
            SuiteRunView::Finished,
            SuiteActionView::Finish(Ok::<(), SuiteError>(())),
        ),
        (SuiteRunView::Writing, SuiteEvent::Written(Err(error))) => (
            SuiteRunView::Finished,
            SuiteActionView::Finish(Err::<(), SuiteError>(SuiteError::Reporting(error))),
        ),
        _ => gone_astray(),
    }
}

/// Whether a state can be reached in an execution: no more attempts are
/// recorded than the suite allows, and all tests passed at most in the
/// last of them. While an attempt is run, a further one is still allowed.
pub open spec fn is_reachable(state: SuiteRunView, n_attempts_max: usize) -> bool {
    match state {
        SuiteRunView::Attempting { outcomes, output_paths } => !is_complete(
            outcomes,
            n_attempts_max,
        ) && forall|i: int| 0 <= i < outcomes.len() ==> !(#[trigger] outcomes[i] is AllTestsPassed),
        SuiteRunView::Merging { outcomes } => outcomes.len() <= n_attempts_max && forall|i: int|
            0 <= i < outcomes.len() - 1 ==> !(#[trigger] outcomes[i] is AllTestsPassed),
        _ => true,
    }
}

/// The attempts stay bounded throughout an execution: from a reachable
/// state only reachable states follow, and a report never holds more
/// attempts than the suite allows, nor one after an attempt in which all
/// tests passed.
pub proof fn lemma_execution_keeps_attempts_bounded(
    suite: Suite,
    output_directory: Seq<char>,
    state: SuiteRunView,
    event: SuiteEvent,
)
    requires
        is_reachable(state, suite.robot.n_attempts_max),
    ensures
        is_reachable(
            suite_step(suite, output_directory, state, event).0,
            suite.robot.n_attempts_max,
        ),
        suite_step(suite, output_directory, state, event).1 matches SuiteActionView::Write(report)
            ==> report.attempts.len() <= suite.robot.n_attempts_max && forall|i: int|
            0 <= i < report.attempts.len() - 1 ==> !(#[trigger] report.attempts[i]
                is AllTestsPassed),
{
}

/// A terminated run ends the execution at once, whichever attempt it
/// hits, and nothing that follows makes the execution write a report.
pub proof fn lemma_terminated_run_writes_no_report(
    suite: Suite,
    output_directory: Seq<char>,
    outcomes: Seq<AttemptOutcomeView>,
    output_paths: Seq<Seq<char>>,
    observation: AttemptObservation,
    later: SuiteEvent,
)
    requires
        !is_complete(outcomes, suite.robot.n_attempts_max),
        observation.run == Ok::<RunOutcome, String>(RunOutcome::Terminated),
    ensures
        suite_step(
            suite,
            output_directory,
            SuiteRunView::Attempting { outcomes, output_paths },
            SuiteEvent::AttemptRan(observation),
        ) == (
            SuiteRunView::Finished,
            SuiteActionView::Finish(Err::<(), SuiteError>(SuiteError::Terminated)),
        ),
        !(suite_step(suite, output_directory, SuiteRunView::Finished, later).1 is Write),
{
}

/// Where an execution stands after its output directory was created and
/// the given observations of its attempts were handed in one by one.
pub open spec fn after_observations(
    suite: Suite,
    output_directory: Seq<char>,
    observations: Seq<AttemptObservation>,
) -> (SuiteRunView, SuiteActionView)
    decreases observations.len(),
{
    if observations.len() == 0 {
        after_attempts(
            suite,
            output_directory,
            AttemptLog { outcomes: Seq::empty(), output_paths: Seq::empty() },
        )
    } else {
        suite_step(
            suite,
            output_directory,
            after_observations(suite, output_directory, observations.drop_last()).0,
            SuiteEvent::AttemptRan(observations.last()),
        )
    }
}

/// Handing in the observations one by one leads where they lead taken
/// together: if every observation belongs to an attempt that was to be
/// run, the execution goes on as the log of these attempts says.
pub proof fn lemma_execution_follows_the_attempts(
    suite: Suite,
    output_directory: Seq<char>,
    observations: Seq<AttemptObservation>,
)
    requires
        attempts_after(suite, output_directory, observations) matches Some(log)
            && log.outcomes.len() == observations.len(),
    ensures
        after_observations(suite, output_directory, observations) == after_attempts(
            suite,
            output_directory,
            attempts_after(suite, output_directory, observations)->0,
        ),
    decreases observations.len(),
{
    if observations.len() > 0 {
        let earlier = observations.drop_last();
        lemma_attempts_are_bounded(suite, output_directory, earlier);
        lemma_execution_follows_the_attempts(suite, output_directory, earlier);
    }
}

fn continue_after_attempts(
    suite: &Suite,
    output_directory: &str,
    outcomes: Vec<AttemptOutcome>,
    output_paths: Vec<String>,
) -> (next: (SuiteRun, SuiteAction))
    ensures
        (next.0@, next.1@) == after_attempts(
            *suite,
            output_directory@,
            AttemptLog {
                outcomes: outcome_views(outcomes@),
                output_paths: texts(output_paths@),
            },
        ),
{
    if !is_finished(&outcomes, suite.robot.n_attempts_max) {
        let attempt = suite.robot.attempt(output_directory, outcomes.len() + 1);
        let output_xml_file = attempt.output_xml_file.clone();
        let run_spec = run_spec(suite, attempt, output_directory);
        (SuiteRun::Attempting { outcomes, output_paths }, SuiteAction::RunAttempt {
            run_spec,
            output_xml_file,
        })
    } else if output_paths.len() == 0 {
        (SuiteRun::Writing, SuiteAction::Write(produce_suite_results(suite, outcomes, None)))
    } else {
        (SuiteRun::Merging { outcomes }, SuiteAction::Merge(Rebot::new(output_directory, output_paths)))
    }
}

fn astray() -> (next: (SuiteRun, SuiteAction))
    ensures
        (next.0@, next.1@) == gone_astray(),
{
    (SuiteRun::Finished, SuiteAction::Finish(Err(SuiteError::UnexpectedEvent)))
}

/// Advances the execution of a suite by one event and says what is to be
/// done next.
///
/// An execution starts in [`SuiteRun::Idle`] with [`SuiteEvent::Triggered`].
/// The caller performs each action and hands back what happened, until the
/// action is [`SuiteAction::Finish`]. Attempts are run one after the other,
/// never more than the suite allows, and none after an attempt in which
/// all tests passed. A run that was terminated ends the execution without
/// a report.
pub fn run_suite(suite: &Suite, output_directory: &str, state: SuiteRun, event: SuiteEvent) -> (next: (
    SuiteRun,
    SuiteAction,
))
    ensures
        (next.0@, next.1@) == suite_step(*suite, output_directory@, state@, event),
{
    match state {
        SuiteRun::Idle => match event {
            SuiteEvent::Triggered => (
                SuiteRun::CreatingOutputDirectory,
                SuiteAction::CreateOutputDirectory(String::from_str(output_directory)),
            ),
            _ => astray(),
        },
        SuiteRun::CreatingOutputDirectory => match event {
            SuiteEvent::DirectoryCreated(Ok(())) => {
                let outcomes: Vec<AttemptOutcome> = Vec::new();
                let output_paths: Vec<String> = Vec::new();
                assert(outcome_views(outcomes@) =~= Seq::empty());
                assert(texts(output_paths@) =~= Seq::empty());
                continue_after_attempts(suite, output_directory, outcomes, output_paths)
            },
            SuiteEvent::DirectoryCreated(Err(message)) => (
                SuiteRun::Finished,
                SuiteAction::Finish(Err(SuiteError::OutputDirectory(message))),
            ),
            _ => astray(),
        },
        SuiteRun::Attempting { outcomes, output_paths } => match event {
            SuiteEvent::AttemptRan(observation) => {
                if is_finished(&outcomes, suite.robot.n_attempts_max) {
                    astray()
                } else {
                    let mut outcomes = outcomes;
                    let mut output_paths = output_paths;
                    let ghost before = outcomes@;
                    let ghost paths_before = output_paths@;
                    let attempt = suite.robot.attempt(output_directory, outcomes.len() + 1);
                    match run_attempt(suite, attempt, observation) {
                        Ok((outcome, output_path)) => {
                            outcomes.push(outcome);
                            assert(outcome_views(outcomes@) =~= outcome_views(before).push(
                                outcome@,
                            ));
                            match output_path {
                                Some(output_path) => {
                                    output_paths.push(output_path);
                                    assert(texts(output_paths@) =~= texts(paths_before).push(
                                        output_path@,
                                    ));
                                },
                                None => {},
                            }
                            continue_after_attempts(suite, output_directory, outcomes, output_paths)
                        },
                        Err(error) => (SuiteRun::Finished, SuiteAction::Finish(Err(error))),
                    }
                }
            },
            _ => astray(),
        },
        SuiteRun::Merging { outcomes } => match event {
            SuiteEvent::Merged(rebot) => (
                SuiteRun::Writing,
                SuiteAction::Write(produce_suite_results(suite, outcomes, Some(rebot))),
            ),
            _ => astray(),
        },
        SuiteRun::Writing => match event {
            SuiteEvent::Written(Ok(())) => (SuiteRun::Finished, SuiteAction::Finish(Ok(()))),
            SuiteEvent::Written(Err(error)) => (
                SuiteRun::Finished,
                SuiteAction::Finish(Err(SuiteError::Reporting(error))),
            ),
            _ => astray(),
        },
        SuiteRun::Finished => astray(),
    }
}

} // verus!
