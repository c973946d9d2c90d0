use suite_scheduler::command_spec::CommandSpec;
use suite_scheduler::environment::{Environment, RccEnvironment, ResultCode};
use suite_scheduler::internal_config::{Robot, Suite};
use suite_scheduler::lock::WriteError;
use suite_scheduler::results::{
    AttemptOutcome, AttemptsConfig, RebotOutcome, RebotResult, SuiteExecutionReport,
};
use suite_scheduler::rf::{Attempt, Rebot};
use suite_scheduler::scheduling::suites::{
    new_output_directory, output_directory_at, produce_suite_results, run_attempt,
    run_attempts_until_succesful, run_spec, run_suite, AttemptObservation, SuiteAction,
    SuiteError, SuiteEvent, SuiteRun,
};
use suite_scheduler::session::{RunOutcome, RunSpec, Session};

const OUTPUT_DIRECTORY: &str = "/work/plans/suite/2024-01-01T00.00.00.000000+0000";

fn rcc() -> Environment {
    Environment::Rcc(RccEnvironment {
        binary_path: "/bin/rcc".into(),
        robot_yaml_path: "/robots/robot.yaml".into(),
        controller: "scheduler".into(),
        space: "space".into(),
        build_timeout: 600,
    })
}

fn suite(environment: Environment, n_attempts_max: usize) -> Suite {
    Suite {
        id: "suite".into(),
        working_directory: "/work/plans/suite".into(),
        results_file: "/results/plans/suite.json".into(),
        execution_interval_seconds: 300,
        timeout: 60,
        robot: Robot {
            robot_target: "/robots/tasks.robot".into(),
            command_line_args: vec!["--variable".into(), "X:1".into()],
            n_attempts_max,
        },
        environment,
        session: Session::Current,
    }
}

fn exited(exit_code: i32, output_exists: bool) -> AttemptObservation {
    AttemptObservation {
        run: Ok(RunOutcome::Exited(Some(exit_code))),
        output_exists,
    }
}

fn ended(run_outcome: RunOutcome) -> AttemptObservation {
    AttemptObservation {
        run: Ok(run_outcome),
        output_exists: false,
    }
}

fn output(index: usize) -> String {
    format!("{OUTPUT_DIRECTORY}/{index}.xml")
}

fn merged() -> RebotOutcome {
    RebotOutcome::Merged(RebotResult {
        xml: "<robot/>".into(),
        html: "<html/>".into(),
        timestamp: 1_700_000_000,
    })
}

fn config(n_attempts_max: usize) -> AttemptsConfig {
    AttemptsConfig {
        interval: 300,
        timeout: 60,
        n_attempts_max,
    }
}

fn python(arguments: &[&str]) -> CommandSpec {
    CommandSpec {
        executable: "python".into(),
        arguments: arguments.iter().map(|argument| argument.to_string()).collect(),
        envs: vec![],
    }
}

#[test]
fn exit_codes_of_the_system_environment() {
    assert_eq!(Environment::System.create_result_code(0), ResultCode::AllTestsPassed);
    assert_eq!(Environment::System.create_result_code(1), ResultCode::RobotCommandFailed);
    assert_eq!(Environment::System.create_result_code(10), ResultCode::RobotCommandFailed);
    assert_eq!(Environment::System.create_result_code(-1), ResultCode::RobotCommandFailed);
    assert_eq!(Environment::System.create_result_code(252), ResultCode::RobotCommandFailed);
}

#[test]
fn exit_codes_of_the_package_manager() {
    assert_eq!(rcc().create_result_code(0), ResultCode::AllTestsPassed);
    assert_eq!(rcc().create_result_code(10), ResultCode::RobotCommandFailed);
    assert_eq!(rcc().create_result_code(1), ResultCode::EnvironmentFailed);
    assert_eq!(rcc().create_result_code(-1), ResultCode::EnvironmentFailed);
    assert_eq!(rcc().create_result_code(i32::MIN), ResultCode::EnvironmentFailed);
}

#[test]
fn the_system_environment_launches_the_command_as_it_is() {
    let mut command = CommandSpec::new("python");
    command.add_argument("-m").add_env("KEY".into(), "value".into());
    assert_eq!(Environment::System.wrap(command.clone()), command);
    assert!(!Environment::System.uses_rcc());
}

#[test]
fn the_package_manager_wraps_the_command() {
    let mut command = CommandSpec::new("python");
    command
        .add_arguments(vec!["-m", "robot"])
        .add_env("KEY".into(), "value".into());
    assert_eq!(
        rcc().wrap(command),
        CommandSpec {
            executable: "/bin/rcc".into(),
            arguments: [
                "task",
                "script",
                "--no-build",
                "--robot",
                "/robots/robot.yaml",
                "--controller",
                "scheduler",
                "--space",
                "space",
                "--",
                "python",
                "-m",
                "robot"
            ]
            .iter()
            .map(|argument| argument.to_string())
            .collect(),
            envs: vec![("KEY".into(), "value".into())],
        }
    );
    assert!(rcc().uses_rcc());
}

#[test]
fn the_command_of_an_attempt() {
    let suite = suite(Environment::System, 3);
    assert_eq!(
        suite.robot.attempt(OUTPUT_DIRECTORY, 2),
        Attempt {
            index: 2,
            command_spec: python(&[
                "-m",
                "robot",
                "--variable",
                "X:1",
                "--outputdir",
                OUTPUT_DIRECTORY,
                "--output",
                &output(2),
                "--log",
                &format!("{OUTPUT_DIRECTORY}/2.html"),
                "--report",
                "NONE",
                "/robots/tasks.robot",
            ]),
            output_xml_file: output(2),
        }
    );
    assert_eq!(
        suite.robot.attempt("/out", 12).output_xml_file,
        "/out/12.xml"
    );
}

#[test]
fn what_is_launched_for_an_attempt() {
    let suite = suite(Environment::System, 3);
    let attempt = suite.robot.attempt(OUTPUT_DIRECTORY, 3);
    assert_eq!(
        run_spec(&suite, attempt.clone(), OUTPUT_DIRECTORY),
        RunSpec {
            id: "robotmk_suite_suite_attempt_3".into(),
            command_spec: attempt.command_spec,
            base_path: format!("{OUTPUT_DIRECTORY}/3"),
            timeout: 60,
        }
    );
    let wrapped = suite_scheduler::scheduling::suites::run_spec(
        &self::suite(rcc(), 1),
        self::suite(rcc(), 1).robot.attempt("/out", 1),
        "/out",
    );
    assert_eq!(wrapped.command_spec.executable, "/bin/rcc");
    assert_eq!(wrapped.id, "robotmk_suite_suite_attempt_1");
    assert_eq!(wrapped.base_path, "/out/1");
}

#[test]
fn all_tests_passed_with_output() {
    let suite = suite(Environment::System, 3);
    let attempt = suite.robot.attempt(OUTPUT_DIRECTORY, 1);
    assert_eq!(
        run_attempt(&suite, attempt, exited(0, true)),
        Ok((AttemptOutcome::AllTestsPassed, Some(output(1))))
    );
}

#[test]
fn failed_tests_with_output_are_test_failures() {
    let suite = suite(Environment::System, 3);
    let attempt = suite.robot.attempt(OUTPUT_DIRECTORY, 1);
    assert_eq!(
        run_attempt(&suite, attempt, exited(1, true)),
        Ok((AttemptOutcome::TestFailures, Some(output(1))))
    );
}

#[test]
fn failed_tests_without_output_are_a_failure_of_the_test_runner() {
    let suite = suite(Environment::System, 3);
    let attempt = suite.robot.attempt(OUTPUT_DIRECTORY, 1);
    assert_eq!(
        run_attempt(&suite, attempt, exited(1, false)),
        Ok((AttemptOutcome::RobotFrameworkFailure, None))
    );
}

#[test]
fn a_failed_environment_contributes_no_output() {
    let suite = suite(rcc(), 3);
    let attempt = suite.robot.attempt(OUTPUT_DIRECTORY, 2);
    assert_eq!(
        run_attempt(&suite, attempt.clone(), exited(3, true)),
        Ok((AttemptOutcome::EnvironmentFailure, None))
    );
    assert_eq!(
        run_attempt(&suite, attempt.clone(), exited(10, true)),
        Ok((AttemptOutcome::TestFailures, Some(output(2))))
    );
    assert_eq!(
        run_attempt(&suite, attempt, exited(10, false)),
        Ok((AttemptOutcome::RobotFrameworkFailure, None))
    );
}

#[test]
fn runs_without_exit_code() {
    let suite = suite(Environment::System, 3);
    let attempt = suite.robot.attempt(OUTPUT_DIRECTORY, 1);
    assert_eq!(
        run_attempt(&suite, attempt.clone(), ended(RunOutcome::TimedOut)),
        Ok((AttemptOutcome::TimedOut, None))
    );
    assert_eq!(
        run_attempt(&suite, attempt.clone(), ended(RunOutcome::Exited(None))),
        Ok((
            AttemptOutcome::OtherError("Failed to query exit code of Robot Framework call".into()),
            None
        ))
    );
    assert_eq!(
        run_attempt(
            &suite,
            attempt.clone(),
            AttemptObservation {
                run: Err("Failed to launch process\n\nCaused by:\n    not found".into()),
                output_exists: true,
            }
        ),
        Ok((
            AttemptOutcome::OtherError(
                "Failed to launch process\n\nCaused by:\n    not found".into()
            ),
            None
        ))
    );
    assert_eq!(
        run_attempt(&suite, attempt, ended(RunOutcome::Terminated)),
        Err(SuiteError::Terminated)
    );
}

#[test]
fn attempts_stop_at_the_first_success() {
    let suite = suite(Environment::System, 3);
    assert_eq!(
        run_attempts_until_succesful(
            &suite,
            OUTPUT_DIRECTORY,
            vec![exited(1, true), exited(1, true), exited(0, true)]
        ),
        Ok((
            vec![
                AttemptOutcome::TestFailures,
                AttemptOutcome::TestFailures,
                AttemptOutcome::AllTestsPassed
            ],
            vec![output(1), output(2), output(3)]
        ))
    );
    assert_eq!(
        run_attempts_until_succesful(
            &suite,
            OUTPUT_DIRECTORY,
            vec![exited(0, true), exited(1, true), exited(0, true)]
        ),
        Ok((vec![AttemptOutcome::AllTestsPassed], vec![output(1)]))
    );
}

#[test]
fn attempts_without_output_are_left_out_of_the_merge() {
    let suite = suite(Environment::System, 3);
    assert_eq!(
        run_attempts_until_succesful(
            &suite,
            OUTPUT_DIRECTORY,
            vec![exited(1, false), ended(RunOutcome::TimedOut), exited(0, true)]
        ),
        Ok((
            vec![
                AttemptOutcome::RobotFrameworkFailure,
                AttemptOutcome::TimedOut,
                AttemptOutcome::AllTestsPassed
            ],
            vec![output(3)]
        ))
    );
}

#[test]
fn attempts_never_exceed_their_maximum() {
    let suite = suite(Environment::System, 2);
    assert_eq!(
        run_attempts_until_succesful(
            &suite,
            OUTPUT_DIRECTORY,
            vec![exited(1, true), exited(1, false), exited(0, true), exited(0, true)]
        ),
        Ok((
            vec![
                AttemptOutcome::TestFailures,
                AttemptOutcome::RobotFrameworkFailure
            ],
            vec![output(1)]
        ))
    );
    assert_eq!(
        run_attempts_until_succesful(
            &self::suite(Environment::System, 0),
            OUTPUT_DIRECTORY,
            vec![exited(0, true)]
        ),
        Ok((vec![], vec![]))
    );
    assert_eq!(
        run_attempts_until_succesful(&suite, OUTPUT_DIRECTORY, vec![]),
        Ok((vec![], vec![]))
    );
}

#[test]
fn a_terminated_run_aborts_whichever_attempt_it_hits() {
    let suite = suite(Environment::System, 3);
    for k in 0..3 {
        let mut observations = vec![exited(1, true), exited(1, true), exited(1, true)];
        observations[k] = ended(RunOutcome::Terminated);
        assert_eq!(
            run_attempts_until_succesful(&suite, OUTPUT_DIRECTORY, observations),
            Err(SuiteError::Terminated)
        );
    }
    assert_eq!(
        run_attempts_until_succesful(
            &suite,
            OUTPUT_DIRECTORY,
            vec![exited(0, true), ended(RunOutcome::Terminated)]
        ),
        Ok((vec![AttemptOutcome::AllTestsPassed], vec![output(1)]))
    );
}

#[test]
fn the_report_of_an_execution() {
    let suite = suite(Environment::System, 3);
    assert_eq!(
        produce_suite_results(
            &suite,
            vec![AttemptOutcome::TestFailures, AttemptOutcome::AllTestsPassed],
            Some(merged())
        ),
        SuiteExecutionReport {
            suite_id: "suite".into(),
            attempts: vec![AttemptOutcome::TestFailures, AttemptOutcome::AllTestsPassed],
            rebot: Some(merged()),
            config: config(3),
        }
    );
    assert_eq!(
        produce_suite_results(&suite, vec![], None),
        SuiteExecutionReport {
            suite_id: "suite".into(),
            attempts: vec![],
            rebot: None,
            config: config(3),
        }
    );
}

#[test]
fn the_merge_of_the_outputs() {
    assert_eq!(
        Rebot::new(OUTPUT_DIRECTORY, vec![output(1), output(3)]),
        Rebot {
            input_paths: vec![output(1), output(3)],
            path_xml: format!("{OUTPUT_DIRECTORY}/rebot.xml"),
            path_html: format!("{OUTPUT_DIRECTORY}/rebot.html"),
        }
    );
}

#[test]
fn output_directories_lie_below_the_working_directory() {
    let suite = suite(Environment::System, 3);
    assert_eq!(
        output_directory_at(&suite, "2024-01-01T00.00.00.000000+0000"),
        OUTPUT_DIRECTORY
    );
    let fresh = new_output_directory(&suite);
    assert!(fresh.starts_with("/work/plans/suite/"));
    assert!(fresh.len() > "/work/plans/suite/".len());
    assert!(fresh.ends_with("+0000"));
}

fn run_attempt_action(suite: &Suite, index: usize) -> SuiteAction {
    SuiteAction::RunAttempt {
        run_spec: run_spec(suite, suite.robot.attempt(OUTPUT_DIRECTORY, index), OUTPUT_DIRECTORY),
        output_xml_file: output(index),
    }
}

#[test]
fn an_execution_from_trigger_to_report() {
    let suite = suite(Environment::System, 3);
    let (state, action) = run_suite(&suite, OUTPUT_DIRECTORY, SuiteRun::Idle, SuiteEvent::Triggered);
    assert_eq!(state, SuiteRun::CreatingOutputDirectory);
    assert_eq!(
        action,
        SuiteAction::CreateOutputDirectory(OUTPUT_DIRECTORY.to_string())
    );

    let (state, action) = run_suite(
        &suite,
        OUTPUT_DIRECTORY,
        state,
        SuiteEvent::DirectoryCreated(Ok(())),
    );
    assert_eq!(
        state,
        SuiteRun::Attempting {
            outcomes: vec![],
            output_paths: vec![]
        }
    );
    assert_eq!(action, run_attempt_action(&suite, 1));

    let (state, action) = run_suite(
        &suite,
        OUTPUT_DIRECTORY,
        state,
        SuiteEvent::AttemptRan(exited(1, true)),
    );
    assert_eq!(
        state,
        SuiteRun::Attempting {
            outcomes: vec![AttemptOutcome::TestFailures],
            output_paths: vec![output(1)]
        }
    );
    assert_eq!(action, run_attempt_action(&suite, 2));

    let (state, action) = run_suite(
        &suite,
        OUTPUT_DIRECTORY,
        state,
        SuiteEvent::AttemptRan(exited(1, false)),
    );
    assert_eq!(action, run_attempt_action(&suite, 3));

    let (state, action) = run_suite(
        &suite,
        OUTPUT_DIRECTORY,
        state,
        SuiteEvent::AttemptRan(exited(0, true)),
    );
    let outcomes = vec![
        AttemptOutcome::TestFailures,
        AttemptOutcome::RobotFrameworkFailure,
        AttemptOutcome::AllTestsPassed,
    ];
    assert_eq!(
        state,
        SuiteRun::Merging {
            outcomes: outcomes.clone()
        }
    );
    assert_eq!(
        action,
        SuiteAction::Merge(Rebot::new(OUTPUT_DIRECTORY, vec![output(1), output(3)]))
    );

    let (state, action) = run_suite(&suite, OUTPUT_DIRECTORY, state, SuiteEvent::Merged(merged()));
    assert_eq!(state, SuiteRun::Writing);
    assert_eq!(
        action,
        SuiteAction::Write(SuiteExecutionReport {
            suite_id: "suite".into(),
            attempts: outcomes,
            rebot: Some(merged()),
            config: config(3),
        })
    );

    let (state, action) = run_suite(&suite, OUTPUT_DIRECTORY, state, SuiteEvent::Written(Ok(())));
    assert_eq!(state, SuiteRun::Finished);
    assert_eq!(action, SuiteAction::Finish(Ok(())));
}

#[test]
fn an_execution_stops_at_the_first_success() {
    let suite = suite(Environment::System, 3);
    let state = SuiteRun::Attempting {
        outcomes: vec![],
        output_paths: vec![],
    };
    let (state, action) = run_suite(
        &suite,
        OUTPUT_DIRECTORY,
        state,
        SuiteEvent::AttemptRan(exited(0, true)),
    );
    assert_eq!(
        state,
        SuiteRun::Merging {
            outcomes: vec![AttemptOutcome::AllTestsPassed]
        }
    );
    assert_eq!(
        action,
        SuiteAction::Merge(Rebot::new(OUTPUT_DIRECTORY, vec![output(1)]))
    );
}

#[test]
fn an_execution_without_output_is_reported_without_merge() {
    let suite = suite(Environment::System, 2);
    let state = SuiteRun::Attempting {
        outcomes: vec![AttemptOutcome::TimedOut],
        output_paths: vec![],
    };
    let (state, action) = run_suite(
        &suite,
        OUTPUT_DIRECTORY,
        state,
        SuiteEvent::AttemptRan(exited(1, false)),
    );
    assert_eq!(state, SuiteRun::Writing);
    assert_eq!(
        action,
        SuiteAction::Write(SuiteExecutionReport {
            suite_id: "suite".into(),
            attempts: vec![
                AttemptOutcome::TimedOut,
                AttemptOutcome::RobotFrameworkFailure
            ],
            rebot: None,
            config: config(2),
        })
    );
}

#[test]
fn an_execution_without_attempts() {
    let suite = suite(Environment::System, 0);
    let (state, action) = run_suite(
        &suite,
        OUTPUT_DIRECTORY,
        SuiteRun::CreatingOutputDirectory,
        SuiteEvent::DirectoryCreated(Ok(())),
    );
    assert_eq!(state, SuiteRun::Writing);
    assert_eq!(
        action,
        SuiteAction::Write(SuiteExecutionReport {
            suite_id: "suite".into(),
            attempts: vec![],
            rebot: None,
            config: config(0),
        })
    );
}

#[test]
fn a_terminated_run_ends_the_execution_without_report() {
    let suite = suite(Environment::System, 3);
    for recorded in 0..3 {
        let state = SuiteRun::Attempting {
            outcomes: vec![AttemptOutcome::TestFailures; recorded],
            output_paths: (1..=recorded).map(output).collect(),
        };
        let (state, action) = run_suite(
            &suite,
            OUTPUT_DIRECTORY,
            state,
            SuiteEvent::AttemptRan(ended(RunOutcome::Terminated)),
        );
        assert_eq!(state, SuiteRun::Finished);
        assert_eq!(action, SuiteAction::Finish(Err(SuiteError::Terminated)));
        let (state, action) =
            run_suite(&suite, OUTPUT_DIRECTORY, state, SuiteEvent::Merged(merged()));
        assert_eq!(state, SuiteRun::Finished);
        assert_eq!(action, SuiteAction::Finish(Err(SuiteError::UnexpectedEvent)));
    }
}

#[test]
fn an_execution_fails_without_its_output_directory() {
    let suite = suite(Environment::System, 3);
    assert_eq!(
        run_suite(
            &suite,
            OUTPUT_DIRECTORY,
            SuiteRun::CreatingOutputDirectory,
            SuiteEvent::DirectoryCreated(Err("read-only file system".into())),
        ),
        (
            SuiteRun::Finished,
            SuiteAction::Finish(Err(SuiteError::OutputDirectory(
                "read-only file system".into()
            )))
        )
    );
}

#[test]
fn a_report_that_cannot_be_written_fails_the_execution() {
    let suite = suite(Environment::System, 3);
    assert_eq!(
        run_suite(
            &suite,
            OUTPUT_DIRECTORY,
            SuiteRun::Writing,
            SuiteEvent::Written(Err(WriteError::Cancelled)),
        ),
        (
            SuiteRun::Finished,
            SuiteAction::Finish(Err(SuiteError::Reporting(WriteError::Cancelled)))
        )
    );
    assert_eq!(
        run_suite(
            &suite,
            OUTPUT_DIRECTORY,
            SuiteRun::Writing,
            SuiteEvent::Written(Err(WriteError::Failed("disk full".into()))),
        ),
        (
            SuiteRun::Finished,
            SuiteAction::Finish(Err(SuiteError::Reporting(WriteError::Failed(
                "disk full".into()
            ))))
        )
    );
}

#[test]
fn events_out_of_turn_end_the_execution() {
    let suite = suite(Environment::System, 3);
    let astray = (
        SuiteRun::Finished,
        SuiteAction::Finish(Err(SuiteError::UnexpectedEvent)),
    );
    assert_eq!(
        run_suite(&suite, OUTPUT_DIRECTORY, SuiteRun::Idle, SuiteEvent::Written(Ok(()))),
        astray
    );
    assert_eq!(
        run_suite(&suite, OUTPUT_DIRECTORY, SuiteRun::Writing, SuiteEvent::Triggered),
        astray
    );
    assert_eq!(
        run_suite(
            &suite,
            OUTPUT_DIRECTORY,
            SuiteRun::Merging { outcomes: vec![] },
            SuiteEvent::AttemptRan(exited(0, true))
        ),
        astray
    );
    assert_eq!(
        run_suite(
            &suite,
            OUTPUT_DIRECTORY,
            SuiteRun::Attempting {
                outcomes: vec![AttemptOutcome::AllTestsPassed],
                output_paths: vec![output(1)]
            },
            SuiteEvent::AttemptRan(exited(0, true))
        ),
        astray
    );
    assert_eq!(
        run_suite(
            &suite,
            OUTPUT_DIRECTORY,
            SuiteRun::Attempting {
                outcomes: vec![AttemptOutcome::TimedOut; 3],
                output_paths: vec![]
            },
            SuiteEvent::AttemptRan(exited(0, true))
        ),
        astray
    );
    assert_eq!(
        run_suite(&suite, OUTPUT_DIRECTORY, SuiteRun::Finished, SuiteEvent::Triggered),
        astray
    );
}

#[test]
fn success_is_told_from_other_outcomes() {
    assert!(AttemptOutcome::AllTestsPassed.is_success());
    assert!(!AttemptOutcome::TestFailures.is_success());
    assert!(!AttemptOutcome::RobotFrameworkFailure.is_success());
    assert!(!AttemptOutcome::EnvironmentFailure.is_success());
    assert!(!AttemptOutcome::TimedOut.is_success());
    assert!(!AttemptOutcome::OtherError("".into()).is_success());
}
