//! The environment a plan is executed in. It decides how a command is
//! wrapped before it is launched and what an exit code means.

use crate::command_spec::{texts, CommandSpec, CommandSpecView};
use vstd::prelude::*;
use vstd::string::StringExecFns;

verus! {

/// Meaning of the exit code of a test run.
#[derive(Debug, Clone, Copy, PartialEq, Eq)]
pub enum ResultCode {
    AllTestsPassed,
    EnvironmentFailed,
    RobotCommandFailed,
}

/// Settings of an environment that is managed by the package manager.
#[derive(Debug, Clone, PartialEq, Eq)]
pub struct RccEnvironment {
    pub binary_path: String,
    pub robot_yaml_path: String,
    pub controller: String,
    pub space: String,
    pub build_timeout: u64,
}

/// The closed set of environment kinds.
#[derive(Debug, Clone, PartialEq, Eq)]
pub enum Environment {
    System,
    Rcc(RccEnvironment),
}

/// Exit code with which the package manager reports that the wrapped
/// command ran and failed.
pub const RCC_COMMAND_FAILED: i32 = 10;

/// Meaning of an exit code in the system environment.
pub open spec fn system_result_code(exit_code: i32) -> ResultCode {
    if exit_code == 0 {
        ResultCode::AllTestsPassed
    } else {
        ResultCode::RobotCommandFailed
    }
}

/// Meaning of an exit code in an environment of the package manager.
pub open spec fn rcc_result_code(exit_code: i32) -> ResultCode {
    if exit_code == 0 {
        ResultCode::AllTestsPassed
    } else if exit_code == RCC_COMMAND_FAILED {
        ResultCode::RobotCommandFailed
    } else {
        ResultCode::EnvironmentFailed
    }
}

/// The arguments that make the package manager run a command in the
/// environment described by `environment`, up to and including the
/// separator that precedes the command.
pub open spec fn rcc_prefix(environment: RccEnvironment) -> Seq<Seq<char>> {
    seq![
        "task"@,
        "script"@,
        "--no-build"@,
        "--robot"@,
        environment.robot_yaml_path@,
        "--controller"@,
        environment.controller@,
        "--space"@,
        environment.space@,
        "--"@,
    ]
}

impl Environment {
    /// Whether the environment is managed by the package manager.
    pub open spec fn is_rcc(&self) -> bool {
        self is Rcc
    }

    /// The command that is launched in order to run `command` in this
    /// environment.
    pub open spec fn wrapped(&self, command: CommandSpecView) -> CommandSpecView {
        match self {
            Environment::System => command,
            Environment::Rcc(environment) => CommandSpecView {
                executable: environment.binary_path@,
                arguments: rcc_prefix(*environment) + seq![command.executable]
                    + command.arguments,
                envs: command.envs,
            },
        }
    }

    /// Meaning of an exit code in this environment.
    pub open spec fn result_code(&self, exit_code: i32) -> ResultCode {
        match self {
            Environment::System => system_result_code(exit_code),
            Environment::Rcc(_) => rcc_result_code(exit_code),
        }
    }

    /// Whether the environment is managed by the package manager.
    pub fn uses_rcc(&self) -> (rcc: bool)
        ensures
            rcc == self.is_rcc(),
    {
        match self {
            Environment::System => false,
            Environment::Rcc(_) => true,
        }
    }

    /// Wraps a command so that it runs in this environment. The system
    /// environment launches the command as it is.
    pub fn wrap(&self, command_spec: CommandSpec) -> (wrapped: CommandSpec)
        ensures
            wrapped@ == self.wrapped(command_spec@),
    {
        match self {
            Environment::System => command_spec,
            Environment::Rcc(environment) => {
                let mut wrapped = CommandSpec {
                    executable: environment.binary_path.clone(),
                    arguments: Vec::new(),
                    envs: command_spec.envs,
                };
                assert(texts(wrapped.arguments@) =~= Seq::empty());
                wrapped.add_argument("task").add_argument("script").add_argument("--no-build");
                wrapped.add_argument("--robot").add_argument(environment.robot_yaml_path.as_str());
                wrapped.add_argument("--controller").add_argument(environment.controller.as_str());
                wrapped.add_argument("--space").add_argument(environment.space.as_str());
                wrapped.add_argument("--").add_argument(command_spec.executable.as_str());
                let ghost prefix = wrapped.arguments@;
                let mut arguments = command_spec.arguments;
                wrapped.arguments.append(&mut arguments);
                assert(wrapped@.arguments =~= rcc_prefix(*environment) + seq![
                    command_spec.executable@,
                ] + command_spec@.arguments) by {
                    assert(texts(prefix) =~= rcc_prefix(*environment) + seq![
                        command_spec.executable@,
                    ]);
                    assert(texts(wrapped.arguments@) =~= texts(prefix) + texts(
                        command_spec.arguments@,
                    ));
                }
                wrapped
            },
        }
    }

    /// Classifies the exit code of a test run.
    pub fn create_result_code(&self, exit_code: i32) -> (result_code: ResultCode)
        ensures
            result_code == self.result_code(exit_code),
    {
        match self {
            Environment::System => {
                if exit_code == 0 {
                    ResultCode::AllTestsPassed
                } else {
                    ResultCode::RobotCommandFailed
                }
            },
            Environment::Rcc(_) => {
                if exit_code == 0 {
                    ResultCode::AllTestsPassed
                } else if exit_code == RCC_COMMAND_FAILED {
                    ResultCode::RobotCommandFailed
                } else {
                    ResultCode::EnvironmentFailed
                }
            },
        }
    }
}

} // verus!
