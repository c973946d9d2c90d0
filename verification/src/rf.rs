//! Invocation of the test runner and of the tool that merges its outputs.

use crate::command_spec::{texts, CommandSpec, CommandSpecView};
use crate::internal_config::Robot;
use crate::paths::{join, joined_path};
use crate::text::{decimal, decimal_text};
use vstd::prelude::*;
use vstd::string::StringExecFns;

verus! {

/// One try of a suite.
#[derive(Debug, Clone, PartialEq, Eq)]
pub struct Attempt {
    pub index: usize,
    pub command_spec: CommandSpec,
    pub output_xml_file: String,
}

/// Mathematical content of an [`Attempt`].
pub ghost struct AttemptView {
    pub index: nat,
    pub command_spec: CommandSpecView,
    pub output_xml_file: Seq<char>,
}

impl View for Attempt {
    type V = AttemptView;

    open spec fn view(&self) -> AttemptView {
        AttemptView {
            index: self.index as nat,
            command_spec: self.command_spec@,
            output_xml_file: self.output_xml_file@,
        }
    }
}

/// The file an attempt writes its output to.
pub open spec fn output_xml_file(output_directory: Seq<char>, index: nat) -> Seq<char> {
    joined_path(output_directory, decimal(index) + ".xml"@)
}

/// The file an attempt writes its log to.
pub open spec fn log_file(output_directory: Seq<char>, index: nat) -> Seq<char> {
    joined_path(output_directory, decimal(index) + ".html"@)
}

/// The attempt with the given index: the test runner is called with the
/// configured arguments, told where to write output and log, and given
/// the target to run.
pub open spec fn attempt_of(robot: Robot, output_directory: Seq<char>, index: nat) -> AttemptView {
    AttemptView {
        index: index,
        command_spec: CommandSpecView {
            executable: "python"@,
            arguments: seq!["-m"@, "robot"@] + texts(robot.command_line_args@) + seq![
                "--outputdir"@,
                output_directory,
                "--output"@,
                output_xml_file(output_directory, index),
                "--log"@,
                log_file(output_directory, index),
                "--report"@,
                "NONE"@,
                robot.robot_target@,
            ],
            envs: Seq::empty(),
        },
        output_xml_file: output_xml_file(output_directory, index),
    }
}

impl Robot {
    /// Builds the attempt with the given index.
    pub fn attempt(&self, output_directory: &str, index: usize) -> (attempt: Attempt)
        ensures
            attempt@ == attempt_of(*self, output_directory@, index as nat),
    {
        let number = decimal_text(index);
        let output_xml_file = join(output_directory, number.clone().concat(".xml").as_str());
        let log_file = join(output_directory, number.concat(".html").as_str());
        let mut command_spec = CommandSpec::new("python");
        command_spec.add_argument("-m").add_argument("robot");
        assert(command_spec@.arguments =~= seq!["-m"@, "robot"@] + texts(
            self.command_line_args@,
        ).take(0));
        let mut i: usize = 0;
        while i < self.command_line_args.len()
            invariant
                i <= self.command_line_args.len(),
                command_spec@ == (CommandSpecView {
                    executable: "python"@,
                    arguments: seq!["-m"@, "robot"@] + texts(self.command_line_args@).take(
                        i as int,
                    ),
                    envs: Seq::empty(),
                }),
            decreases self.command_line_args.len() - i,
        {
            command_spec.add_argument(self.command_line_args[i].as_str());
            assert(texts(self.command_line_args@).take(i + 1) =~= texts(
                self.command_line_args@,
            ).take(i as int).push(self.command_line_args@[i as int]@));
            assert(command_spec@.arguments =~= seq!["-m"@, "robot"@] + texts(
                self.command_line_args@,
            ).take(i + 1));
            i += 1;
        }
        assert(texts(self.command_line_args@).take(self.command_line_args.len() as int) =~= texts(
            self.command_line_args@,
        ));
        command_spec.add_argument("--outputdir").add_argument(output_directory);
        command_spec.add_argument("--output").add_argument(output_xml_file.as_str());
        command_spec.add_argument("--log").add_argument(log_file.as_str());
        command_spec.add_argument("--report").add_argument("NONE");
        command_spec.add_argument(self.robot_target.as_str());
        assert(command_spec@.arguments =~= attempt_of(
            *self,
            output_directory@,
            index as nat,
        ).command_spec.arguments);
        Attempt { index, command_spec, output_xml_file }
    }
}

/// What the merge tool is asked to do: consolidate the outputs of the
/// attempts, oldest first, into one report.
#[derive(Debug, Clone, PartialEq, Eq)]
pub struct Rebot {
    pub input_paths: Vec<String>,
    pub path_xml: String,
    pub path_html: String,
}

/// Mathematical content of a [`Rebot`].
pub ghost struct RebotView {
    pub input_paths: Seq<Seq<char>>,
    pub path_xml: Seq<char>,
    pub path_html: Seq<char>,
}

impl View for Rebot {
    type V = RebotView;

    open spec fn view(&self) -> RebotView {
        RebotView {
            input_paths: texts(self.input_paths@),
            path_xml: self.path_xml@,
            path_html: self.path_html@,
        }
    }
}

/// The merge of the given outputs into the output directory of the run.
pub open spec fn rebot_of(output_directory: Seq<char>, input_paths: Seq<Seq<char>>) -> RebotView {
    RebotView {
        input_paths: input_paths,
        path_xml: joined_path(output_directory, "rebot.xml"@),
        path_html: joined_path(output_directory, "rebot.html"@),
    }
}

impl Rebot {
    /// Asks for the merge of the given outputs into the output directory
    /// of the run.
    pub fn new(output_directory: &str, input_paths: Vec<String>) -> (rebot: Rebot)
        ensures
            rebot@ == rebot_of(output_directory@, texts(input_paths@)),
    {
        Rebot {
            input_paths,
            path_xml: join(output_directory, "rebot.xml"),
            path_html: join(output_directory, "rebot.html"),
        }
    }
}

} // verus!
