//! Toolchain configuration and the task a run was asked to perform.

use crate::text::{optional_text, texts};
use vstd::prelude::*;
use vstd::string::StringExecFns;

verus! {

/// The external toolchain and the suites whose failure is tolerated.
#[derive(Debug, Clone)]
pub struct Config {
    /// Name or path of the compiler executable.
    pub elm_compiler: String,
    /// Name or path of the runtime executable.
    pub node: String,
    /// Extra arguments handed to every compiler invocation.
    pub args: Vec<String>,
    /// Paths of the suites that are allowed to fail.
    pub allowed_failures: Vec<String>,
}

/// Mathematical model of a [`Config`].
pub struct ConfigView {
    pub elm_compiler: Seq<char>,
    pub node: Seq<char>,
    pub args: Seq<Seq<char>>,
    pub allowed_failures: Seq<Seq<char>>,
}

impl View for Config {
    type V = ConfigView;

    open spec fn view(&self) -> ConfigView {
        ConfigView {
            elm_compiler: self.elm_compiler@,
            node: self.node@,
            args: texts(self.args@),
            allowed_failures: texts(self.allowed_failures@),
        }
    }
}

impl Default for Config {
    /// The toolchain as found on the search path, no extra arguments and no
    /// tolerated failures.
    fn default() -> (config: Config)
        ensures
            config@.elm_compiler == "elm"@,
            config@.node == "node"@,
            config@.args == Seq::<Seq<char>>::empty(),
            config@.allowed_failures == Seq::<Seq<char>>::empty(),
    {
        Config {
            elm_compiler: String::from_str("elm"),
            node: String::from_str("node"),
            args: Vec::new(),
            allowed_failures: Vec::new(),
        }
    }
}

/// What the command line asked for.
#[derive(Debug, Clone)]
pub enum CliTask {
    /// Print the configuration in force and stop.
    DumpConfig,
    /// Run one suite, optionally into a directory of the caller's choosing.
    RunSuite { suite: String, out_dir: Option<String> },
    /// Run every suite found below a directory.
    RunSuites(String),
}

/// Mathematical model of a [`CliTask`].
pub enum CliTaskView {
    DumpConfig,
    RunSuite { suite: Seq<char>, out_dir: Option<Seq<char>> },
    RunSuites(Seq<char>),
}

impl View for CliTask {
    type V = CliTaskView;

    open spec fn view(&self) -> CliTaskView {
        match self {
            CliTask::DumpConfig => CliTaskView::DumpConfig,
            CliTask::RunSuite { suite, out_dir } => CliTaskView::RunSuite {
                suite: suite@,
                out_dir: optional_text(*out_dir),
            },
            CliTask::RunSuites(dir) => CliTaskView::RunSuites(dir@),
        }
    }
}

/// The task that a command line selects. Dumping the configuration comes
/// before everything else, a directory of suites before a single suite, and
/// an output directory only goes with a single suite. A command line that
/// names none of the three selects nothing.
pub open spec fn selected_task(
    show_config: bool,
    suites: Option<Seq<char>>,
    suite: Option<Seq<char>>,
    out_dir: Option<Seq<char>>,
) -> Option<CliTaskView> {
    if show_config {
        Some(CliTaskView::DumpConfig)
    } else if let Some(dir) = suites {
        Some(CliTaskView::RunSuites(dir))
    } else if let Some(suite) = suite {
        Some(CliTaskView::RunSuite { suite, out_dir })
    } else {
        None
    }
}

/// Model of an optional task.
pub open spec fn optional_task(task: Option<CliTask>) -> Option<CliTaskView> {
    match task {
        Some(task) => Some(task@),
        None => None,
    }
}

/// Selects the task from what the command line held.
pub fn select_task(
    show_config: bool,
    suites: Option<String>,
    suite: Option<String>,
    out_dir: Option<String>,
) -> (task: Option<CliTask>)
    ensures
        optional_task(task) == selected_task(
            show_config,
            optional_text(suites),
            optional_text(suite),
            optional_text(out_dir),
        ),
{
    if show_config {
        Some(CliTask::DumpConfig)
    } else if let Some(dir) = suites {
        Some(CliTask::RunSuites(dir))
    } else if let Some(suite) = suite {
        Some(CliTask::RunSuite { suite, out_dir })
    } else {
        None
    }
}

/// Everything a run needs to know before it starts.
#[derive(Debug, Clone)]
pub struct CliInstructions {
    pub config: Config,
    /// Delete a suite's build cache before compiling it.
    pub clear_elm_stuff: bool,
    /// Stop a batch at the first failure that is not allowed.
    pub fail_fast: bool,
    pub task: CliTask,
}

} // verus!
