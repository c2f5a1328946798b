//! The run step: executing a compiled suite under a generated harness and
//! judging what the runtime reports.
//!
//! Like the compile step, this is a state machine driven through [`run`].

use crate::config::{Config, ConfigView};
use crate::in_process::{answer_in_process, is_in_process};
use crate::layout::{file_in, file_ref, EXPECTED_OUTPUT, HARNESS, PROJECT_DESCRIPTOR};
use crate::text::{push_text, same_bytes, texts};
use crate::world::{
    answers, clone_invocation, Invocation, InvocationView, ProcessOutput, ProcessOutputView, Reply,
    ReplyView, Request, RequestView,
};
use vstd::prelude::*;
use vstd::string::StringExecFns;
use vstd::utf8::{decode_utf8, encode_utf8, valid_utf8};

verus! {

/// `std::string::FromUtf8Error`, the failure to read bytes as UTF-8 text.
#[verifier::external_type_specification]
#[verifier::external_body]
pub struct ExFromUtf8Error(std::string::FromUtf8Error);

/// The bytes that a failed conversion was attempted on, as
/// `FromUtf8Error::as_bytes` gives them.
pub uninterp spec fn undecodable_bytes(error: std::string::FromUtf8Error) -> Seq<u8>;

/// `String::from_utf8` succeeds exactly on valid UTF-8 and then holds the
/// decoded characters; a failure keeps the bytes it was given.
pub assume_specification[ String::from_utf8 ](vec: Vec<u8>) -> (decoded: Result<
    String,
    std::string::FromUtf8Error,
>)
    ensures
        decoded is Ok <==> valid_utf8(vec@),
        decoded matches Ok(text) ==> text@ == decode_utf8(vec@),
        decoded matches Err(error) ==> undecodable_bytes(error) == vec@,
;

/// Why a compiled suite did not run to a clean pass.
#[derive(Debug)]
pub enum RunError {
    /// The runtime executable could not be located.
    RuntimeNotFound(which::Error),
    /// The suite has no project descriptor.
    SuiteDoesNotExist,
    /// The runtime could not be started.
    RuntimeProcessFailed(std::io::Error),
    /// The harness could not be written into the output directory.
    WritingHarnessFailed(std::io::Error),
    /// The expected output was opened and could not be read to its end.
    CopyingExpectedOutput(std::io::Error),
    /// The runtime ran and exited with a failure.
    RuntimeReportedFailure(ProcessOutput),
    /// The suite's expected output could not be opened.
    CannotFindExpectedOutput,
    /// The suite's expected output is not UTF-8 text.
    ExpectedOutputNotUtf8(std::string::FromUtf8Error),
    /// The runtime exited successfully but printed something it must not.
    UnexpectedOutputProduced(ProcessOutput),
}

/// Mathematical model of a [`RunError`]. A decoding failure is modelled by
/// the bytes that could not be decoded.
pub enum RunErrorView {
    RuntimeNotFound(which::Error),
    SuiteDoesNotExist,
    RuntimeProcessFailed(std::io::Error),
    WritingHarnessFailed(std::io::Error),
    CopyingExpectedOutput(std::io::Error),
    RuntimeReportedFailure(ProcessOutputView),
    CannotFindExpectedOutput,
    ExpectedOutputNotUtf8(Seq<u8>),
    UnexpectedOutputProduced(ProcessOutputView),
}

impl View for RunError {
    type V = RunErrorView;

    open spec fn view(&self) -> RunErrorView {
        match self {
            RunError::RuntimeNotFound(e) => RunErrorView::RuntimeNotFound(*e),
            RunError::SuiteDoesNotExist => RunErrorView::SuiteDoesNotExist,
            RunError::RuntimeProcessFailed(e) => RunErrorView::RuntimeProcessFailed(*e),
            RunError::WritingHarnessFailed(e) => RunErrorView::WritingHarnessFailed(*e),
            RunError::CopyingExpectedOutput(e) => RunErrorView::CopyingExpectedOutput(*e),
            RunError::RuntimeReportedFailure(o) => RunErrorView::RuntimeReportedFailure(o@),
            RunError::CannotFindExpectedOutput => RunErrorView::CannotFindExpectedOutput,
            RunError::ExpectedOutputNotUtf8(e) => RunErrorView::ExpectedOutputNotUtf8(
                undecodable_bytes(*e),
            ),
            RunError::UnexpectedOutputProduced(o) => RunErrorView::UnexpectedOutputProduced(o@),
        }
    }
}

/// How far the run step has come: each state but the first names the
/// request whose reply it waits for.
#[derive(Debug)]
pub enum RunState {
    /// Nothing has been asked yet.
    Start,
    /// Asked whether the suite has a project descriptor.
    Descriptor,
    /// Asked where the runtime is.
    Runtime,
    /// Asked for the expected output; the runtime is known.
    Expected { runtime: std::path::PathBuf },
    /// Asked to have the harness written.
    Harness { runtime: std::path::PathBuf, harness: String },
    /// Asked to have the runtime run the harness.
    Running { command: Invocation },
}

/// Mathematical model of a [`RunState`].
pub enum RunStateView {
    Start,
    Descriptor,
    Runtime,
    Expected { runtime: std::path::PathBuf },
    Harness { runtime: std::path::PathBuf, harness: Seq<char> },
    Running { command: InvocationView },
}

impl View for RunState {
    type V = RunStateView;

    open spec fn view(&self) -> RunStateView {
        match self {
            RunState::Start => RunStateView::Start,
            RunState::Descriptor => RunStateView::Descriptor,
            RunState::Runtime => RunStateView::Runtime,
            RunState::Expected { runtime } => RunStateView::Expected { runtime: *runtime },
            RunState::Harness { runtime, harness } => RunStateView::Harness {
                runtime: *runtime,
                harness: harness@,
            },
            RunState::Running { command } => RunStateView::Running { command: command@ },
        }
    }
}

/// What the run step wants next.
#[derive(Debug)]
pub enum RunStep {
    /// Carry out the request and come back with its reply and this state.
    Ask(RunState, Request),
    /// The step has ended.
    Done(Result<(), RunError>),
}

/// Mathematical model of a [`RunStep`].
pub enum RunStepView {
    Ask(RunStateView, RequestView),
    Done(Result<(), RunErrorView>),
}

/// Model of the result of a run step.
pub open spec fn run_result_view(result: Result<(), RunError>) -> Result<(), RunErrorView> {
    match result {
        Ok(()) => Ok(()),
        Err(e) => Err(e@),
    }
}

impl View for RunStep {
    type V = RunStepView;

    open spec fn view(&self) -> RunStepView {
        match self {
            RunStep::Ask(state, request) => RunStepView::Ask(state@, request@),
            RunStep::Done(result) => RunStepView::Done(run_result_view(*result)),
        }
    }
}

/// What a harness starts with, up to the expected output.
pub const HARNESS_HEAD: &'static str =
    "\nconst { Elm } = require('./elm.js');\nconst expectedOutput = JSON.parse(String.raw`";

/// What stands between the expected output and the driver.
pub const HARNESS_JOINT: &'static str = "`);\n";

/// What a harness ends with, after the driver.
pub const HARNESS_TAIL: &'static str = "\n\nmodule.exports(Elm, expectedOutput);\n";

/// The harness for an expected output and a driver: the artifact is loaded,
/// the expected output is embedded character for character in a raw
/// template literal and parsed as JSON, and the driver is called with both.
pub open spec fn harness_text(expected_output: Seq<char>, driver: Seq<char>) -> Seq<char> {
    HARNESS_HEAD@ + expected_output + HARNESS_JOINT@ + driver + HARNESS_TAIL@
}

/// Generates the harness for an expected output and a driver.
pub fn harness(expected_output: &str, driver: &str) -> (text: String)
    ensures
        text@ == harness_text(expected_output@, driver@),
{
    let mut text = String::from_str(HARNESS_HEAD);
    text.append(expected_output);
    text.append(HARNESS_JOINT);
    text.append(driver);
    text.append(HARNESS_TAIL);
    text
}

/// The expected output stands in the harness unchanged, right after the
/// harness's fixed opening: nothing in it is escaped, dropped or added.
pub proof fn harness_embeds_expected_output_verbatim(expected_output: Seq<char>, driver: Seq<char>)
    ensures
        harness_text(expected_output, driver).subrange(
            HARNESS_HEAD@.len() as int,
            (HARNESS_HEAD@.len() + expected_output.len()) as int,
        ) == expected_output,
        harness_text(expected_output, driver).len() == HARNESS_HEAD@.len() + expected_output.len()
            + HARNESS_JOINT@.len() + driver.len() + HARNESS_TAIL@.len(),
{
    assert(harness_text(expected_output, driver).subrange(
        HARNESS_HEAD@.len() as int,
        (HARNESS_HEAD@.len() + expected_output.len()) as int,
    ) =~= expected_output);
}

/// What a notice starts with, up to the build mode.
pub const NOTICE_HEAD: &'static str = "Compiled in ";

/// What a notice ends with, after the build mode.
pub const NOTICE_TAIL: &'static str =
    " mode. Follow the advice at https://elm-lang.org/0.19.1/optimize for better performance and smaller assets.\n";

/// The build mode of a development build.
pub const MODE_DEV: &'static str = "DEV";

/// The build mode of a debugging build.
pub const MODE_DEBUG: &'static str = "DEBUG";

/// The notice that an artifact built in `mode` prints when it starts.
pub open spec fn optimization_notice(mode: Seq<char>) -> Seq<char> {
    NOTICE_HEAD@ + mode + NOTICE_TAIL@
}

/// Whether a diagnostic stream holds nothing but one of the two notices
/// that are harmless: that of a development build or that of a debugging
/// build, byte for byte.
pub open spec fn is_benign_notice(stderr: Seq<u8>) -> bool {
    stderr == encode_utf8(optimization_notice(MODE_DEV@)) || stderr == encode_utf8(
        optimization_notice(MODE_DEBUG@),
    )
}

/// Whether `stderr` is exactly the notice of a build in `mode`.
fn is_notice(stderr: &Vec<u8>, mode: &str) -> (same: bool)
    ensures
        same == (stderr@ == encode_utf8(optimization_notice(mode@))),
{
    let mut notice = String::from_str(NOTICE_HEAD);
    notice.append(mode);
    notice.append(NOTICE_TAIL);
    same_bytes(stderr.as_slice(), notice.as_str().as_bytes())
}

/// The verdict on a runtime that ran to its end: it must exit with code
/// zero, print nothing on its standard output, and print on its diagnostic
/// stream nothing or exactly a benign notice.
pub open spec fn run_verdict(output: ProcessOutputView) -> Result<(), RunErrorView> {
    if !output.success() {
        Err(RunErrorView::RuntimeReportedFailure(output))
    } else if output.stdout.len() > 0 {
        Err(RunErrorView::UnexpectedOutputProduced(output))
    } else if output.stderr.len() > 0 && !is_benign_notice(output.stderr) {
        Err(RunErrorView::UnexpectedOutputProduced(output))
    } else {
        Ok(())
    }
}

/// Judges the output of a runtime that ran to its end.
pub fn judge_runtime(output: ProcessOutput) -> (verdict: Result<(), RunError>)
    ensures
        run_result_view(verdict) == run_verdict(output@),
{
    if !output.success() {
        return Err(RunError::RuntimeReportedFailure(output));
    }
    if output.stdout.len() > 0 {
        return Err(RunError::UnexpectedOutputProduced(output));
    }
    if output.stderr.len() > 0 && !is_notice(&output.stderr, MODE_DEV) && !is_notice(
        &output.stderr,
        MODE_DEBUG,
    ) {
        return Err(RunError::UnexpectedOutputProduced(output));
    }
    Ok(())
}

/// The runtime's command line: strict propagation of unhandled failures,
/// then the harness inside the output directory.
pub open spec fn run_command(out_dir: Seq<char>, runtime: std::path::PathBuf) -> InvocationView {
    InvocationView {
        program: runtime,
        current_dir: None,
        args: seq!["--unhandled-rejections=strict"@],
        target: file_in(out_dir, HARNESS@),
        forwarded_env: Seq::empty(),
    }
}

/// The request that a state waits on. The first state waits on none; what
/// it is given here is the request that opens the step.
pub open spec fn run_pending(
    suite: Seq<char>,
    out_dir: Seq<char>,
    config: ConfigView,
    state: RunStateView,
) -> RequestView {
    match state {
        RunStateView::Start => RequestView::Exists { file: file_in(suite, PROJECT_DESCRIPTOR@) },
        RunStateView::Descriptor => RequestView::Exists {
            file: file_in(suite, PROJECT_DESCRIPTOR@),
        },
        RunStateView::Runtime => RequestView::Locate { program: config.node },
        RunStateView::Expected { .. } => RequestView::ReadBytes {
            file: file_in(suite, EXPECTED_OUTPUT@),
        },
        RunStateView::Harness { harness, .. } => RequestView::WriteText {
            file: file_in(out_dir, HARNESS@),
            contents: harness,
        },
        RunStateView::Running { command } => RequestView::Spawn { command },
    }
}

/// Moving to `state` and asking for what it waits on.
pub open spec fn run_ask(
    suite: Seq<char>,
    out_dir: Seq<char>,
    config: ConfigView,
    state: RunStateView,
) -> RunStepView {
    RunStepView::Ask(state, run_pending(suite, out_dir, config, state))
}

/// The run step's transition function.
///
/// In order: a suite without a project descriptor ends the step; the
/// runtime is located; the expected output is read and decoded as UTF-8;
/// the harness built from it and from `driver` is written into the output
/// directory; the runtime runs the harness and its output is judged by
/// [`run_verdict`].
pub open spec fn run_next(
    suite: Seq<char>,
    out_dir: Seq<char>,
    config: ConfigView,
    driver: Seq<char>,
    state: RunStateView,
    reply: ReplyView,
) -> RunStepView {
    let again = run_ask(suite, out_dir, config, state);
    match state {
        RunStateView::Start => run_ask(suite, out_dir, config, RunStateView::Descriptor),
        RunStateView::Descriptor => match reply {
            ReplyView::Exists(true) => run_ask(suite, out_dir, config, RunStateView::Runtime),
            ReplyView::Exists(false) => RunStepView::Done(Err(RunErrorView::SuiteDoesNotExist)),
            _ => again,
        },
        RunStateView::Runtime => match reply {
            ReplyView::Located(runtime) => run_ask(
                suite,
                out_dir,
                config,
                RunStateView::Expected { runtime },
            ),
            ReplyView::NotLocated(e) => RunStepView::Done(Err(RunErrorView::RuntimeNotFound(e))),
            _ => again,
        },
        RunStateView::Expected { runtime } => match reply {
            ReplyView::Bytes(bytes) => if valid_utf8(bytes) {
                run_ask(
                    suite,
                    out_dir,
                    config,
                    RunStateView::Harness {
                        runtime,
                        harness: harness_text(decode_utf8(bytes), driver),
                    },
                )
            } else {
                RunStepView::Done(Err(RunErrorView::ExpectedOutputNotUtf8(bytes)))
            },
            ReplyView::Unopened(_) => RunStepView::Done(
                Err(RunErrorView::CannotFindExpectedOutput),
            ),
            ReplyView::Failed(e) => RunStepView::Done(
                Err(RunErrorView::CopyingExpectedOutput(e)),
            ),
            _ => again,
        },
        RunStateView::Harness { runtime, harness } => match reply {
            ReplyView::Done => run_ask(
                suite,
                out_dir,
                config,
                RunStateView::Running { command: run_command(out_dir, runtime) },
            ),
            ReplyView::Failed(e) => RunStepView::Done(Err(RunErrorView::WritingHarnessFailed(e))),
            _ => again,
        },
        RunStateView::Running { command } => match reply {
            ReplyView::Exited(output) => RunStepView::Done(run_verdict(output)),
            ReplyView::Failed(e) => RunStepView::Done(Err(RunErrorView::RuntimeProcessFailed(e))),
            _ => again,
        },
    }
}

/// Builds the runtime's command line.
fn build_run_command(out_dir: &str, runtime: std::path::PathBuf) -> (command: Invocation)
    ensures
        command@ == run_command(out_dir@, runtime),
{
    let mut args: Vec<String> = Vec::new();
    push_text(&mut args, String::from_str("--unhandled-rejections=strict"));
    let forwarded_env: Vec<String> = Vec::new();
    assert(texts(forwarded_env@) =~= Seq::<Seq<char>>::empty());
    Invocation {
        program: runtime,
        current_dir: None,
        args,
        target: file_ref(out_dir, HARNESS),
        forwarded_env,
    }
}

/// Moves to `state` and asks for what it waits on.
fn ask(suite: &str, out_dir: &str, config: &Config, state: RunState) -> (step: RunStep)
    ensures
        step@ == run_ask(suite@, out_dir@, config@, state@),
{
    let request = match &state {
        RunState::Start => Request::Exists { file: file_ref(suite, PROJECT_DESCRIPTOR) },
        RunState::Descriptor => Request::Exists { file: file_ref(suite, PROJECT_DESCRIPTOR) },
        RunState::Runtime => Request::Locate { program: config.node.clone() },
        RunState::Expected { .. } => Request::ReadBytes { file: file_ref(suite, EXPECTED_OUTPUT) },
        RunState::Harness { harness, .. } => Request::WriteText {
            file: file_ref(out_dir, HARNESS),
            contents: harness.clone(),
        },
        RunState::Running { command } => Request::Spawn { command: clone_invocation(command) },
    };
    RunStep::Ask(state, request)
}

/// One transition of the run step for the suite at `suite`, whose artifact
/// is in `out_dir`, with the toolchain of `config` and the harness driver
/// `driver`: what the step does in `state` when it is given `reply`,
/// whatever the reply is.
pub fn run_step(
    suite: &str,
    out_dir: &str,
    config: &Config,
    driver: &str,
    state: RunState,
    reply: Reply,
) -> (step: RunStep)
    ensures
        step@ == run_next(suite@, out_dir@, config@, driver@, state@, reply@),
{
    match state {
        RunState::Start => ask(suite, out_dir, config, RunState::Descriptor),
        RunState::Descriptor => match reply {
            Reply::Exists(true) => ask(suite, out_dir, config, RunState::Runtime),
            Reply::Exists(false) => RunStep::Done(Err(RunError::SuiteDoesNotExist)),
            _ => ask(suite, out_dir, config, RunState::Descriptor),
        },
        RunState::Runtime => match reply {
            Reply::Located(runtime) => ask(suite, out_dir, config, RunState::Expected { runtime }),
            Reply::NotLocated(e) => RunStep::Done(Err(RunError::RuntimeNotFound(e))),
            _ => ask(suite, out_dir, config, RunState::Runtime),
        },
        RunState::Expected { runtime } => match reply {
            Reply::Bytes(bytes) => match String::from_utf8(bytes) {
                Ok(expected_output) => {
                    let harness = harness(expected_output.as_str(), driver);
                    ask(suite, out_dir, config, RunState::Harness { runtime, harness })
                },
                Err(e) => RunStep::Done(Err(RunError::ExpectedOutputNotUtf8(e))),
            },
            Reply::Unopened(_) => RunStep::Done(Err(RunError::CannotFindExpectedOutput)),
            Reply::Failed(e) => RunStep::Done(Err(RunError::CopyingExpectedOutput(e))),
            _ => ask(suite, out_dir, config, RunState::Expected { runtime }),
        },
        RunState::Harness { runtime, harness } => match reply {
            Reply::Done => {
                let command = build_run_command(out_dir, runtime);
                ask(suite, out_dir, config, RunState::Running { command })
            },
            Reply::Failed(e) => RunStep::Done(Err(RunError::WritingHarnessFailed(e))),
            _ => ask(suite, out_dir, config, RunState::Harness { runtime, harness }),
        },
        RunState::Running { command } => match reply {
            Reply::Exited(output) => RunStep::Done(judge_runtime(output)),
            Reply::Failed(e) => RunStep::Done(Err(RunError::RuntimeProcessFailed(e))),
            _ => ask(suite, out_dir, config, RunState::Running { command }),
        },
    }
}

/// How many answers the run step can still need before it ends.
pub open spec fn run_remaining(state: RunStateView) -> nat {
    match state {
        RunStateView::Start => 6,
        RunStateView::Descriptor => 5,
        RunStateView::Runtime => 4,
        RunStateView::Expected { .. } => 3,
        RunStateView::Harness { .. } => 2,
        RunStateView::Running { .. } => 1,
    }
}

/// The run step neither stalls nor loses its place, in the sense of
/// [`crate::compile::compile_step_advances`].
pub proof fn run_step_advances(
    suite: Seq<char>,
    out_dir: Seq<char>,
    config: ConfigView,
    driver: Seq<char>,
    state: RunStateView,
    reply: ReplyView,
)
    ensures
        !(state is Start) && !answers(run_pending(suite, out_dir, config, state), reply)
            ==> run_next(suite, out_dir, config, driver, state, reply) == run_ask(
            suite,
            out_dir,
            config,
            state,
        ),
        state is Start || answers(run_pending(suite, out_dir, config, state), reply) ==> (run_next(
            suite,
            out_dir,
            config,
            driver,
            state,
            reply,
        ) matches RunStepView::Ask(next, _) ==> run_remaining(next) < run_remaining(state)),
        run_next(suite, out_dir, config, driver, state, reply) matches RunStepView::Ask(
            next,
            request,
        ) ==> request == run_pending(suite, out_dir, config, next) && !(next is Start),
{
}

/// Where the run step stands after it stood at `step` and was then given
/// `replies` one by one. Once the step has ended it stays ended.
pub open spec fn run_fed(
    suite: Seq<char>,
    out_dir: Seq<char>,
    config: ConfigView,
    driver: Seq<char>,
    step: RunStepView,
    replies: Seq<ReplyView>,
) -> RunStepView
    decreases replies.len(),
{
    if replies.len() == 0 {
        step
    } else {
        match run_fed(suite, out_dir, config, driver, step, replies.drop_last()) {
            RunStepView::Ask(state, _) => run_next(
                suite,
                out_dir,
                config,
                driver,
                state,
                replies.last(),
            ),
            ended => ended,
        }
    }
}

/// Whether the run step asks for something that the library carries out
/// itself.
pub open spec fn run_asks_in_process(step: RunStepView) -> bool {
    step matches RunStepView::Ask(_, request) && is_in_process(request)
}

/// Whether `end` is where the run step comes to rest from `step` when the
/// library answers what it can: `answered` are replies that the library
/// gave, each to a request that it carries out itself and each an answer to
/// that request, and `end` asks for nothing of that kind.
pub open spec fn run_settles(
    suite: Seq<char>,
    out_dir: Seq<char>,
    config: ConfigView,
    driver: Seq<char>,
    step: RunStepView,
    answered: Seq<ReplyView>,
    end: RunStepView,
) -> bool {
    &&& end == run_fed(suite, out_dir, config, driver, step, answered)
    &&& !run_asks_in_process(end)
    &&& forall|k: int|
        0 <= k < answered.len() ==> (#[trigger] run_fed(
            suite,
            out_dir,
            config,
            driver,
            step,
            answered.take(k),
        ) matches RunStepView::Ask(_, request) && is_in_process(request) && answers(
            request,
            answered[k],
        ))
}

/// The run step for the suite at `suite`, whose artifact is in `out_dir`,
/// with the toolchain of `config` and the harness driver `driver`.
///
/// Start with [`RunState::Start`] and any reply. While the result is
/// [`RunStep::Ask`], carry out the request and call again with the state
/// that came with it. [`RunStep::Done`] carries the step's result.
///
/// This is [`run_step`], followed by more of it for as long as the step
/// asks for something that the library carries out itself: the runtime is
/// located here. What is handed back is the first move that needs the
/// caller.
pub fn run(
    suite: &str,
    out_dir: &str,
    config: &Config,
    driver: &str,
    state: RunState,
    reply: Reply,
) -> (step: RunStep)
    ensures
        exists|answered: Seq<ReplyView>|
            run_settles(
                suite@,
                out_dir@,
                config@,
                driver@,
                run_next(suite@, out_dir@, config@, driver@, state@, reply@),
                answered,
                step@,
            ),
        !run_asks_in_process(run_next(suite@, out_dir@, config@, driver@, state@, reply@))
            ==> step@ == run_next(suite@, out_dir@, config@, driver@, state@, reply@),
{
    let ghost first = run_next(suite@, out_dir@, config@, driver@, state@, reply@);
    let ghost mut answered: Seq<ReplyView> = Seq::empty();
    let mut step = run_step(suite, out_dir, config, driver, state, reply);
    proof {
        run_step_advances(suite@, out_dir@, config@, driver@, state@, reply@);
    }
    loop
        invariant
            first == run_next(suite@, out_dir@, config@, driver@, state@, reply@),
            step@ == run_fed(suite@, out_dir@, config@, driver@, first, answered),
            answered.len() > 0 ==> run_asks_in_process(first),
            step@ matches RunStepView::Ask(next, request) ==> request == run_pending(
                suite@,
                out_dir@,
                config@,
                next,
            ) && !(next is Start),
            forall|k: int|
                0 <= k < answered.len() ==> (#[trigger] run_fed(
                    suite@,
                    out_dir@,
                    config@,
                    driver@,
                    first,
                    answered.take(k),
                ) matches RunStepView::Ask(_, request) && is_in_process(request) && answers(
                    request,
                    answered[k],
                )),
        ensures
            run_settles(suite@, out_dir@, config@, driver@, first, answered, step@),
            !run_asks_in_process(first) ==> step@ == first,
        decreases
            match step@ {
                RunStepView::Ask(next, _) => run_remaining(next),
                RunStepView::Done(_) => 0,
            },
    {
        let (next, given) = match step {
            RunStep::Ask(next, request) => match answer_in_process(&request) {
                Some(given) => (next, given),
                None => {
                    step = RunStep::Ask(next, request);
                    break ;
                },
            },
            RunStep::Done(result) => {
                step = RunStep::Done(result);
                break ;
            },
        };
        proof {
            let longer = answered.push(given@);
            run_step_advances(suite@, out_dir@, config@, driver@, next@, given@);
            assert(longer.take(answered.len() as int) == answered);
            assert forall|k: int| 0 <= k < answered.len() implies longer.take(k)
                == answered.take(k) by {}
            answered = longer;
        }
        step = run_step(suite, out_dir, config, driver, next, given);
    }
    step
}

} // verus!
