//! The compile step: turning a suite into a compiled artifact.
//!
//! The step is a state machine. [`compile`] is handed the state it returned
//! last together with the reply to the request it made, and either asks for
//! the next thing or reports how the step ended. A reply that does not
//! answer the pending request changes nothing: the request is made again.

use crate::config::{Config, ConfigView};
use crate::in_process::{answer_in_process, is_in_process};
use crate::layout::{
    file_in, file_ref, ARTIFACT, DEFAULT_TARGET, PROJECT_DESCRIPTOR, TARGETS_MANIFEST,
    TOOLCHAIN_HOME,
};
use crate::text::{append_texts, push_text, split_lines, split_on, texts};
use crate::world::{
    answers, clone_invocation, error_is_not_found, is_not_found, FileRef, Invocation,
    InvocationView, PathKind, ProcessOutput, ProcessOutputView, Reply, ReplyView, Request,
    RequestView,
};
use vstd::prelude::*;
use vstd::string::StringExecFns;

verus! {

/// Why a suite could not be compiled.
#[derive(Debug)]
pub enum CompileError {
    /// The compiler executable could not be located.
    CompilerNotFound(which::Error),
    /// The compiler could not be started.
    ProcessLaunchFailed(std::io::Error),
    /// The compiler ran and exited with a failure.
    CompilerReportedFailure(ProcessOutput),
    /// The compiler exited successfully but wrote to its diagnostic stream.
    UnexpectedDiagnosticOutput(ProcessOutput),
    /// The list of entry points is there and could not be opened or read.
    ReadingTargetsFailed(std::io::Error),
    /// The suite has no project descriptor.
    SuiteDoesNotExist,
    /// The output directory exists and is not a directory.
    OutDirNotADirectory,
}

/// Mathematical model of a [`CompileError`].
pub enum CompileErrorView {
    CompilerNotFound(which::Error),
    ProcessLaunchFailed(std::io::Error),
    CompilerReportedFailure(ProcessOutputView),
    UnexpectedDiagnosticOutput(ProcessOutputView),
    ReadingTargetsFailed(std::io::Error),
    SuiteDoesNotExist,
    OutDirNotADirectory,
}

impl View for CompileError {
    type V = CompileErrorView;

    open spec fn view(&self) -> CompileErrorView {
        match self {
            CompileError::CompilerNotFound(e) => CompileErrorView::CompilerNotFound(*e),
            CompileError::ProcessLaunchFailed(e) => CompileErrorView::ProcessLaunchFailed(*e),
            CompileError::CompilerReportedFailure(o) => CompileErrorView::CompilerReportedFailure(
                o@,
            ),
            CompileError::UnexpectedDiagnosticOutput(o) => {
                CompileErrorView::UnexpectedDiagnosticOutput(o@)
            },
            CompileError::ReadingTargetsFailed(e) => CompileErrorView::ReadingTargetsFailed(*e),
            CompileError::SuiteDoesNotExist => CompileErrorView::SuiteDoesNotExist,
            CompileError::OutDirNotADirectory => CompileErrorView::OutDirNotADirectory,
        }
    }
}

/// How far the compile step has come: each state but the first names the
/// request whose reply it waits for.
#[derive(Debug)]
pub enum CompileState {
    /// Nothing has been asked yet.
    Start,
    /// Asked what the output directory is.
    OutDirKind,
    /// Asked to have the output directory created.
    OutDirCreated,
    /// Asked whether the suite has a project descriptor.
    Descriptor,
    /// Asked for the list of entry points.
    Targets,
    /// Asked where the compiler is; the entry points are known.
    Compiler { roots: Vec<String> },
    /// Asked for the absolute output directory; the compiler is known.
    CanonicalOutDir { roots: Vec<String>, compiler: std::path::PathBuf },
    /// Asked to have the compiler run.
    Compiling { command: Invocation },
}

/// Mathematical model of a [`CompileState`].
pub enum CompileStateView {
    Start,
    OutDirKind,
    OutDirCreated,
    Descriptor,
    Targets,
    Compiler { roots: Seq<Seq<char>> },
    CanonicalOutDir { roots: Seq<Seq<char>>, compiler: std::path::PathBuf },
    Compiling { command: InvocationView },
}

impl View for CompileState {
    type V = CompileStateView;

    open spec fn view(&self) -> CompileStateView {
        match self {
            CompileState::Start => CompileStateView::Start,
            CompileState::OutDirKind => CompileStateView::OutDirKind,
            CompileState::OutDirCreated => CompileStateView::OutDirCreated,
            CompileState::Descriptor => CompileStateView::Descriptor,
            CompileState::Targets => CompileStateView::Targets,
            CompileState::Compiler { roots } => CompileStateView::Compiler {
                roots: texts(roots@),
            },
            CompileState::CanonicalOutDir { roots, compiler } => {
                CompileStateView::CanonicalOutDir { roots: texts(roots@), compiler: *compiler }
            },
            CompileState::Compiling { command } => CompileStateView::Compiling {
                command: command@,
            },
        }
    }
}

/// What the compile step wants next.
#[derive(Debug)]
pub enum CompileStep {
    /// Carry out the request and come back with its reply and this state.
    Ask(CompileState, Request),
    /// The step has ended.
    Done(Result<(), CompileError>),
}

/// Mathematical model of a [`CompileStep`].
pub enum CompileStepView {
    Ask(CompileStateView, RequestView),
    Done(Result<(), CompileErrorView>),
}

/// Model of the result of a compile step.
pub open spec fn compile_result_view(result: Result<(), CompileError>) -> Result<
    (),
    CompileErrorView,
> {
    match result {
        Ok(()) => Ok(()),
        Err(e) => Err(e@),
    }
}

impl View for CompileStep {
    type V = CompileStepView;

    open spec fn view(&self) -> CompileStepView {
        match self {
            CompileStep::Ask(state, request) => CompileStepView::Ask(state@, request@),
            CompileStep::Done(result) => CompileStepView::Done(compile_result_view(*result)),
        }
    }
}

/// The verdict on a compiler that ran to its end: it must exit with code
/// zero, and then it must have written nothing to its diagnostic stream.
pub open spec fn compile_verdict(output: ProcessOutputView) -> Result<(), CompileErrorView> {
    if !output.success() {
        Err(CompileErrorView::CompilerReportedFailure(output))
    } else if output.stderr.len() > 0 {
        Err(CompileErrorView::UnexpectedDiagnosticOutput(output))
    } else {
        Ok(())
    }
}

/// The compiler's command line: `make`, the entry points, the configured
/// extra arguments, `--output` and the artifact inside the absolute output
/// directory. It runs in the suite's directory and is handed the
/// toolchain's home where that is set.
pub open spec fn compile_command(
    suite: Seq<char>,
    config: ConfigView,
    roots: Seq<Seq<char>>,
    compiler: std::path::PathBuf,
    canonical_out_dir: Seq<char>,
) -> InvocationView {
    InvocationView {
        program: compiler,
        current_dir: Some(suite),
        args: seq!["make"@] + roots + config.args + seq!["--output"@],
        target: file_in(canonical_out_dir, ARTIFACT@),
        forwarded_env: seq![TOOLCHAIN_HOME@],
    }
}

/// The request that a state waits on. The first state waits on none; what
/// it is given here is the request that opens the step.
pub open spec fn compile_pending(
    suite: Seq<char>,
    out_dir: Seq<char>,
    config: ConfigView,
    state: CompileStateView,
) -> RequestView {
    match state {
        CompileStateView::Start => RequestView::Stat { path: out_dir },
        CompileStateView::OutDirKind => RequestView::Stat { path: out_dir },
        CompileStateView::OutDirCreated => RequestView::CreateDir { path: out_dir },
        CompileStateView::Descriptor => RequestView::Exists {
            file: file_in(suite, PROJECT_DESCRIPTOR@),
        },
        CompileStateView::Targets => RequestView::ReadText {
            file: file_in(suite, TARGETS_MANIFEST@),
        },
        CompileStateView::Compiler { .. } => RequestView::Locate { program: config.elm_compiler },
        CompileStateView::CanonicalOutDir { .. } => RequestView::Canonicalize { path: out_dir },
        CompileStateView::Compiling { command } => RequestView::Spawn { command },
    }
}

/// Moving to `state` and asking for what it waits on.
pub open spec fn compile_ask(
    suite: Seq<char>,
    out_dir: Seq<char>,
    config: ConfigView,
    state: CompileStateView,
) -> CompileStepView {
    CompileStepView::Ask(state, compile_pending(suite, out_dir, config, state))
}

/// The compile step's transition function.
///
/// In order: a missing output directory is created (whether or not that
/// works) and one that is not a directory ends the step; a suite without a
/// project descriptor ends the step; the entry points are the lines of the
/// manifest, or the default where there is no manifest, and a manifest that
/// is there and cannot be opened or read ends the step; the compiler is
/// located; the output directory is made absolute; the compiler runs and
/// its output is judged by [`compile_verdict`].
pub open spec fn compile_next(
    suite: Seq<char>,
    out_dir: Seq<char>,
    config: ConfigView,
    state: CompileStateView,
    reply: ReplyView,
) -> CompileStepView {
    let again = compile_ask(suite, out_dir, config, state);
    match state {
        CompileStateView::Start => compile_ask(
            suite,
            out_dir,
            config,
            CompileStateView::OutDirKind,
        ),
        CompileStateView::OutDirKind => match reply {
            ReplyView::Kind(PathKind::Missing) => compile_ask(
                suite,
                out_dir,
                config,
                CompileStateView::OutDirCreated,
            ),
            ReplyView::Kind(PathKind::Directory) => compile_ask(
                suite,
                out_dir,
                config,
                CompileStateView::Descriptor,
            ),
            ReplyView::Kind(PathKind::Other) => CompileStepView::Done(
                Err(CompileErrorView::OutDirNotADirectory),
            ),
            _ => again,
        },
        CompileStateView::OutDirCreated => match reply {
            ReplyView::Done | ReplyView::Failed(_) => compile_ask(
                suite,
                out_dir,
                config,
                CompileStateView::Descriptor,
            ),
            _ => again,
        },
        CompileStateView::Descriptor => match reply {
            ReplyView::Exists(true) => compile_ask(
                suite,
                out_dir,
                config,
                CompileStateView::Targets,
            ),
            ReplyView::Exists(false) => CompileStepView::Done(
                Err(CompileErrorView::SuiteDoesNotExist),
            ),
            _ => again,
        },
        CompileStateView::Targets => match reply {
            ReplyView::Text(listing) => compile_ask(
                suite,
                out_dir,
                config,
                CompileStateView::Compiler { roots: split_on(listing, '\n') },
            ),
            ReplyView::Unopened(e) => if is_not_found(e) {
                compile_ask(
                    suite,
                    out_dir,
                    config,
                    CompileStateView::Compiler { roots: seq![DEFAULT_TARGET@] },
                )
            } else {
                CompileStepView::Done(Err(CompileErrorView::ReadingTargetsFailed(e)))
            },
            ReplyView::Failed(e) => CompileStepView::Done(
                Err(CompileErrorView::ReadingTargetsFailed(e)),
            ),
            _ => again,
        },
        CompileStateView::Compiler { roots } => match reply {
            ReplyView::Located(compiler) => compile_ask(
                suite,
                out_dir,
                config,
                CompileStateView::CanonicalOutDir { roots, compiler },
            ),
            ReplyView::NotLocated(e) => CompileStepView::Done(
                Err(CompileErrorView::CompilerNotFound(e)),
            ),
            _ => again,
        },
        CompileStateView::CanonicalOutDir { roots, compiler } => match reply {
            ReplyView::Path(canonical) => compile_ask(
                suite,
                out_dir,
                config,
                CompileStateView::Compiling {
                    command: compile_command(suite, config, roots, compiler, canonical),
                },
            ),
            ReplyView::Failed(e) => CompileStepView::Done(
                Err(CompileErrorView::ProcessLaunchFailed(e)),
            ),
            _ => again,
        },
        CompileStateView::Compiling { command } => match reply {
            ReplyView::Exited(output) => CompileStepView::Done(compile_verdict(output)),
            ReplyView::Failed(e) => CompileStepView::Done(
                Err(CompileErrorView::ProcessLaunchFailed(e)),
            ),
            _ => again,
        },
    }
}

/// Judges the output of a compiler that ran to its end.
pub fn judge_compiler(output: ProcessOutput) -> (verdict: Result<(), CompileError>)
    ensures
        compile_result_view(verdict) == compile_verdict(output@),
{
    if !output.success() {
        Err(CompileError::CompilerReportedFailure(output))
    } else if output.stderr.len() > 0 {
        Err(CompileError::UnexpectedDiagnosticOutput(output))
    } else {
        Ok(())
    }
}

/// Builds the compiler's command line.
fn build_compile_command(
    suite: &str,
    config: &Config,
    roots: Vec<String>,
    compiler: std::path::PathBuf,
    canonical_out_dir: String,
) -> (command: Invocation)
    ensures
        command@ == compile_command(suite@, config@, texts(roots@), compiler, canonical_out_dir@),
{
    let mut args: Vec<String> = Vec::new();
    push_text(&mut args, String::from_str("make"));
    append_texts(&mut args, &roots);
    append_texts(&mut args, &config.args);
    push_text(&mut args, String::from_str("--output"));
    let mut forwarded_env: Vec<String> = Vec::new();
    push_text(&mut forwarded_env, String::from_str(TOOLCHAIN_HOME));
    proof {
        assert(texts(args@) =~= seq!["make"@] + texts(roots@) + config@.args + seq!["--output"@]);
        assert(texts(forwarded_env@) =~= seq![TOOLCHAIN_HOME@]);
    }
    Invocation {
        program: compiler,
        current_dir: Some(String::from_str(suite)),
        args,
        target: FileRef { dir: canonical_out_dir, name: String::from_str(ARTIFACT) },
        forwarded_env,
    }
}

/// Moves to `state` and asks for what it waits on.
fn ask(suite: &str, out_dir: &str, config: &Config, state: CompileState) -> (step: CompileStep)
    ensures
        step@ == compile_ask(suite@, out_dir@, config@, state@),
{
    let request = match &state {
        CompileState::Start => Request::Stat { path: String::from_str(out_dir) },
        CompileState::OutDirKind => Request::Stat { path: String::from_str(out_dir) },
        CompileState::OutDirCreated => Request::CreateDir { path: String::from_str(out_dir) },
        CompileState::Descriptor => Request::Exists { file: file_ref(suite, PROJECT_DESCRIPTOR) },
        CompileState::Targets => Request::ReadText { file: file_ref(suite, TARGETS_MANIFEST) },
        CompileState::Compiler { .. } => Request::Locate { program: config.elm_compiler.clone() },
        CompileState::CanonicalOutDir { .. } => Request::Canonicalize {
            path: String::from_str(out_dir),
        },
        CompileState::Compiling { command } => Request::Spawn {
            command: clone_invocation(command),
        },
    };
    CompileStep::Ask(state, request)
}

/// One transition of the compile step for the suite at `suite`, building
/// into `out_dir` with the toolchain of `config`: what the step does in
/// `state` when it is given `reply`, whatever the reply is.
pub fn compile_step(
    suite: &str,
    out_dir: &str,
    config: &Config,
    state: CompileState,
    reply: Reply,
) -> (step: CompileStep)
    ensures
        step@ == compile_next(suite@, out_dir@, config@, state@, reply@),
{
    match state {
        CompileState::Start => ask(suite, out_dir, config, CompileState::OutDirKind),
        CompileState::OutDirKind => match reply {
            Reply::Kind(PathKind::Missing) => ask(
                suite,
                out_dir,
                config,
                CompileState::OutDirCreated,
            ),
            Reply::Kind(PathKind::Directory) => ask(
                suite,
                out_dir,
                config,
                CompileState::Descriptor,
            ),
            Reply::Kind(PathKind::Other) => CompileStep::Done(
                Err(CompileError::OutDirNotADirectory),
            ),
            _ => ask(suite, out_dir, config, CompileState::OutDirKind),
        },
        CompileState::OutDirCreated => match reply {
            Reply::Done | Reply::Failed(_) => ask(suite, out_dir, config, CompileState::Descriptor),
            _ => ask(suite, out_dir, config, CompileState::OutDirCreated),
        },
        CompileState::Descriptor => match reply {
            Reply::Exists(true) => ask(suite, out_dir, config, CompileState::Targets),
            Reply::Exists(false) => CompileStep::Done(Err(CompileError::SuiteDoesNotExist)),
            _ => ask(suite, out_dir, config, CompileState::Descriptor),
        },
        CompileState::Targets => match reply {
            Reply::Text(listing) => {
                let roots = split_lines(listing.as_str());
                ask(suite, out_dir, config, CompileState::Compiler { roots })
            },
            Reply::Unopened(e) => {
                if error_is_not_found(&e) {
                    let mut roots: Vec<String> = Vec::new();
                    push_text(&mut roots, String::from_str(DEFAULT_TARGET));
                    assert(texts(roots@) =~= seq![DEFAULT_TARGET@]);
                    ask(suite, out_dir, config, CompileState::Compiler { roots })
                } else {
                    CompileStep::Done(Err(CompileError::ReadingTargetsFailed(e)))
                }
            },
            Reply::Failed(e) => CompileStep::Done(Err(CompileError::ReadingTargetsFailed(e))),
            _ => ask(suite, out_dir, config, CompileState::Targets),
        },
        CompileState::Compiler { roots } => match reply {
            Reply::Located(compiler) => ask(
                suite,
                out_dir,
                config,
                CompileState::CanonicalOutDir { roots, compiler },
            ),
            Reply::NotLocated(e) => CompileStep::Done(Err(CompileError::CompilerNotFound(e))),
            _ => ask(suite, out_dir, config, CompileState::Compiler { roots }),
        },
        CompileState::CanonicalOutDir { roots, compiler } => match reply {
            Reply::Path(canonical) => {
                let command = build_compile_command(suite, config, roots, compiler, canonical);
                ask(suite, out_dir, config, CompileState::Compiling { command })
            },
            Reply::Failed(e) => CompileStep::Done(Err(CompileError::ProcessLaunchFailed(e))),
            _ => ask(suite, out_dir, config, CompileState::CanonicalOutDir { roots, compiler }),
        },
        CompileState::Compiling { command } => match reply {
            Reply::Exited(output) => CompileStep::Done(judge_compiler(output)),
            Reply::Failed(e) => CompileStep::Done(Err(CompileError::ProcessLaunchFailed(e))),
            _ => ask(suite, out_dir, config, CompileState::Compiling { command }),
        },
    }
}

/// How many answers the compile step can still need before it ends.
pub open spec fn compile_remaining(state: CompileStateView) -> nat {
    match state {
        CompileStateView::Start => 8,
        CompileStateView::OutDirKind => 7,
        CompileStateView::OutDirCreated => 6,
        CompileStateView::Descriptor => 5,
        CompileStateView::Targets => 4,
        CompileStateView::Compiler { .. } => 3,
        CompileStateView::CanonicalOutDir { .. } => 2,
        CompileStateView::Compiling { .. } => 1,
    }
}

/// The compile step neither stalls nor loses its place. A reply that does
/// not answer the pending request leaves the state as it is and has the
/// request made again. A reply that answers it ends the step or moves it to
/// a state that is nearer to the end, and the request that comes with a
/// state is always the one that the state waits on.
pub proof fn compile_step_advances(
    suite: Seq<char>,
    out_dir: Seq<char>,
    config: ConfigView,
    state: CompileStateView,
    reply: ReplyView,
)
    ensures
        !(state is Start) && !answers(compile_pending(suite, out_dir, config, state), reply)
            ==> compile_next(suite, out_dir, config, state, reply) == compile_ask(
            suite,
            out_dir,
            config,
            state,
        ),
        state is Start || answers(compile_pending(suite, out_dir, config, state), reply)
            ==> (compile_next(suite, out_dir, config, state, reply) matches CompileStepView::Ask(
            next,
            _,
        ) ==> compile_remaining(next) < compile_remaining(state)),
        compile_next(suite, out_dir, config, state, reply) matches CompileStepView::Ask(
            next,
            request,
        ) ==> request == compile_pending(suite, out_dir, config, next) && !(next is Start),
{
}

/// Where the compile step stands after it stood at `step` and was then
/// given `replies` one by one. Once the step has ended it stays ended.
pub open spec fn compile_fed(
    suite: Seq<char>,
    out_dir: Seq<char>,
    config: ConfigView,
    step: CompileStepView,
    replies: Seq<ReplyView>,
) -> CompileStepView
    decreases replies.len(),
{
    if replies.len() == 0 {
        step
    } else {
        match compile_fed(suite, out_dir, config, step, replies.drop_last()) {
            CompileStepView::Ask(state, _) => compile_next(
                suite,
                out_dir,
                config,
                state,
                replies.last(),
            ),
            ended => ended,
        }
    }
}

/// Whether the compile step asks for something that the library carries
/// out itself.
pub open spec fn compile_asks_in_process(step: CompileStepView) -> bool {
    step matches CompileStepView::Ask(_, request) && is_in_process(request)
}

/// Whether `end` is where the compile step comes to rest from `step` when
/// the library answers what it can: `answered` are replies that the
/// library gave, each to a request that it carries out itself and each an
/// answer to that request, and `end` asks for nothing of that kind.
pub open spec fn compile_settles(
    suite: Seq<char>,
    out_dir: Seq<char>,
    config: ConfigView,
    step: CompileStepView,
    answered: Seq<ReplyView>,
    end: CompileStepView,
) -> bool {
    &&& end == compile_fed(suite, out_dir, config, step, answered)
    &&& !compile_asks_in_process(end)
    &&& forall|k: int|
        0 <= k < answered.len() ==> (#[trigger] compile_fed(
            suite,
            out_dir,
            config,
            step,
            answered.take(k),
        ) matches CompileStepView::Ask(_, request) && is_in_process(request) && answers(
            request,
            answered[k],
        ))
}

/// The compile step for the suite at `suite`, building into `out_dir` with
/// the toolchain of `config`.
///
/// Start with [`CompileState::Start`] and any reply. While the result is
/// [`CompileStep::Ask`], carry out the request and call again with the state
/// that came with it. [`CompileStep::Done`] carries the step's result.
///
/// This is [`compile_step`], followed by more of it for as long as the step
/// asks for something that the library carries out itself: the compiler is
/// located here. What is handed back is the first move that needs the
/// caller.
pub fn compile(
    suite: &str,
    out_dir: &str,
    config: &Config,
    state: CompileState,
    reply: Reply,
) -> (step: CompileStep)
    ensures
        exists|answered: Seq<ReplyView>|
            compile_settles(
                suite@,
                out_dir@,
                config@,
                compile_next(suite@, out_dir@, config@, state@, reply@),
                answered,
                step@,
            ),
        !compile_asks_in_process(compile_next(suite@, out_dir@, config@, state@, reply@)) ==> step@
            == compile_next(suite@, out_dir@, config@, state@, reply@),
{
    let ghost first = compile_next(suite@, out_dir@, config@, state@, reply@);
    let ghost mut answered: Seq<ReplyView> = Seq::empty();
    let mut step = compile_step(suite, out_dir, config, state, reply);
    proof {
        compile_step_advances(suite@, out_dir@, config@, state@, reply@);
    }
    loop
        invariant
            first == compile_next(suite@, out_dir@, config@, state@, reply@),
            step@ == compile_fed(suite@, out_dir@, config@, first, answered),
            answered.len() > 0 ==> compile_asks_in_process(first),
            step@ matches CompileStepView::Ask(next, request) ==> request == compile_pending(
                suite@,
                out_dir@,
                config@,
                next,
            ) && !(next is Start),
            forall|k: int|
                0 <= k < answered.len() ==> (#[trigger] compile_fed(
                    suite@,
                    out_dir@,
                    config@,
                    first,
                    answered.take(k),
                ) matches CompileStepView::Ask(_, request) && is_in_process(request) && answers(
                    request,
                    answered[k],
                )),
        ensures
            compile_settles(suite@, out_dir@, config@, first, answered, step@),
            !compile_asks_in_process(first) ==> step@ == first,
        decreases
            match step@ {
                CompileStepView::Ask(next, _) => compile_remaining(next),
                CompileStepView::Done(_) => 0,
            },
    {
        let (next, given) = match step {
            CompileStep::Ask(next, request) => match answer_in_process(&request) {
                Some(given) => (next, given),
                None => {
                    step = CompileStep::Ask(next, request);
                    break ;
                },
            },
            CompileStep::Done(result) => {
                step = CompileStep::Done(result);
                break ;
            },
        };
        proof {
            let longer = answered.push(given@);
            compile_step_advances(suite@, out_dir@, config@, next@, given@);
            assert(longer.take(answered.len() as int) == answered);
            assert forall|k: int| 0 <= k < answered.len() implies longer.take(k)
                == answered.take(k) by {}
            answered = longer;
        }
        step = compile_step(suite, out_dir, config, next, given);
    }
    step
}

} // verus!
