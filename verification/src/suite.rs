//! The suite orchestrator: validation, the allowed-failure flag, the
//! optional clearing of the build cache, the output directory, the compile
//! step, the run step and the classification of what they reported.
//!
//! [`compile_and_run`] is a state machine like the two steps it sequences.

use crate::compile::{
    compile_next, compile_pending, compile_remaining, compile_step, compile_step_advances,
    CompileError, CompileErrorView, CompileState, CompileStateView, CompileStep, CompileStepView,
};
use crate::config::{CliInstructions, ConfigView};
use crate::in_process::{answer_in_process, is_in_process};
use crate::layout::{file_in, file_ref, BUILD_CACHE, PROJECT_DESCRIPTOR, TEMP_DIR_PREFIX};
use crate::outdir::{temp_dir_location, OutDir, OutDirView, ScratchDir};
use crate::run::{
    run_next, run_pending, run_remaining, run_step, run_step_advances, RunError, RunErrorView,
    RunState, RunStateView, RunStep, RunStepView,
};
use crate::world::{
    answers, error_is_not_found, is_not_found, PathKind, Reply, ReplyView, Request, RequestView,
};
use vstd::prelude::*;
use vstd::string::StringExecFns;

verus! {

/// How a suite failed to pass.
#[derive(Debug)]
#[allow(inconsistent_fields)]
pub enum CompileAndRunError {
    /// Nothing exists at the suite's path.
    SuiteNotExist,
    /// The suite's path is not a directory.
    SuiteNotDir,
    /// The suite's directory has no project descriptor.
    SuiteNotElm,
    /// The compile step failed.
    CompileFailure { allowed: bool, reason: CompileError },
    /// The run step failed; the output directory was kept for inspection.
    RunFailure { allowed: bool, outdir: OutDir, reason: RunError },
    /// The suite is allowed to fail and passed.
    ExpectedFailure,
}

/// Mathematical model of a [`CompileAndRunError`].
#[allow(inconsistent_fields)]
pub enum CompileAndRunErrorView {
    SuiteNotExist,
    SuiteNotDir,
    SuiteNotElm,
    CompileFailure { allowed: bool, reason: CompileErrorView },
    RunFailure { allowed: bool, outdir: OutDirView, reason: RunErrorView },
    ExpectedFailure,
}

impl View for CompileAndRunError {
    type V = CompileAndRunErrorView;

    open spec fn view(&self) -> CompileAndRunErrorView {
        match self {
            CompileAndRunError::SuiteNotExist => CompileAndRunErrorView::SuiteNotExist,
            CompileAndRunError::SuiteNotDir => CompileAndRunErrorView::SuiteNotDir,
            CompileAndRunError::SuiteNotElm => CompileAndRunErrorView::SuiteNotElm,
            CompileAndRunError::CompileFailure { allowed, reason } => {
                CompileAndRunErrorView::CompileFailure { allowed: *allowed, reason: reason@ }
            },
            CompileAndRunError::RunFailure { allowed, outdir, reason } => {
                CompileAndRunErrorView::RunFailure {
                    allowed: *allowed,
                    outdir: outdir@,
                    reason: reason@,
                }
            },
            CompileAndRunError::ExpectedFailure => CompileAndRunErrorView::ExpectedFailure,
        }
    }
}

/// Model of the outcome of one suite.
pub open spec fn outcome_view(outcome: Result<(), CompileAndRunError>) -> Result<
    (),
    CompileAndRunErrorView,
> {
    match outcome {
        Ok(()) => Ok(()),
        Err(e) => Err(e@),
    }
}

/// The exit code of a run in which a suite could not be compiled.
pub const COMPILE_STAGE_EXIT_CODE: i32 = 1;

/// The exit code of a run in which a compiled suite did not run as declared.
pub const RUN_STAGE_EXIT_CODE: i32 = 2;

/// The exit code that an outcome asks for; `None` asks for none, so that a
/// run of such outcomes exits with zero.
///
/// A pass and a failure that is allowed ask for none. A suite that is no
/// suite or does not compile asks for the compile stage's code. A suite
/// that fails when run, and an allowed suite that passed, ask for the run
/// stage's code.
pub open spec fn exit_code_of(outcome: Result<(), CompileAndRunErrorView>) -> Option<i32> {
    match outcome {
        Ok(()) => None,
        Err(CompileAndRunErrorView::SuiteNotExist) => Some(COMPILE_STAGE_EXIT_CODE),
        Err(CompileAndRunErrorView::SuiteNotDir) => Some(COMPILE_STAGE_EXIT_CODE),
        Err(CompileAndRunErrorView::SuiteNotElm) => Some(COMPILE_STAGE_EXIT_CODE),
        Err(CompileAndRunErrorView::CompileFailure { allowed, .. }) => if allowed {
            None
        } else {
            Some(COMPILE_STAGE_EXIT_CODE)
        },
        Err(CompileAndRunErrorView::RunFailure { allowed, .. }) => if allowed {
            None
        } else {
            Some(RUN_STAGE_EXIT_CODE)
        },
        Err(CompileAndRunErrorView::ExpectedFailure) => Some(RUN_STAGE_EXIT_CODE),
    }
}

/// The exit code that an outcome asks for, never zero.
pub fn exit_code(outcome: &Result<(), CompileAndRunError>) -> (code: Option<i32>)
    ensures
        code == exit_code_of(outcome_view(*outcome)),
        code != Some(0i32),
{
    match outcome {
        Ok(()) => None,
        Err(CompileAndRunError::SuiteNotExist) => Some(COMPILE_STAGE_EXIT_CODE),
        Err(CompileAndRunError::SuiteNotDir) => Some(COMPILE_STAGE_EXIT_CODE),
        Err(CompileAndRunError::SuiteNotElm) => Some(COMPILE_STAGE_EXIT_CODE),
        Err(CompileAndRunError::CompileFailure { allowed, .. }) => if *allowed {
            None
        } else {
            Some(COMPILE_STAGE_EXIT_CODE)
        },
        Err(CompileAndRunError::RunFailure { allowed, .. }) => if *allowed {
            None
        } else {
            Some(RUN_STAGE_EXIT_CODE)
        },
        Err(CompileAndRunError::ExpectedFailure) => Some(RUN_STAGE_EXIT_CODE),
    }
}

/// A condition that says the environment is unusable. It is no finding
/// about a suite: the whole run ends on it.
#[derive(Debug)]
pub enum FatalError {
    /// The suite could not be compared with a path that is allowed to fail.
    ComparingPaths(std::io::Error),
    /// The build cache exists and could not be deleted.
    ClearingCache(std::io::Error),
    /// No temporary output directory could be created.
    CreatingOutDir(std::io::Error),
    /// The temporary output directory is at a location that is not text.
    OutDirNotText,
}

/// How far a suite has come: each state but the first names the request
/// whose reply it waits for.
#[derive(Debug)]
#[allow(inconsistent_fields)]
pub enum SuiteState {
    /// Nothing has been asked yet.
    Start,
    /// Validating: asked what the suite's path is.
    Validating,
    /// Validating: asked whether the suite has a project descriptor.
    ValidatingDescriptor,
    /// Computing the allowed-failure flag: asked whether the allowed path
    /// at `index` exists.
    AllowedExists { index: usize },
    /// Computing the allowed-failure flag: asked whether the suite is the
    /// allowed path at `index`.
    AllowedSame { index: usize },
    /// Asked to have the build cache deleted.
    ClearingCache { allowed: bool },
    /// Asked for a temporary output directory.
    Acquiring { allowed: bool },
    /// The compile step is under way.
    Compiling { allowed: bool, out_dir: OutDir, step: CompileState },
    /// The run step is under way.
    Running { allowed: bool, out_dir: OutDir, step: RunState },
}

/// Mathematical model of a [`SuiteState`].
#[allow(inconsistent_fields)]
pub enum SuiteStateView {
    Start,
    Validating,
    ValidatingDescriptor,
    AllowedExists { index: nat },
    AllowedSame { index: nat },
    ClearingCache { allowed: bool },
    Acquiring { allowed: bool },
    Compiling { allowed: bool, out_dir: OutDirView, step: CompileStateView },
    Running { allowed: bool, out_dir: OutDirView, step: RunStateView },
}

impl View for SuiteState {
    type V = SuiteStateView;

    open spec fn view(&self) -> SuiteStateView {
        match self {
            SuiteState::Start => SuiteStateView::Start,
            SuiteState::Validating => SuiteStateView::Validating,
            SuiteState::ValidatingDescriptor => SuiteStateView::ValidatingDescriptor,
            SuiteState::AllowedExists { index } => SuiteStateView::AllowedExists {
                index: *index as nat,
            },
            SuiteState::AllowedSame { index } => SuiteStateView::AllowedSame {
                index: *index as nat,
            },
            SuiteState::ClearingCache { allowed } => SuiteStateView::ClearingCache {
                allowed: *allowed,
            },
            SuiteState::Acquiring { allowed } => SuiteStateView::Acquiring { allowed: *allowed },
            SuiteState::Compiling { allowed, out_dir, step } => SuiteStateView::Compiling {
                allowed: *allowed,
                out_dir: out_dir@,
                step: step@,
            },
            SuiteState::Running { allowed, out_dir, step } => SuiteStateView::Running {
                allowed: *allowed,
                out_dir: out_dir@,
                step: step@,
            },
        }
    }
}

/// What the orchestrator wants next.
#[derive(Debug)]
pub enum SuiteStep {
    /// Carry out the request and come back with its reply and this state.
    Ask(SuiteState, Request),
    /// The suite's pipeline has ended with this outcome.
    Done(Result<(), CompileAndRunError>),
    /// The environment is unusable; the whole run must end.
    Abort(FatalError),
}

/// Mathematical model of a [`SuiteStep`].
pub enum SuiteStepView {
    Ask(SuiteStateView, RequestView),
    Done(Result<(), CompileAndRunErrorView>),
    Abort(FatalError),
}

impl View for SuiteStep {
    type V = SuiteStepView;

    open spec fn view(&self) -> SuiteStepView {
        match self {
            SuiteStep::Ask(state, request) => SuiteStepView::Ask(state@, request@),
            SuiteStep::Done(outcome) => SuiteStepView::Done(outcome_view(*outcome)),
            SuiteStep::Abort(fatal) => SuiteStepView::Abort(*fatal),
        }
    }
}

/// What stays the same throughout one suite's pipeline.
pub struct SuiteContext {
    /// The suite's directory.
    pub suite: Seq<char>,
    /// The output directory that the caller supplied, if any.
    pub provided_out_dir: Option<Seq<char>>,
    pub config: ConfigView,
    /// Whether the build cache is deleted before compiling.
    pub clear_cache: bool,
    /// The harness driver.
    pub driver: Seq<char>,
}

/// The classification of a suite whose two steps both succeeded: one that
/// is allowed to fail is an anomaly, any other has passed.
pub open spec fn classify_success(allowed: bool) -> Result<(), CompileAndRunErrorView> {
    if allowed {
        Err(CompileAndRunErrorView::ExpectedFailure)
    } else {
        Ok(())
    }
}

/// What the orchestrator does with the run step's latest move. A failed
/// run promotes the output directory and is classified with the flag.
pub open spec fn after_run_step(
    allowed: bool,
    out_dir: OutDirView,
    step: RunStepView,
) -> SuiteStepView {
    match step {
        RunStepView::Ask(state, request) => SuiteStepView::Ask(
            SuiteStateView::Running { allowed, out_dir, step: state },
            request,
        ),
        RunStepView::Done(Err(reason)) => SuiteStepView::Done(
            Err(
                CompileAndRunErrorView::RunFailure {
                    allowed,
                    outdir: out_dir.promoted(),
                    reason,
                },
            ),
        ),
        RunStepView::Done(Ok(())) => SuiteStepView::Done(classify_success(allowed)),
    }
}

/// What the orchestrator does with the compile step's latest move. A
/// failed compile is classified with the flag and ends the pipeline; a
/// successful one opens the run step.
pub open spec fn after_compile_step(
    context: SuiteContext,
    allowed: bool,
    out_dir: OutDirView,
    step: CompileStepView,
) -> SuiteStepView {
    match step {
        CompileStepView::Ask(state, request) => SuiteStepView::Ask(
            SuiteStateView::Compiling { allowed, out_dir, step: state },
            request,
        ),
        CompileStepView::Done(Err(reason)) => SuiteStepView::Done(
            Err(CompileAndRunErrorView::CompileFailure { allowed, reason }),
        ),
        CompileStepView::Done(Ok(())) => after_run_step(
            allowed,
            out_dir,
            run_next(
                context.suite,
                out_dir.path(),
                context.config,
                context.driver,
                RunStateView::Start,
                ReplyView::Done,
            ),
        ),
    }
}

/// Opening the compile step in an output directory.
pub open spec fn begin_compile(
    context: SuiteContext,
    allowed: bool,
    out_dir: OutDirView,
) -> SuiteStepView {
    after_compile_step(
        context,
        allowed,
        out_dir,
        compile_next(
            context.suite,
            out_dir.path(),
            context.config,
            CompileStateView::Start,
            ReplyView::Done,
        ),
    )
}

/// Acquiring the output directory: the caller's where one was supplied,
/// else a temporary one that has to be asked for.
pub open spec fn acquire(context: SuiteContext, allowed: bool) -> SuiteStepView {
    match context.provided_out_dir {
        Some(dir) => begin_compile(context, allowed, OutDirView::Provided(dir)),
        None => SuiteStepView::Ask(
            SuiteStateView::Acquiring { allowed },
            RequestView::CreateTempDir { prefix: TEMP_DIR_PREFIX@ },
        ),
    }
}

/// What follows once the allowed-failure flag is known.
pub open spec fn with_flag(context: SuiteContext, allowed: bool) -> SuiteStepView {
    if context.clear_cache {
        SuiteStepView::Ask(
            SuiteStateView::ClearingCache { allowed },
            RequestView::RemoveTree { dir: file_in(context.suite, BUILD_CACHE@) },
        )
    } else {
        acquire(context, allowed)
    }
}

/// Looking at the allowed paths from `index` on: the next one is asked
/// about; with none left the suite is not allowed to fail.
pub open spec fn scan_allowed(context: SuiteContext, index: nat) -> SuiteStepView {
    if index < context.config.allowed_failures.len() {
        SuiteStepView::Ask(
            SuiteStateView::AllowedExists { index },
            RequestView::Stat { path: context.config.allowed_failures[index as int] },
        )
    } else {
        with_flag(context, false)
    }
}

/// The request that a state waits on. The first state waits on none, and a
/// state whose index lies past the allowed paths has nothing left to ask;
/// what they are given here is the request that validation opens with.
pub open spec fn suite_pending(context: SuiteContext, state: SuiteStateView) -> RequestView {
    let paths = context.config.allowed_failures;
    match state {
        SuiteStateView::Start => RequestView::Stat { path: context.suite },
        SuiteStateView::Validating => RequestView::Stat { path: context.suite },
        SuiteStateView::ValidatingDescriptor => RequestView::Exists {
            file: file_in(context.suite, PROJECT_DESCRIPTOR@),
        },
        SuiteStateView::AllowedExists { index } => if index < paths.len() {
            RequestView::Stat { path: paths[index as int] }
        } else {
            RequestView::Stat { path: context.suite }
        },
        SuiteStateView::AllowedSame { index } => if index < paths.len() {
            RequestView::SameFile { left: context.suite, right: paths[index as int] }
        } else {
            RequestView::Stat { path: context.suite }
        },
        SuiteStateView::ClearingCache { .. } => RequestView::RemoveTree {
            dir: file_in(context.suite, BUILD_CACHE@),
        },
        SuiteStateView::Acquiring { .. } => RequestView::CreateTempDir { prefix: TEMP_DIR_PREFIX@ },
        SuiteStateView::Compiling { out_dir, step, .. } => compile_pending(
            context.suite,
            out_dir.path(),
            context.config,
            step,
        ),
        SuiteStateView::Running { out_dir, step, .. } => run_pending(
            context.suite,
            out_dir.path(),
            context.config,
            step,
        ),
    }
}

/// The orchestrator's transition function.
///
/// Validating: the suite must exist, be a directory and hold a project
/// descriptor. The flag: the suite is allowed to fail when it is the same
/// file as one of the allowed paths that exist, tried in order. Then the
/// build cache is deleted if that was asked for, where a cache that is not
/// there is no error. Then the output directory is acquired, the compile
/// step runs, the run step runs, and the outcome is classified.
pub open spec fn suite_next(
    context: SuiteContext,
    state: SuiteStateView,
    reply: ReplyView,
) -> SuiteStepView {
    let paths = context.config.allowed_failures;
    match state {
        SuiteStateView::Start => SuiteStepView::Ask(
            SuiteStateView::Validating,
            RequestView::Stat { path: context.suite },
        ),
        SuiteStateView::Validating => match reply {
            ReplyView::Kind(PathKind::Missing) => SuiteStepView::Done(
                Err(CompileAndRunErrorView::SuiteNotExist),
            ),
            ReplyView::Kind(PathKind::Other) => SuiteStepView::Done(
                Err(CompileAndRunErrorView::SuiteNotDir),
            ),
            ReplyView::Kind(PathKind::Directory) => SuiteStepView::Ask(
                SuiteStateView::ValidatingDescriptor,
                RequestView::Exists { file: file_in(context.suite, PROJECT_DESCRIPTOR@) },
            ),
            _ => SuiteStepView::Ask(state, RequestView::Stat { path: context.suite }),
        },
        SuiteStateView::ValidatingDescriptor => match reply {
            ReplyView::Exists(false) => SuiteStepView::Done(
                Err(CompileAndRunErrorView::SuiteNotElm),
            ),
            ReplyView::Exists(true) => scan_allowed(context, 0),
            _ => SuiteStepView::Ask(
                state,
                RequestView::Exists { file: file_in(context.suite, PROJECT_DESCRIPTOR@) },
            ),
        },
        SuiteStateView::AllowedExists { index } => if index >= paths.len() {
            with_flag(context, false)
        } else {
            match reply {
                ReplyView::Kind(PathKind::Missing) => scan_allowed(context, index + 1),
                ReplyView::Kind(_) => SuiteStepView::Ask(
                    SuiteStateView::AllowedSame { index },
                    RequestView::SameFile { left: context.suite, right: paths[index as int] },
                ),
                _ => SuiteStepView::Ask(state, RequestView::Stat { path: paths[index as int] }),
            }
        },
        SuiteStateView::AllowedSame { index } => if index >= paths.len() {
            with_flag(context, false)
        } else {
            match reply {
                ReplyView::Same(true) => with_flag(context, true),
                ReplyView::Same(false) => scan_allowed(context, index + 1),
                ReplyView::Failed(e) => SuiteStepView::Abort(FatalError::ComparingPaths(e)),
                _ => SuiteStepView::Ask(
                    state,
                    RequestView::SameFile { left: context.suite, right: paths[index as int] },
                ),
            }
        },
        SuiteStateView::ClearingCache { allowed } => match reply {
            ReplyView::Done => acquire(context, allowed),
            ReplyView::Failed(e) => if is_not_found(e) {
                acquire(context, allowed)
            } else {
                SuiteStepView::Abort(FatalError::ClearingCache(e))
            },
            _ => SuiteStepView::Ask(
                state,
                RequestView::RemoveTree { dir: file_in(context.suite, BUILD_CACHE@) },
            ),
        },
        SuiteStateView::Acquiring { allowed } => match reply {
            ReplyView::TempDir(dir) => match temp_dir_location(dir) {
                Some(path) => begin_compile(context, allowed, OutDirView::Temporary(path)),
                None => SuiteStepView::Abort(FatalError::OutDirNotText),
            },
            ReplyView::Failed(e) => SuiteStepView::Abort(FatalError::CreatingOutDir(e)),
            _ => SuiteStepView::Ask(
                state,
                RequestView::CreateTempDir { prefix: TEMP_DIR_PREFIX@ },
            ),
        },
        SuiteStateView::Compiling { allowed, out_dir, step } => after_compile_step(
            context,
            allowed,
            out_dir,
            compile_next(context.suite, out_dir.path(), context.config, step, reply),
        ),
        SuiteStateView::Running { allowed, out_dir, step } => after_run_step(
            allowed,
            out_dir,
            run_next(
                context.suite,
                out_dir.path(),
                context.config,
                context.driver,
                step,
                reply,
            ),
        ),
    }
}

/// The context of the pipeline that [`compile_and_run`] is called for.
pub open spec fn suite_context(
    suite: &str,
    provided_out_dir: Option<&str>,
    instructions: &CliInstructions,
    driver: &str,
) -> SuiteContext {
    SuiteContext {
        suite: suite@,
        provided_out_dir: match provided_out_dir {
            Some(dir) => Some(dir@),
            None => None,
        },
        config: instructions.config@,
        clear_cache: instructions.clear_elm_stuff,
        driver: driver@,
    }
}

/// Classifies a suite whose two steps both succeeded.
pub fn classify(allowed: bool) -> (outcome: Result<(), CompileAndRunError>)
    ensures
        outcome_view(outcome) == classify_success(allowed),
{
    if allowed {
        Err(CompileAndRunError::ExpectedFailure)
    } else {
        Ok(())
    }
}

/// Acts on the run step's latest move.
fn continue_run(allowed: bool, out_dir: OutDir, step: RunStep) -> (next: SuiteStep)
    ensures
        next@ == after_run_step(allowed, out_dir@, step@),
{
    match step {
        RunStep::Ask(state, request) => SuiteStep::Ask(
            SuiteState::Running { allowed, out_dir, step: state },
            request,
        ),
        RunStep::Done(Err(reason)) => {
            let mut outdir = out_dir;
            outdir.persist();
            SuiteStep::Done(Err(CompileAndRunError::RunFailure { allowed, outdir, reason }))
        },
        RunStep::Done(Ok(())) => SuiteStep::Done(classify(allowed)),
    }
}

/// Acts on the compile step's latest move.
fn continue_compile(
    suite: &str,
    instructions: &CliInstructions,
    driver: &str,
    allowed: bool,
    out_dir: OutDir,
    step: CompileStep,
    Ghost(context): Ghost<SuiteContext>,
) -> (next: SuiteStep)
    requires
        context.suite == suite@,
        context.config == instructions.config@,
        context.driver == driver@,
    ensures
        next@ == after_compile_step(context, allowed, out_dir@, step@),
{
    match step {
        CompileStep::Ask(state, request) => SuiteStep::Ask(
            SuiteState::Compiling { allowed, out_dir, step: state },
            request,
        ),
        CompileStep::Done(Err(reason)) => SuiteStep::Done(
            Err(CompileAndRunError::CompileFailure { allowed, reason }),
        ),
        CompileStep::Done(Ok(())) => {
            let path = out_dir.path();
            let first = run_step(
                suite,
                path.as_str(),
                &instructions.config,
                driver,
                RunState::Start,
                Reply::Done,
            );
            continue_run(allowed, out_dir, first)
        },
    }
}

/// Opens the compile step in an output directory.
fn open_compile(
    suite: &str,
    instructions: &CliInstructions,
    driver: &str,
    allowed: bool,
    out_dir: OutDir,
    Ghost(context): Ghost<SuiteContext>,
) -> (next: SuiteStep)
    requires
        context.suite == suite@,
        context.config == instructions.config@,
        context.driver == driver@,
    ensures
        next@ == begin_compile(context, allowed, out_dir@),
{
    let path = out_dir.path();
    let first = compile_step(
        suite,
        path.as_str(),
        &instructions.config,
        CompileState::Start,
        Reply::Done,
    );
    continue_compile(suite, instructions, driver, allowed, out_dir, first, Ghost(context))
}

/// Acquires the output directory.
fn acquire_out_dir(
    suite: &str,
    provided_out_dir: Option<&str>,
    instructions: &CliInstructions,
    driver: &str,
    allowed: bool,
) -> (next: SuiteStep)
    ensures
        next@ == acquire(suite_context(suite, provided_out_dir, instructions, driver), allowed),
{
    let ghost context = suite_context(suite, provided_out_dir, instructions, driver);
    match provided_out_dir {
        Some(dir) => open_compile(
            suite,
            instructions,
            driver,
            allowed,
            OutDir::Provided(String::from_str(dir)),
            Ghost(context),
        ),
        None => SuiteStep::Ask(
            SuiteState::Acquiring { allowed },
            Request::CreateTempDir { prefix: String::from_str(TEMP_DIR_PREFIX) },
        ),
    }
}

/// Goes on once the allowed-failure flag is known.
fn go_on_with_flag(
    suite: &str,
    provided_out_dir: Option<&str>,
    instructions: &CliInstructions,
    driver: &str,
    allowed: bool,
) -> (next: SuiteStep)
    ensures
        next@ == with_flag(suite_context(suite, provided_out_dir, instructions, driver), allowed),
{
    if instructions.clear_elm_stuff {
        SuiteStep::Ask(
            SuiteState::ClearingCache { allowed },
            Request::RemoveTree { dir: file_ref(suite, BUILD_CACHE) },
        )
    } else {
        acquire_out_dir(suite, provided_out_dir, instructions, driver, allowed)
    }
}

/// Looks at the allowed paths from `index` on.
fn scan(
    suite: &str,
    provided_out_dir: Option<&str>,
    instructions: &CliInstructions,
    driver: &str,
    index: usize,
) -> (next: SuiteStep)
    ensures
        next@ == scan_allowed(
            suite_context(suite, provided_out_dir, instructions, driver),
            index as nat,
        ),
{
    if index < instructions.config.allowed_failures.len() {
        SuiteStep::Ask(
            SuiteState::AllowedExists { index },
            Request::Stat { path: instructions.config.allowed_failures[index].clone() },
        )
    } else {
        go_on_with_flag(suite, provided_out_dir, instructions, driver, false)
    }
}

/// One transition of the pipeline of the suite at `suite`: what the
/// pipeline does in `state` when it is given `reply`, whatever the reply
/// is. The parameters are those of [`compile_and_run`].
pub fn compile_and_run_step(
    suite: &str,
    provided_out_dir: Option<&str>,
    instructions: &CliInstructions,
    driver: &str,
    state: SuiteState,
    reply: Reply,
) -> (next: SuiteStep)
    ensures
        next@ == suite_next(
            suite_context(suite, provided_out_dir, instructions, driver),
            state@,
            reply@,
        ),
{
    let ghost context = suite_context(suite, provided_out_dir, instructions, driver);
    let paths = &instructions.config.allowed_failures;
    match state {
        SuiteState::Start => SuiteStep::Ask(
            SuiteState::Validating,
            Request::Stat { path: String::from_str(suite) },
        ),
        SuiteState::Validating => match reply {
            Reply::Kind(PathKind::Missing) => SuiteStep::Done(
                Err(CompileAndRunError::SuiteNotExist),
            ),
            Reply::Kind(PathKind::Other) => SuiteStep::Done(Err(CompileAndRunError::SuiteNotDir)),
            Reply::Kind(PathKind::Directory) => SuiteStep::Ask(
                SuiteState::ValidatingDescriptor,
                Request::Exists { file: file_ref(suite, PROJECT_DESCRIPTOR) },
            ),
            _ => SuiteStep::Ask(
                SuiteState::Validating,
                Request::Stat { path: String::from_str(suite) },
            ),
        },
        SuiteState::ValidatingDescriptor => match reply {
            Reply::Exists(false) => SuiteStep::Done(Err(CompileAndRunError::SuiteNotElm)),
            Reply::Exists(true) => scan(suite, provided_out_dir, instructions, driver, 0),
            _ => SuiteStep::Ask(
                SuiteState::ValidatingDescriptor,
                Request::Exists { file: file_ref(suite, PROJECT_DESCRIPTOR) },
            ),
        },
        SuiteState::AllowedExists { index } => {
            if index >= paths.len() {
                go_on_with_flag(suite, provided_out_dir, instructions, driver, false)
            } else {
                match reply {
                    Reply::Kind(PathKind::Missing) => scan(
                        suite,
                        provided_out_dir,
                        instructions,
                        driver,
                        index + 1,
                    ),
                    Reply::Kind(_) => SuiteStep::Ask(
                        SuiteState::AllowedSame { index },
                        Request::SameFile {
                            left: String::from_str(suite),
                            right: paths[index].clone(),
                        },
                    ),
                    _ => SuiteStep::Ask(
                        SuiteState::AllowedExists { index },
                        Request::Stat { path: paths[index].clone() },
                    ),
                }
            }
        },
        SuiteState::AllowedSame { index } => {
            if index >= paths.len() {
                go_on_with_flag(suite, provided_out_dir, instructions, driver, false)
            } else {
                match reply {
                    Reply::Same(true) => go_on_with_flag(
                        suite,
                        provided_out_dir,
                        instructions,
                        driver,
                        true,
                    ),
                    Reply::Same(false) => scan(
                        suite,
                        provided_out_dir,
                        instructions,
                        driver,
                        index + 1,
                    ),
                    Reply::Failed(e) => SuiteStep::Abort(FatalError::ComparingPaths(e)),
                    _ => SuiteStep::Ask(
                        SuiteState::AllowedSame { index },
                        Request::SameFile {
                            left: String::from_str(suite),
                            right: paths[index].clone(),
                        },
                    ),
                }
            }
        },
        SuiteState::ClearingCache { allowed } => match reply {
            Reply::Done => acquire_out_dir(suite, provided_out_dir, instructions, driver, allowed),
            Reply::Failed(e) => {
                if error_is_not_found(&e) {
                    acquire_out_dir(suite, provided_out_dir, instructions, driver, allowed)
                } else {
                    SuiteStep::Abort(FatalError::ClearingCache(e))
                }
            },
            _ => SuiteStep::Ask(
                SuiteState::ClearingCache { allowed },
                Request::RemoveTree { dir: file_ref(suite, BUILD_CACHE) },
            ),
        },
        SuiteState::Acquiring { allowed } => match reply {
            Reply::TempDir(dir) => match ScratchDir::new(dir) {
                Some(scratch) => open_compile(
                    suite,
                    instructions,
                    driver,
                    allowed,
                    OutDir::Temporary(scratch),
                    Ghost(context),
                ),
                None => SuiteStep::Abort(FatalError::OutDirNotText),
            },
            Reply::Failed(e) => SuiteStep::Abort(FatalError::CreatingOutDir(e)),
            _ => SuiteStep::Ask(
                SuiteState::Acquiring { allowed },
                Request::CreateTempDir { prefix: String::from_str(TEMP_DIR_PREFIX) },
            ),
        },
        SuiteState::Compiling { allowed, out_dir, step } => {
            let path = out_dir.path();
            let moved = compile_step(suite, path.as_str(), &instructions.config, step, reply);
            continue_compile(suite, instructions, driver, allowed, out_dir, moved, Ghost(context))
        },
        SuiteState::Running { allowed, out_dir, step } => {
            let path = out_dir.path();
            let moved = run_step(suite, path.as_str(), &instructions.config, driver, step, reply);
            continue_run(allowed, out_dir, moved)
        },
    }
}

/// Whether a state of the orchestrator takes any reply: the first state,
/// the first state of either step, and a state whose index lies past the
/// allowed paths.
pub open spec fn takes_any_reply(context: SuiteContext, state: SuiteStateView) -> bool {
    match state {
        SuiteStateView::Start => true,
        SuiteStateView::AllowedExists { index } => index >= context.config.allowed_failures.len(),
        SuiteStateView::AllowedSame { index } => index >= context.config.allowed_failures.len(),
        SuiteStateView::Compiling { step, .. } => step is Start,
        SuiteStateView::Running { step, .. } => step is Start,
        _ => false,
    }
}

/// How many answers a suite's pipeline can still need before it ends.
pub open spec fn suite_remaining(context: SuiteContext, state: SuiteStateView) -> nat {
    let paths = context.config.allowed_failures.len();
    match state {
        SuiteStateView::Start => 2 * paths + 20,
        SuiteStateView::Validating => 2 * paths + 19,
        SuiteStateView::ValidatingDescriptor => 2 * paths + 18,
        SuiteStateView::AllowedExists { index } => if index < paths {
            (2 * (paths - index) + 17) as nat
        } else {
            17
        },
        SuiteStateView::AllowedSame { index } => if index < paths {
            (2 * (paths - index) + 16) as nat
        } else {
            17
        },
        SuiteStateView::ClearingCache { .. } => 16,
        SuiteStateView::Acquiring { .. } => 15,
        SuiteStateView::Compiling { step, .. } => compile_remaining(step) + 6,
        SuiteStateView::Running { step, .. } => run_remaining(step),
    }
}

/// A suite's pipeline neither stalls nor loses its place. A reply that
/// does not answer the pending request leaves the state as it is and has
/// the request made again. A reply that answers it ends the pipeline or
/// moves it to a state that is nearer to the end, so that a pipeline whose
/// requests are answered ends after a number of answers that the number of
/// allowed paths bounds. And the request that comes with a state is always
/// the one that the state waits on.
pub proof fn suite_pipeline_advances(context: SuiteContext, state: SuiteStateView, reply: ReplyView)
    ensures
        !takes_any_reply(context, state) && !answers(suite_pending(context, state), reply)
            ==> suite_next(context, state, reply) == SuiteStepView::Ask(
            state,
            suite_pending(context, state),
        ),
        takes_any_reply(context, state) || answers(suite_pending(context, state), reply)
            ==> (suite_next(context, state, reply) matches SuiteStepView::Ask(next, _)
            ==> suite_remaining(context, next) < suite_remaining(context, state)),
        suite_next(context, state, reply) matches SuiteStepView::Ask(next, request) ==> request
            == suite_pending(context, next) && !takes_any_reply(context, next),
{
    match state {
        SuiteStateView::Compiling { out_dir, step, .. } => {
            compile_step_advances(context.suite, out_dir.path(), context.config, step, reply);
        },
        SuiteStateView::Running { out_dir, step, .. } => {
            run_step_advances(
                context.suite,
                out_dir.path(),
                context.config,
                context.driver,
                step,
                reply,
            );
        },
        _ => {},
    }
}

/// Where a suite's pipeline stands after it stood at `step` and was then
/// given `replies` one by one. Once the pipeline has ended it stays ended.
pub open spec fn suite_fed(
    context: SuiteContext,
    step: SuiteStepView,
    replies: Seq<ReplyView>,
) -> SuiteStepView
    decreases replies.len(),
{
    if replies.len() == 0 {
        step
    } else {
        match suite_fed(context, step, replies.drop_last()) {
            SuiteStepView::Ask(state, _) => suite_next(context, state, replies.last()),
            ended => ended,
        }
    }
}

/// Whether the pipeline asks for something that the library carries out
/// itself.
pub open spec fn suite_asks_in_process(step: SuiteStepView) -> bool {
    step matches SuiteStepView::Ask(_, request) && is_in_process(request)
}

/// Whether `end` is where the pipeline comes to rest from `step` when the
/// library answers what it can: `answered` are replies that the library
/// gave, each to a request that it carries out itself and each an answer to
/// that request, and `end` asks for nothing of that kind.
pub open spec fn suite_settles(
    context: SuiteContext,
    step: SuiteStepView,
    answered: Seq<ReplyView>,
    end: SuiteStepView,
) -> bool {
    &&& end == suite_fed(context, step, answered)
    &&& !suite_asks_in_process(end)
    &&& forall|k: int|
        0 <= k < answered.len() ==> (#[trigger] suite_fed(context, step, answered.take(k))
            matches SuiteStepView::Ask(_, request) && is_in_process(request) && answers(
            request,
            answered[k],
        ))
}

/// The pipeline of the suite at `suite`.
///
/// `provided_out_dir` is the output directory if the caller supplies one;
/// without one a temporary directory is created, which is deleted when the
/// pipeline ends unless the run step failed. `driver` is the script that
/// the harness hands the program and its expected output to.
///
/// Start with [`SuiteState::Start`] and any reply. While the result is
/// [`SuiteStep::Ask`], carry out the request and call again with the state
/// that came with it.
///
/// This is [`compile_and_run_step`], followed by more of it for as long as
/// the pipeline asks for something that the library carries out itself:
/// the suite is compared with the allowed paths, the temporary directory is
/// created and the compiler and the runtime are located here. What is handed
/// back is the first move that needs the caller.
pub fn compile_and_run(
    suite: &str,
    provided_out_dir: Option<&str>,
    instructions: &CliInstructions,
    driver: &str,
    state: SuiteState,
    reply: Reply,
) -> (next: SuiteStep)
    ensures
        exists|answered: Seq<ReplyView>|
            suite_settles(
                suite_context(suite, provided_out_dir, instructions, driver),
                suite_next(
                    suite_context(suite, provided_out_dir, instructions, driver),
                    state@,
                    reply@,
                ),
                answered,
                next@,
            ),
        !suite_asks_in_process(
            suite_next(
                suite_context(suite, provided_out_dir, instructions, driver),
                state@,
                reply@,
            ),
        ) ==> next@ == suite_next(
            suite_context(suite, provided_out_dir, instructions, driver),
            state@,
            reply@,
        ),
{
    let ghost context = suite_context(suite, provided_out_dir, instructions, driver);
    let ghost first = suite_next(context, state@, reply@);
    let ghost mut answered: Seq<ReplyView> = Seq::empty();
    let mut step =
        compile_and_run_step(suite, provided_out_dir, instructions, driver, state, reply);
    proof {
        suite_pipeline_advances(context, state@, reply@);
    }
    loop
        invariant
            context == suite_context(suite, provided_out_dir, instructions, driver),
            first == suite_next(context, state@, reply@),
            step@ == suite_fed(context, first, answered),
            answered.len() > 0 ==> suite_asks_in_process(first),
            step@ matches SuiteStepView::Ask(next, request) ==> request == suite_pending(
                context,
                next,
            ) && !takes_any_reply(context, next),
            forall|k: int|
                0 <= k < answered.len() ==> (#[trigger] suite_fed(context, first, answered.take(k))
                    matches SuiteStepView::Ask(_, request) && is_in_process(request) && answers(
                    request,
                    answered[k],
                )),
        ensures
            suite_settles(context, first, answered, step@),
            !suite_asks_in_process(first) ==> step@ == first,
        decreases
            match step@ {
                SuiteStepView::Ask(next, _) => suite_remaining(context, next),
                _ => 0,
            },
    {
        let (next, given) = match step {
            SuiteStep::Ask(next, request) => match answer_in_process(&request) {
                Some(given) => (next, given),
                None => {
                    step = SuiteStep::Ask(next, request);
                    break ;
                },
            },
            ended => {
                step = ended;
                break ;
            },
        };
        proof {
            let longer = answered.push(given@);
            suite_pipeline_advances(context, next@, given@);
            assert(longer.take(answered.len() as int) == answered);
            assert forall|k: int| 0 <= k < answered.len() implies longer.take(k)
                == answered.take(k) by {}
            answered = longer;
        }
        step = compile_and_run_step(suite, provided_out_dir, instructions, driver, next, given);
    }
    step
}

} // verus!
