//! The pipeline in a world that holds still.
//!
//! A world holds still when what comes back depends on the request alone:
//! asking twice gives the same reply. In such a world every stage of the
//! pipeline is a function of the world, written here in closed form, and
//! the state machines are shown to compute it in a bounded number of turns.

use crate::batch::{
    after_outcome, after_suite_step, batch_next, counts_as_failed, record, BatchContext, BatchRun,
    BatchStateView, BatchStepView, Emitted,
};
use crate::compile::{
    compile_command, compile_next, compile_verdict, CompileErrorView, CompileStateView,
    CompileStepView,
};
use crate::config::ConfigView;
use crate::outdir::{temp_dir_location, OutDirView};
use crate::suite::{
    acquire, after_compile_step, after_run_step, begin_compile, classify_success, scan_allowed,
    suite_next, with_flag, CompileAndRunErrorView, FatalError, SuiteContext, SuiteStateView,
    SuiteStepView,
};
use crate::layout::{
    file_in, BUILD_CACHE, DEFAULT_TARGET, EXPECTED_OUTPUT, HARNESS, PROJECT_DESCRIPTOR,
    TARGETS_MANIFEST, TEMP_DIR_PREFIX,
};
use crate::run::{
    harness_text, run_command, run_next, run_verdict, RunErrorView, RunStateView, RunStepView,
};
use crate::text::split_on;
use crate::world::{answers, is_not_found, PathKind, ReplyView, RequestView};
use vstd::prelude::*;
use vstd::utf8::{decode_utf8, valid_utf8};

verus! {

/// Whether a world answers every request with a reply that answers it.
pub open spec fn answers_all(world: spec_fn(RequestView) -> ReplyView) -> bool {
    forall|request: RequestView| answers(request, #[trigger] world(request))
}

/// The entry points of the suite at `suite`: the lines of its manifest,
/// or the default where there is no manifest. A manifest that is there and
/// cannot be opened or read gives no entry points but the reason.
pub open spec fn entry_points(
    suite: Seq<char>,
    world: spec_fn(RequestView) -> ReplyView,
) -> Result<Seq<Seq<char>>, std::io::Error> {
    match world(RequestView::ReadText { file: file_in(suite, TARGETS_MANIFEST@) }) {
        ReplyView::Text(listing) => Ok(split_on(listing, '\n')),
        ReplyView::Unopened(e) => if is_not_found(e) {
            Ok(seq![DEFAULT_TARGET@])
        } else {
            Err(e)
        },
        ReplyView::Failed(e) => Err(e),
        _ => arbitrary(),
    }
}

/// How the compile step ends in a world: the checks in their order, each
/// with its own failure, then the verdict on the compiler.
pub open spec fn compile_outcome(
    suite: Seq<char>,
    out_dir: Seq<char>,
    config: ConfigView,
    world: spec_fn(RequestView) -> ReplyView,
) -> Result<(), CompileErrorView> {
    if world(RequestView::Stat { path: out_dir }) == ReplyView::Kind(PathKind::Other) {
        Err(CompileErrorView::OutDirNotADirectory)
    } else if world(RequestView::Exists { file: file_in(suite, PROJECT_DESCRIPTOR@) })
        == ReplyView::Exists(false) {
        Err(CompileErrorView::SuiteDoesNotExist)
    } else {
        match entry_points(suite, world) {
            Err(e) => Err(CompileErrorView::ReadingTargetsFailed(e)),
            Ok(roots) => match world(RequestView::Locate { program: config.elm_compiler }) {
                ReplyView::Located(compiler) => match world(
                    RequestView::Canonicalize { path: out_dir },
                ) {
                    ReplyView::Path(canonical) => match world(
                        RequestView::Spawn {
                            command: compile_command(suite, config, roots, compiler, canonical),
                        },
                    ) {
                        ReplyView::Exited(output) => compile_verdict(output),
                        ReplyView::Failed(e) => Err(CompileErrorView::ProcessLaunchFailed(e)),
                        _ => arbitrary(),
                    },
                    ReplyView::Failed(e) => Err(CompileErrorView::ProcessLaunchFailed(e)),
                    _ => arbitrary(),
                },
                ReplyView::NotLocated(e) => Err(CompileErrorView::CompilerNotFound(e)),
                _ => arbitrary(),
            },
        }
    }
}

/// Where the compile step stands after it stood at `step` and the world
/// then answered `turns` of its requests.
pub open spec fn compile_run(
    suite: Seq<char>,
    out_dir: Seq<char>,
    config: ConfigView,
    world: spec_fn(RequestView) -> ReplyView,
    step: CompileStepView,
    turns: nat,
) -> CompileStepView
    decreases turns,
{
    if turns == 0 {
        step
    } else {
        match step {
            CompileStepView::Ask(state, request) => compile_run(
                suite,
                out_dir,
                config,
                world,
                compile_next(suite, out_dir, config, state, world(request)),
                (turns - 1) as nat,
            ),
            ended => ended,
        }
    }
}

/// The compile step's opening move.
pub open spec fn compile_opening(
    suite: Seq<char>,
    out_dir: Seq<char>,
    config: ConfigView,
) -> CompileStepView {
    compile_next(suite, out_dir, config, CompileStateView::Start, ReplyView::Done)
}

/// In a world that holds still, the compile step ends within seven
/// answers, and it ends as [`compile_outcome`] says.
pub proof fn compile_step_computes_its_outcome(
    suite: Seq<char>,
    out_dir: Seq<char>,
    config: ConfigView,
    world: spec_fn(RequestView) -> ReplyView,
)
    requires
        answers_all(world),
    ensures
        compile_run(suite, out_dir, config, world, compile_opening(suite, out_dir, config), 7)
            == CompileStepView::Done(compile_outcome(suite, out_dir, config, world)),
{
    reveal_with_fuel(compile_run, 8);
}

/// How the run step ends in a world: the checks in their order, each with
/// its own failure, then the verdict on the runtime.
pub open spec fn run_outcome(
    suite: Seq<char>,
    out_dir: Seq<char>,
    config: ConfigView,
    driver: Seq<char>,
    world: spec_fn(RequestView) -> ReplyView,
) -> Result<(), RunErrorView> {
    if world(RequestView::Exists { file: file_in(suite, PROJECT_DESCRIPTOR@) })
        == ReplyView::Exists(false) {
        Err(RunErrorView::SuiteDoesNotExist)
    } else {
        match world(RequestView::Locate { program: config.node }) {
            ReplyView::Located(runtime) => match world(
                RequestView::ReadBytes { file: file_in(suite, EXPECTED_OUTPUT@) },
            ) {
                ReplyView::Bytes(bytes) => if !valid_utf8(bytes) {
                    Err(RunErrorView::ExpectedOutputNotUtf8(bytes))
                } else {
                    match world(
                        RequestView::WriteText {
                            file: file_in(out_dir, HARNESS@),
                            contents: harness_text(decode_utf8(bytes), driver),
                        },
                    ) {
                        ReplyView::Done => match world(
                            RequestView::Spawn { command: run_command(out_dir, runtime) },
                        ) {
                            ReplyView::Exited(output) => run_verdict(output),
                            ReplyView::Failed(e) => Err(RunErrorView::RuntimeProcessFailed(e)),
                            _ => arbitrary(),
                        },
                        ReplyView::Failed(e) => Err(RunErrorView::WritingHarnessFailed(e)),
                        _ => arbitrary(),
                    }
                },
                ReplyView::Unopened(_) => Err(RunErrorView::CannotFindExpectedOutput),
                ReplyView::Failed(e) => Err(RunErrorView::CopyingExpectedOutput(e)),
                _ => arbitrary(),
            },
            ReplyView::NotLocated(e) => Err(RunErrorView::RuntimeNotFound(e)),
            _ => arbitrary(),
        }
    }
}

/// Where the run step stands after it stood at `step` and the world then
/// answered `turns` of its requests.
pub open spec fn run_run(
    suite: Seq<char>,
    out_dir: Seq<char>,
    config: ConfigView,
    driver: Seq<char>,
    world: spec_fn(RequestView) -> ReplyView,
    step: RunStepView,
    turns: nat,
) -> RunStepView
    decreases turns,
{
    if turns == 0 {
        step
    } else {
        match step {
            RunStepView::Ask(state, request) => run_run(
                suite,
                out_dir,
                config,
                driver,
                world,
                run_next(suite, out_dir, config, driver, state, world(request)),
                (turns - 1) as nat,
            ),
            ended => ended,
        }
    }
}

/// The run step's opening move.
pub open spec fn run_opening(
    suite: Seq<char>,
    out_dir: Seq<char>,
    config: ConfigView,
    driver: Seq<char>,
) -> RunStepView {
    run_next(suite, out_dir, config, driver, RunStateView::Start, ReplyView::Done)
}

/// In a world that holds still, the run step ends within five answers,
/// and it ends as [`run_outcome`] says.
pub proof fn run_step_computes_its_outcome(
    suite: Seq<char>,
    out_dir: Seq<char>,
    config: ConfigView,
    driver: Seq<char>,
    world: spec_fn(RequestView) -> ReplyView,
)
    requires
        answers_all(world),
    ensures
        run_run(
            suite,
            out_dir,
            config,
            driver,
            world,
            run_opening(suite, out_dir, config, driver),
            5,
        )
            == RunStepView::Done(run_outcome(suite, out_dir, config, driver, world)),
{
    reveal_with_fuel(run_run, 6);
}

/// Whether the suite is allowed to fail, going by the allowed paths from
/// `from` on: it is when it is the same file as one of them that exists,
/// tried in order. A comparison that fails ends the search and the run.
pub open spec fn allowed_flag(
    context: SuiteContext,
    world: spec_fn(RequestView) -> ReplyView,
    from: nat,
) -> Result<bool, FatalError>
    decreases context.config.allowed_failures.len() - from,
{
    let paths = context.config.allowed_failures;
    if from >= paths.len() {
        Ok(false)
    } else if world(RequestView::Stat { path: paths[from as int] }) == ReplyView::Kind(
        PathKind::Missing,
    ) {
        allowed_flag(context, world, from + 1)
    } else {
        match world(RequestView::SameFile { left: context.suite, right: paths[from as int] }) {
            ReplyView::Same(true) => Ok(true),
            ReplyView::Same(false) => allowed_flag(context, world, from + 1),
            ReplyView::Failed(e) => Err(FatalError::ComparingPaths(e)),
            _ => arbitrary(),
        }
    }
}

/// How a pipeline ends once it has its flag and its output directory: a
/// compile failure, else a run failure with the directory promoted, else
/// the classification of a success.
pub open spec fn outcome_in(
    context: SuiteContext,
    world: spec_fn(RequestView) -> ReplyView,
    allowed: bool,
    out_dir: OutDirView,
) -> SuiteStepView {
    match compile_outcome(context.suite, out_dir.path(), context.config, world) {
        Err(reason) => SuiteStepView::Done(
            Err(CompileAndRunErrorView::CompileFailure { allowed, reason }),
        ),
        Ok(()) => match run_outcome(
            context.suite,
            out_dir.path(),
            context.config,
            context.driver,
            world,
        ) {
            Err(reason) => SuiteStepView::Done(
                Err(
                    CompileAndRunErrorView::RunFailure {
                        allowed,
                        outdir: out_dir.promoted(),
                        reason,
                    },
                ),
            ),
            Ok(()) => SuiteStepView::Done(classify_success(allowed)),
        },
    }
}

/// How a pipeline ends once it has its flag: in the caller's output
/// directory, or in a temporary one if that can be created.
pub open spec fn outcome_from_acquiring(
    context: SuiteContext,
    world: spec_fn(RequestView) -> ReplyView,
    allowed: bool,
) -> SuiteStepView {
    match context.provided_out_dir {
        Some(dir) => outcome_in(context, world, allowed, OutDirView::Provided(dir)),
        None => match world(RequestView::CreateTempDir { prefix: TEMP_DIR_PREFIX@ }) {
            ReplyView::TempDir(dir) => match temp_dir_location(dir) {
                Some(path) => outcome_in(context, world, allowed, OutDirView::Temporary(path)),
                None => SuiteStepView::Abort(FatalError::OutDirNotText),
            },
            ReplyView::Failed(e) => SuiteStepView::Abort(FatalError::CreatingOutDir(e)),
            _ => arbitrary(),
        },
    }
}

/// How a pipeline ends once its flag is known: the build cache is deleted
/// first where that was asked for, and a cache that is there and cannot be
/// deleted ends the run.
pub open spec fn outcome_from_flag(
    context: SuiteContext,
    world: spec_fn(RequestView) -> ReplyView,
    allowed: bool,
) -> SuiteStepView {
    match world(RequestView::RemoveTree { dir: file_in(context.suite, BUILD_CACHE@) }) {
        ReplyView::Failed(e) if context.clear_cache && !is_not_found(e) => SuiteStepView::Abort(
            FatalError::ClearingCache(e),
        ),
        _ => outcome_from_acquiring(context, world, allowed),
    }
}

/// How the pipeline of a suite ends in a world: validation, the flag, the
/// build cache, the output directory, the compile step, the run step and
/// the classification.
pub open spec fn suite_outcome(
    context: SuiteContext,
    world: spec_fn(RequestView) -> ReplyView,
) -> SuiteStepView {
    match world(RequestView::Stat { path: context.suite }) {
        ReplyView::Kind(PathKind::Missing) => SuiteStepView::Done(
            Err(CompileAndRunErrorView::SuiteNotExist),
        ),
        ReplyView::Kind(PathKind::Other) => SuiteStepView::Done(
            Err(CompileAndRunErrorView::SuiteNotDir),
        ),
        _ => if world(RequestView::Exists { file: file_in(context.suite, PROJECT_DESCRIPTOR@) })
            == ReplyView::Exists(false) {
            SuiteStepView::Done(Err(CompileAndRunErrorView::SuiteNotElm))
        } else {
            match allowed_flag(context, world, 0) {
                Ok(allowed) => outcome_from_flag(context, world, allowed),
                Err(fatal) => SuiteStepView::Abort(fatal),
            }
        },
    }
}

/// Where a pipeline stands after it stood at `step` and the world then
/// answered `turns` of its requests.
pub open spec fn suite_run(
    context: SuiteContext,
    world: spec_fn(RequestView) -> ReplyView,
    step: SuiteStepView,
    turns: nat,
) -> SuiteStepView
    decreases turns,
{
    if turns == 0 {
        step
    } else {
        match step {
            SuiteStepView::Ask(state, request) => suite_run(
                context,
                world,
                suite_next(context, state, world(request)),
                (turns - 1) as nat,
            ),
            ended => ended,
        }
    }
}

/// Turns add up: running on after some turns is running all the turns.
proof fn lemma_suite_run_adds(
    context: SuiteContext,
    world: spec_fn(RequestView) -> ReplyView,
    step: SuiteStepView,
    first: nat,
    then: nat,
)
    ensures
        suite_run(context, world, suite_run(context, world, step, first), then) == suite_run(
            context,
            world,
            step,
            first + then,
        ),
    decreases first,
{
    if first > 0 {
        if let SuiteStepView::Ask(state, request) = step {
            lemma_suite_run_adds(
                context,
                world,
                suite_next(context, state, world(request)),
                (first - 1) as nat,
                then,
            );
        }
    }
}

/// A pipeline that has ended within some turns has ended the same way
/// after any greater number of turns.
proof fn lemma_suite_run_stays(
    context: SuiteContext,
    world: spec_fn(RequestView) -> ReplyView,
    step: SuiteStepView,
    turns: nat,
    more: nat,
)
    requires
        !(suite_run(context, world, step, turns) is Ask),
        turns <= more,
    ensures
        suite_run(context, world, step, more) == suite_run(context, world, step, turns),
{
    lemma_suite_run_adds(context, world, step, turns, (more - turns) as nat);
}

/// While the run step is under way, the pipeline moves as the run step
/// does: when the run step ends within `turns` answers, the pipeline has
/// by then acted on how it ended.
proof fn lemma_run_phase(
    context: SuiteContext,
    world: spec_fn(RequestView) -> ReplyView,
    allowed: bool,
    out_dir: OutDirView,
    step: RunStepView,
    turns: nat,
)
    requires
        !(run_run(context.suite, out_dir.path(), context.config, context.driver, world, step, turns)
            is Ask),
    ensures
        suite_run(context, world, after_run_step(allowed, out_dir, step), turns) == after_run_step(
            allowed,
            out_dir,
            run_run(
                context.suite,
                out_dir.path(),
                context.config,
                context.driver,
                world,
                step,
                turns,
            ),
        ),
    decreases turns,
{
    if turns > 0 {
        if let RunStepView::Ask(state, request) = step {
            lemma_run_phase(
                context,
                world,
                allowed,
                out_dir,
                run_next(
                    context.suite,
                    out_dir.path(),
                    context.config,
                    context.driver,
                    state,
                    world(request),
                ),
                (turns - 1) as nat,
            );
        }
    }
}

/// While the compile step is under way, the pipeline moves as the compile
/// step does: when the compile step ends within `turns` answers, then after
/// that many answers or fewer the pipeline acts on how it ended.
proof fn lemma_compile_phase(
    context: SuiteContext,
    world: spec_fn(RequestView) -> ReplyView,
    allowed: bool,
    out_dir: OutDirView,
    step: CompileStepView,
    turns: nat,
) -> (taken: nat)
    requires
        !(compile_run(context.suite, out_dir.path(), context.config, world, step, turns) is Ask),
    ensures
        taken <= turns,
        suite_run(context, world, after_compile_step(context, allowed, out_dir, step), taken)
            == after_compile_step(
            context,
            allowed,
            out_dir,
            compile_run(context.suite, out_dir.path(), context.config, world, step, turns),
        ),
    decreases turns,
{
    match step {
        CompileStepView::Ask(state, request) if turns > 0 => {
            let taken = lemma_compile_phase(
                context,
                world,
                allowed,
                out_dir,
                compile_next(context.suite, out_dir.path(), context.config, state, world(request)),
                (turns - 1) as nat,
            );
            taken + 1
        },
        _ => 0,
    }
}

/// With its flag and its output directory, the pipeline ends within twelve
/// answers, as [`outcome_in`] says.
proof fn lemma_outcome_in(
    context: SuiteContext,
    world: spec_fn(RequestView) -> ReplyView,
    allowed: bool,
    out_dir: OutDirView,
) -> (taken: nat)
    requires
        answers_all(world),
    ensures
        taken <= 12,
        suite_run(context, world, begin_compile(context, allowed, out_dir), taken) == outcome_in(
            context,
            world,
            allowed,
            out_dir,
        ),
        !(outcome_in(context, world, allowed, out_dir) is Ask),
{
    let path = out_dir.path();
    compile_step_computes_its_outcome(context.suite, path, context.config, world);
    let compiled = lemma_compile_phase(
        context,
        world,
        allowed,
        out_dir,
        compile_opening(context.suite, path, context.config),
        7,
    );
    if compile_outcome(context.suite, path, context.config, world) is Ok {
        run_step_computes_its_outcome(context.suite, path, context.config, context.driver, world);
        lemma_run_phase(
            context,
            world,
            allowed,
            out_dir,
            run_opening(context.suite, path, context.config, context.driver),
            5,
        );
        lemma_suite_run_adds(
            context,
            world,
            begin_compile(context, allowed, out_dir),
            compiled,
            5,
        );
        compiled + 5
    } else {
        compiled
    }
}

/// With its flag, and past the build cache, the pipeline ends within
/// thirteen answers, as [`outcome_from_acquiring`] says.
proof fn lemma_outcome_from_acquiring(
    context: SuiteContext,
    world: spec_fn(RequestView) -> ReplyView,
    allowed: bool,
) -> (taken: nat)
    requires
        answers_all(world),
    ensures
        taken <= 13,
        suite_run(context, world, acquire(context, allowed), taken) == outcome_from_acquiring(
            context,
            world,
            allowed,
        ),
        !(outcome_from_acquiring(context, world, allowed) is Ask),
{
    match context.provided_out_dir {
        Some(dir) => lemma_outcome_in(context, world, allowed, OutDirView::Provided(dir)),
        None => {
            let request = RequestView::CreateTempDir { prefix: TEMP_DIR_PREFIX@ };
            let next = suite_next(context, SuiteStateView::Acquiring { allowed }, world(request));
            match world(request) {
                ReplyView::TempDir(dir) => match temp_dir_location(dir) {
                    Some(path) => {
                        let taken = lemma_outcome_in(
                            context,
                            world,
                            allowed,
                            OutDirView::Temporary(path),
                        );
                        taken + 1
                    },
                    None => {
                        assert(suite_run(context, world, acquire(context, allowed), 1)
                            == suite_run(context, world, next, 0));
                        1
                    },
                },
                _ => {
                    assert(suite_run(context, world, acquire(context, allowed), 1) == suite_run(
                        context,
                        world,
                        next,
                        0,
                    ));
                    1
                },
            }
        },
    }
}

/// With its flag, the pipeline ends within fourteen answers, as
/// [`outcome_from_flag`] says.
proof fn lemma_outcome_from_flag(
    context: SuiteContext,
    world: spec_fn(RequestView) -> ReplyView,
    allowed: bool,
) -> (taken: nat)
    requires
        answers_all(world),
    ensures
        taken <= 14,
        suite_run(context, world, with_flag(context, allowed), taken) == outcome_from_flag(
            context,
            world,
            allowed,
        ),
        !(outcome_from_flag(context, world, allowed) is Ask),
{
    let acquired = lemma_outcome_from_acquiring(context, world, allowed);
    if context.clear_cache {
        let request = RequestView::RemoveTree { dir: file_in(context.suite, BUILD_CACHE@) };
        let next = suite_next(context, SuiteStateView::ClearingCache { allowed }, world(request));
        match world(request) {
            ReplyView::Failed(e) if !is_not_found(e) => {
                assert(suite_run(context, world, with_flag(context, allowed), 1) == suite_run(
                    context,
                    world,
                    next,
                    0,
                ));
                1
            },
            _ => acquired + 1,
        }
    } else {
        acquired
    }
}

/// From the allowed path at `from` on, the pipeline finds its flag and
/// ends, within two answers for each path that is left and fourteen more.
proof fn lemma_outcome_from_scan(
    context: SuiteContext,
    world: spec_fn(RequestView) -> ReplyView,
    from: nat,
) -> (taken: nat)
    requires
        answers_all(world),
        from <= context.config.allowed_failures.len(),
    ensures
        taken <= 2 * (context.config.allowed_failures.len() - from) + 14,
        suite_run(context, world, scan_allowed(context, from), taken) == (match allowed_flag(
            context,
            world,
            from,
        ) {
            Ok(allowed) => outcome_from_flag(context, world, allowed),
            Err(fatal) => SuiteStepView::Abort(fatal),
        }),
        allowed_flag(context, world, from) matches Ok(allowed) ==> !(outcome_from_flag(
            context,
            world,
            allowed,
        ) is Ask),
    decreases context.config.allowed_failures.len() - from,
{
    let paths = context.config.allowed_failures;
    if from >= paths.len() {
        lemma_outcome_from_flag(context, world, false)
    } else {
        let stat = RequestView::Stat { path: paths[from as int] };
        let compare = RequestView::SameFile { left: context.suite, right: paths[from as int] };
        let looked = suite_next(
            context,
            SuiteStateView::AllowedExists { index: from },
            world(stat),
        );
        let compared = suite_next(
            context,
            SuiteStateView::AllowedSame { index: from },
            world(compare),
        );
        if world(stat) == ReplyView::Kind(PathKind::Missing) {
            let rest = lemma_outcome_from_scan(context, world, from + 1);
            rest + 1
        } else {
            let rest: nat = match world(compare) {
                ReplyView::Same(true) => lemma_outcome_from_flag(context, world, true),
                ReplyView::Same(false) => lemma_outcome_from_scan(context, world, from + 1),
                _ => 0,
            };
            assert(suite_run(context, world, looked, rest + 1) == suite_run(
                context,
                world,
                compared,
                rest,
            ));
            rest + 2
        }
    }
}

/// The pipeline's opening move.
pub open spec fn suite_opening(context: SuiteContext) -> SuiteStepView {
    suite_next(context, SuiteStateView::Start, ReplyView::Done)
}

/// How many answers the pipeline of a suite needs at most in a world that
/// holds still.
pub open spec fn suite_turns(context: SuiteContext) -> nat {
    2 * context.config.allowed_failures.len() + 16
}

/// In a world that holds still, the pipeline of a suite ends within two
/// answers for each allowed path and sixteen more, and it ends as
/// [`suite_outcome`] says.
pub proof fn suite_pipeline_computes_its_outcome(
    context: SuiteContext,
    world: spec_fn(RequestView) -> ReplyView,
)
    requires
        answers_all(world),
    ensures
        suite_run(context, world, suite_opening(context), suite_turns(context)) == suite_outcome(
            context,
            world,
        ),
        !(suite_outcome(context, world) is Ask),
{
    let stat = RequestView::Stat { path: context.suite };
    let exists = RequestView::Exists { file: file_in(context.suite, PROJECT_DESCRIPTOR@) };
    let scanned = lemma_outcome_from_scan(context, world, 0);
    let taken: nat = if world(stat) == ReplyView::Kind(PathKind::Directory) {
        if world(exists) == ReplyView::Exists(true) {
            scanned + 2
        } else {
            2
        }
    } else {
        1
    };
    assert(suite_run(context, world, suite_opening(context), taken) == suite_outcome(
        context,
        world,
    )) by {
        reveal_with_fuel(suite_run, 3);
        if world(stat) == ReplyView::Kind(PathKind::Directory) && world(exists)
            == ReplyView::Exists(true) {
            lemma_suite_run_adds(context, world, suite_opening(context), 2, scanned);
        }
    }
    lemma_suite_run_stays(context, world, suite_opening(context), taken, suite_turns(context));
}

/// A batch as it has arrived at `step` with `emitted` handed out before.
pub open spec fn arrived(emitted: Seq<Emitted>, step: BatchStepView) -> BatchRun {
    BatchRun { emitted: record(emitted, step), step }
}

/// Where a batch stands after it stood at `run` and then took `turns`
/// turns, each of them an answer of the world to a request or the taking
/// of an outcome that was handed out.
pub open spec fn batch_run(
    context: BatchContext,
    world: spec_fn(RequestView) -> ReplyView,
    run: BatchRun,
    turns: nat,
) -> BatchRun
    decreases turns,
{
    if turns == 0 {
        run
    } else {
        match run.step {
            BatchStepView::Ask(state, request) => batch_run(
                context,
                world,
                arrived(run.emitted, batch_next(context, state, world(request))),
                (turns - 1) as nat,
            ),
            BatchStepView::Yield { then, .. } => batch_run(
                context,
                world,
                arrived(run.emitted, batch_next(context, then, ReplyView::Done)),
                (turns - 1) as nat,
            ),
            _ => run,
        }
    }
}

/// How a batch goes from the suite at `from` on: the outcomes of the
/// suites in order, up to the end of the list, or up to and with the first
/// outcome that counts as a failure where that ends the batch, or up to a
/// suite on which the run is aborted.
pub open spec fn batch_outcome(
    context: BatchContext,
    world: spec_fn(RequestView) -> ReplyView,
    from: nat,
) -> BatchRun
    decreases context.suites.len() - from,
{
    if from >= context.suites.len() {
        BatchRun { emitted: Seq::empty(), step: BatchStepView::Finished }
    } else {
        match suite_outcome(context.suite(from), world) {
            SuiteStepView::Done(outcome) => {
                let here = seq![
                    Emitted { index: from, path: context.suites[from as int], outcome },
                ];
                if context.fail_fast && counts_as_failed(outcome) {
                    BatchRun { emitted: here, step: BatchStepView::Finished }
                } else {
                    let rest = batch_outcome(context, world, from + 1);
                    BatchRun { emitted: here + rest.emitted, step: rest.step }
                }
            },
            SuiteStepView::Abort(fatal) => BatchRun {
                emitted: Seq::empty(),
                step: BatchStepView::Abort(fatal),
            },
            _ => arbitrary(),
        }
    }
}

/// Turns add up: running on after some turns is running all the turns.
proof fn lemma_batch_run_adds(
    context: BatchContext,
    world: spec_fn(RequestView) -> ReplyView,
    run: BatchRun,
    first: nat,
    then: nat,
)
    ensures
        batch_run(context, world, batch_run(context, world, run, first), then) == batch_run(
            context,
            world,
            run,
            first + then,
        ),
    decreases first,
{
    if first > 0 {
        match run.step {
            BatchStepView::Ask(state, request) => {
                lemma_batch_run_adds(
                    context,
                    world,
                    arrived(run.emitted, batch_next(context, state, world(request))),
                    (first - 1) as nat,
                    then,
                );
            },
            BatchStepView::Yield { then: next, .. } => {
                lemma_batch_run_adds(
                    context,
                    world,
                    arrived(run.emitted, batch_next(context, next, ReplyView::Done)),
                    (first - 1) as nat,
                    then,
                );
            },
            _ => {},
        }
    }
}

/// While the suite at `index` is under way, the batch moves as the
/// suite's pipeline does: when the pipeline ends within `turns` answers,
/// then after that many turns or fewer the batch acts on how it ended.
proof fn lemma_suite_phase(
    context: BatchContext,
    world: spec_fn(RequestView) -> ReplyView,
    emitted: Seq<Emitted>,
    index: nat,
    step: SuiteStepView,
    turns: nat,
) -> (taken: nat)
    requires
        index < context.suites.len(),
        !(suite_run(context.suite(index), world, step, turns) is Ask),
    ensures
        taken <= turns,
        batch_run(
            context,
            world,
            arrived(
                emitted,
                after_suite_step(context.fail_fast, index, context.suites[index as int], step),
            ),
            taken,
        ) == arrived(
            emitted,
            after_suite_step(
                context.fail_fast,
                index,
                context.suites[index as int],
                suite_run(context.suite(index), world, step, turns),
            ),
        ),
    decreases turns,
{
    match step {
        SuiteStepView::Ask(state, request) if turns > 0 => {
            let taken = lemma_suite_phase(
                context,
                world,
                emitted,
                index,
                suite_next(context.suite(index), state, world(request)),
                (turns - 1) as nat,
            );
            taken + 1
        },
        _ => 0,
    }
}

/// How many turns a batch needs at most for each of its suites in a world
/// that holds still.
pub open spec fn batch_turns_per_suite(context: BatchContext) -> nat {
    2 * context.config.allowed_failures.len() + 17
}

/// From the suite at `from` on, the batch goes as [`batch_outcome`] says.
proof fn lemma_batch_from(
    context: BatchContext,
    world: spec_fn(RequestView) -> ReplyView,
    emitted: Seq<Emitted>,
    from: nat,
) -> (taken: nat)
    requires
        answers_all(world),
        from <= context.suites.len(),
    ensures
        taken <= (context.suites.len() - from) * batch_turns_per_suite(context),
        batch_run(
            context,
            world,
            arrived(
                emitted,
                batch_next(context, BatchStateView::Next { index: from }, ReplyView::Done),
            ),
            taken,
        ) == (BatchRun {
            emitted: emitted + batch_outcome(context, world, from).emitted,
            step: batch_outcome(context, world, from).step,
        }),
        !(batch_outcome(context, world, from).step is Ask),
        !(batch_outcome(context, world, from).step is Yield),
    decreases context.suites.len() - from,
{
    let per_suite = batch_turns_per_suite(context);
    if from >= context.suites.len() {
        0
    } else {
        let suite = context.suite(from);
        let start = arrived(
            emitted,
            batch_next(context, BatchStateView::Next { index: from }, ReplyView::Done),
        );
        suite_pipeline_computes_its_outcome(suite, world);
        let within = lemma_suite_phase(
            context,
            world,
            emitted,
            from,
            suite_opening(suite),
            suite_turns(suite),
        );
        assert((context.suites.len() - from) * per_suite == (context.suites.len() - from - 1)
            * per_suite + per_suite) by (nonlinear_arith);
        assert((context.suites.len() - from - 1) * per_suite >= 0) by (nonlinear_arith)
            requires
                context.suites.len() - from - 1 >= 0,
                per_suite >= 0,
        ;
        match suite_outcome(suite, world) {
            SuiteStepView::Done(outcome) => {
                let here = Emitted { index: from, path: context.suites[from as int], outcome };
                let handed = arrived(
                    emitted,
                    after_suite_step(
                        context.fail_fast,
                        from,
                        context.suites[from as int],
                        SuiteStepView::Done(outcome),
                    ),
                );
                let then = after_outcome(context.fail_fast, from, outcome);
                let next = arrived(handed.emitted, batch_next(context, then, ReplyView::Done));
                if context.fail_fast && counts_as_failed(outcome) {
                    assert(batch_run(context, world, handed, 1) == batch_run(
                        context,
                        world,
                        next,
                        0,
                    ));
                    lemma_batch_run_adds(context, world, start, within, 1);
                    assert(emitted.push(here) =~= emitted + seq![here]);
                    within + 1
                } else {
                    let rest = lemma_batch_from(context, world, emitted.push(here), from + 1);
                    lemma_batch_run_adds(context, world, start, within, rest + 1);
                    assert(emitted.push(here) + batch_outcome(context, world, from + 1).emitted
                        =~= emitted + (seq![here] + batch_outcome(
                        context,
                        world,
                        from + 1,
                    ).emitted));
                    within + rest + 1
                }
            },
            _ => within,
        }
    }
}

/// A batch that has come to rest within some turns stands the same way
/// after any greater number of turns.
proof fn lemma_batch_run_stays(
    context: BatchContext,
    world: spec_fn(RequestView) -> ReplyView,
    run: BatchRun,
    turns: nat,
    more: nat,
)
    requires
        !(batch_run(context, world, run, turns).step is Ask),
        !(batch_run(context, world, run, turns).step is Yield),
        turns <= more,
    ensures
        batch_run(context, world, run, more) == batch_run(context, world, run, turns),
{
    lemma_batch_run_adds(context, world, run, turns, (more - turns) as nat);
}

/// A batch's opening move, with nothing handed out before it.
pub open spec fn batch_opening(context: BatchContext) -> BatchRun {
    arrived(
        Seq::empty(),
        batch_next(context, BatchStateView::Next { index: 0 }, ReplyView::Done),
    )
}

/// In a world that holds still, a batch comes to rest within a number of
/// turns that the numbers of suites and of allowed paths bound, and it has
/// then handed out what [`batch_outcome`] says: the outcomes of the suites
/// in their order, each as [`suite_outcome`] says, up to the end of the
/// list, or up to and with the first outcome that counts as a failure where
/// that ends the batch.
pub proof fn batch_computes_its_outcome(
    context: BatchContext,
    world: spec_fn(RequestView) -> ReplyView,
)
    requires
        answers_all(world),
    ensures
        batch_run(
            context,
            world,
            batch_opening(context),
            context.suites.len() * batch_turns_per_suite(context),
        ) == batch_outcome(context, world, 0),
{
    let taken = lemma_batch_from(context, world, Seq::empty(), 0);
    lemma_batch_run_stays(
        context,
        world,
        batch_opening(context),
        taken,
        context.suites.len() * batch_turns_per_suite(context),
    );
}

} // verus!
