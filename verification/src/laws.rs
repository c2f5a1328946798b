//! What holds of the pipeline whatever the world replies.
//!
//! The laws are stated over the transition functions that the contracts of
//! [`crate::compile::compile`], [`crate::run::run`],
//! [`crate::suite::compile_and_run`] and
//! [`crate::batch::compile_and_run_suites`] are stated over.

use crate::batch::{
    after_outcome, batch_next, counts_as_failed, record, BatchContext, BatchRun, BatchStateView,
    BatchStepView, Emitted,
};
use crate::compile::{
    compile_fed, compile_next, CompileErrorView, CompileStateView, CompileStepView,
};
use crate::config::ConfigView;
use crate::layout::DEFAULT_TARGET;
use crate::run::{is_benign_notice, run_next, run_verdict, RunErrorView, RunStepView};
use crate::suite::{
    suite_next, CompileAndRunErrorView, SuiteContext, SuiteStateView, SuiteStepView,
};
use crate::world::{is_not_found, PathKind, ProcessOutputView, ReplyView, RequestView};
use vstd::prelude::*;

verus! {

/// Where the compile step stands after it was opened and then given
/// `replies` one by one.
pub open spec fn compile_trace(
    suite: Seq<char>,
    out_dir: Seq<char>,
    config: ConfigView,
    replies: Seq<ReplyView>,
) -> CompileStepView {
    compile_fed(
        suite,
        out_dir,
        config,
        compile_next(suite, out_dir, config, CompileStateView::Start, ReplyView::Done),
        replies,
    )
}

/// Whether the compile step asks to have the compiler run.
pub open spec fn invokes_compiler(step: CompileStepView) -> bool {
    step matches CompileStepView::Ask(_, RequestView::Spawn { .. })
}

/// Told neither that the descriptor exists nor that the output directory is
/// something else than a directory, the compile step gets no further than
/// asking for the descriptor; the induction behind
/// [`suite_without_descriptor_is_never_compiled`].
proof fn lemma_compile_without_descriptor(
    suite: Seq<char>,
    out_dir: Seq<char>,
    config: ConfigView,
    replies: Seq<ReplyView>,
)
    requires
        forall|i: int| 0 <= i < replies.len() ==> replies[i] != ReplyView::Exists(true),
        forall|i: int| 0 <= i < replies.len() ==> replies[i] != ReplyView::Kind(PathKind::Other),
    ensures
        match compile_trace(suite, out_dir, config, replies) {
            CompileStepView::Ask(state, request) => {
                &&& state is OutDirKind || state is OutDirCreated || state is Descriptor
                &&& !(request is Spawn)
            },
            CompileStepView::Done(result) => result == Err::<(), CompileErrorView>(
                CompileErrorView::SuiteDoesNotExist,
            ),
        },
    decreases replies.len(),
{
    if replies.len() > 0 {
        lemma_compile_without_descriptor(suite, out_dir, config, replies.drop_last());
    }
}

/// A suite without a project descriptor is never compiled. Where no reply
/// says that the descriptor exists, and none says that the output
/// directory is something other than a directory, the compile step never
/// asks for the compiler to be run, however many replies it is given, and
/// if it has ended, it has ended with `SuiteDoesNotExist`.
pub proof fn suite_without_descriptor_is_never_compiled(
    suite: Seq<char>,
    out_dir: Seq<char>,
    config: ConfigView,
    replies: Seq<ReplyView>,
)
    requires
        forall|i: int| 0 <= i < replies.len() ==> replies[i] != ReplyView::Exists(true),
        forall|i: int| 0 <= i < replies.len() ==> replies[i] != ReplyView::Kind(PathKind::Other),
    ensures
        forall|k: int|
            0 <= k <= replies.len() ==> !invokes_compiler(
                #[trigger] compile_trace(suite, out_dir, config, replies.take(k)),
            ),
        compile_trace(suite, out_dir, config, replies) matches CompileStepView::Done(result)
            ==> result == Err::<(), CompileErrorView>(CompileErrorView::SuiteDoesNotExist),
{
    assert forall|k: int| 0 <= k <= replies.len() implies !invokes_compiler(
        #[trigger] compile_trace(suite, out_dir, config, replies.take(k)),
    ) by {
        lemma_compile_without_descriptor(suite, out_dir, config, replies.take(k));
    }
    lemma_compile_without_descriptor(suite, out_dir, config, replies);
}

/// The compile step answers a missing project descriptor with
/// `SuiteDoesNotExist`, at once.
pub proof fn missing_descriptor_ends_compile_step(
    suite: Seq<char>,
    out_dir: Seq<char>,
    config: ConfigView,
)
    ensures
        compile_next(suite, out_dir, config, CompileStateView::Descriptor, ReplyView::Exists(false))
            == CompileStepView::Done(Err(CompileErrorView::SuiteDoesNotExist)),
{
}

/// Only a manifest that is not there is made up for by the default entry
/// point. A manifest that is there and cannot be opened, or that is opened
/// and cannot be read, ends the compile step with `ReadingTargetsFailed`
/// and the reason, and neither is the compiler looked for nor is it run.
pub proof fn manifest_that_cannot_be_read_ends_compile_step(
    suite: Seq<char>,
    out_dir: Seq<char>,
    config: ConfigView,
    reason: std::io::Error,
)
    ensures
        compile_next(suite, out_dir, config, CompileStateView::Targets, ReplyView::Failed(reason))
            == CompileStepView::Done(Err(CompileErrorView::ReadingTargetsFailed(reason))),
        !is_not_found(reason) ==> compile_next(
            suite,
            out_dir,
            config,
            CompileStateView::Targets,
            ReplyView::Unopened(reason),
        ) == CompileStepView::Done(Err(CompileErrorView::ReadingTargetsFailed(reason))),
        is_not_found(reason) ==> compile_next(
            suite,
            out_dir,
            config,
            CompileStateView::Targets,
            ReplyView::Unopened(reason),
        ) == CompileStepView::Ask(
            CompileStateView::Compiler { roots: seq![DEFAULT_TARGET@] },
            RequestView::Locate { program: config.elm_compiler },
        ),
{
}

/// The verdict on a runtime that exited with code zero: output on its
/// standard output is rejected whatever its diagnostic stream holds;
/// silence on both streams passes; and so does silence on the standard
/// output with exactly a benign notice on the diagnostic stream.
pub proof fn verdict_on_successful_runtime(output: ProcessOutputView)
    requires
        output.success(),
    ensures
        output.stdout.len() > 0 ==> run_verdict(output) == Err::<(), RunErrorView>(
            RunErrorView::UnexpectedOutputProduced(output),
        ),
        output.stdout.len() == 0 && output.stderr.len() == 0 ==> run_verdict(output) == Ok::<
            (),
            RunErrorView,
        >(()),
        output.stdout.len() == 0 && is_benign_notice(output.stderr) ==> run_verdict(output)
            == Ok::<(), RunErrorView>(()),
{
}

/// The allowed-failure flag that a state of the orchestrator carries, once
/// it has been computed.
pub open spec fn flag_of(state: SuiteStateView) -> Option<bool> {
    match state {
        SuiteStateView::ClearingCache { allowed } => Some(allowed),
        SuiteStateView::Acquiring { allowed } => Some(allowed),
        SuiteStateView::Compiling { allowed, .. } => Some(allowed),
        SuiteStateView::Running { allowed, .. } => Some(allowed),
        _ => None,
    }
}

/// The run step is entered only from a compile step that succeeded, and
/// a compile step that failed ends the pipeline with that failure: after a
/// failed compile nothing is run.
pub proof fn run_step_follows_compile_success(
    context: SuiteContext,
    state: SuiteStateView,
    reply: ReplyView,
)
    ensures
        suite_next(context, state, reply) matches SuiteStepView::Ask(
            SuiteStateView::Running { .. },
            _,
        ) ==> {
            ||| state is Running
            ||| state matches SuiteStateView::Compiling { out_dir, step, .. } && compile_next(
                context.suite,
                out_dir.path(),
                context.config,
                step,
                reply,
            ) == CompileStepView::Done(Ok(()))
        },
        state matches SuiteStateView::Compiling { allowed, out_dir, step } ==> (compile_next(
            context.suite,
            out_dir.path(),
            context.config,
            step,
            reply,
        ) matches CompileStepView::Done(Err(reason)) ==> suite_next(context, state, reply)
            == SuiteStepView::Done(
            Err(CompileAndRunErrorView::CompileFailure { allowed, reason }),
        )),
{
}

/// The allowed-failure flag is computed once. From the moment a state
/// carries it, every later state carries the same flag, a compile failure
/// and a run failure are classified with it, a pass is reported only where
/// it is false and the anomaly of an allowed suite that passed only where
/// it is true, and the pipeline does not go back to validating.
pub proof fn allowed_flag_is_fixed(context: SuiteContext, state: SuiteStateView, reply: ReplyView)
    requires
        flag_of(state) is Some,
    ensures
        match suite_next(context, state, reply) {
            SuiteStepView::Ask(next, _) => flag_of(next) == flag_of(state),
            SuiteStepView::Done(Ok(())) => flag_of(state) == Some(false),
            SuiteStepView::Done(Err(CompileAndRunErrorView::CompileFailure { allowed, .. })) => {
                flag_of(state) == Some(allowed)
            },
            SuiteStepView::Done(Err(CompileAndRunErrorView::RunFailure { allowed, .. })) => {
                flag_of(state) == Some(allowed)
            },
            SuiteStepView::Done(Err(CompileAndRunErrorView::ExpectedFailure)) => flag_of(state)
                == Some(true),
            SuiteStepView::Done(Err(_)) => false,
            SuiteStepView::Abort(_) => true,
        },
{
}

/// A suite that is the same file as an allowed path that exists is
/// allowed to fail: the pipeline goes on with the flag set.
pub proof fn matching_allowed_path_sets_flag(context: SuiteContext, index: nat)
    requires
        index < context.config.allowed_failures.len(),
    ensures
        suite_next(context, SuiteStateView::AllowedSame { index }, ReplyView::Same(true))
            matches SuiteStepView::Ask(next, _) && flag_of(next) == Some(true),
{
}

/// A suite that is allowed to fail and whose run step succeeds is reported
/// as `ExpectedFailure`; no state that carries a set flag leads to a pass.
pub proof fn allowed_suite_that_passes_is_an_anomaly(
    context: SuiteContext,
    state: SuiteStateView,
    reply: ReplyView,
)
    requires
        flag_of(state) == Some(true),
    ensures
        suite_next(context, state, reply) != SuiteStepView::Done(Ok(())),
        state matches SuiteStateView::Running { out_dir, step, .. } && run_next(
            context.suite,
            out_dir.path(),
            context.config,
            context.driver,
            step,
            reply,
        ) == RunStepView::Done(Ok(())) ==> suite_next(context, state, reply)
            == SuiteStepView::Done(Err(CompileAndRunErrorView::ExpectedFailure)),
{
}

/// The output directory of a pipeline is never exchanged: while the
/// pipeline asks, its states hold the directory they held before, and a run
/// failure reports that directory promoted, so that it is never temporary.
pub proof fn output_directory_is_promoted_on_run_failure(
    context: SuiteContext,
    state: SuiteStateView,
    reply: ReplyView,
)
    ensures
        (state matches SuiteStateView::Compiling { out_dir, .. } ==> match suite_next(
            context,
            state,
            reply,
        ) {
            SuiteStepView::Ask(SuiteStateView::Compiling { out_dir: next, .. }, _) => next
                == out_dir,
            SuiteStepView::Ask(SuiteStateView::Running { out_dir: next, .. }, _) => next
                == out_dir,
            SuiteStepView::Ask(_, _) => false,
            SuiteStepView::Done(Err(CompileAndRunErrorView::RunFailure { outdir, .. })) => outdir
                == out_dir.promoted(),
            _ => true,
        }),
        (state matches SuiteStateView::Running { out_dir, .. } ==> match suite_next(
            context,
            state,
            reply,
        ) {
            SuiteStepView::Ask(SuiteStateView::Running { out_dir: next, .. }, _) => next
                == out_dir,
            SuiteStepView::Ask(_, _) => false,
            SuiteStepView::Done(Err(CompileAndRunErrorView::RunFailure { outdir, .. })) => outdir
                == out_dir.promoted(),
            _ => true,
        }),
        suite_next(context, state, reply) matches SuiteStepView::Done(
            Err(CompileAndRunErrorView::RunFailure { outdir, .. }),
        ) ==> !(outdir is Temporary),
{
}

/// Where a batch stands after it was opened and then given `replies` one
/// by one, each to the state that the runner's latest move named.
pub open spec fn batch_trace(context: BatchContext, replies: Seq<ReplyView>) -> BatchRun
    decreases replies.len(),
{
    if replies.len() == 0 {
        let step = batch_next(context, BatchStateView::Next { index: 0 }, ReplyView::Done);
        BatchRun { emitted: record(Seq::empty(), step), step }
    } else {
        let before = batch_trace(context, replies.drop_last());
        match before.step {
            BatchStepView::Ask(state, _) => {
                let step = batch_next(context, state, replies.last());
                BatchRun { emitted: record(before.emitted, step), step }
            },
            BatchStepView::Yield { then, .. } => {
                let step = batch_next(context, then, replies.last());
                BatchRun { emitted: record(before.emitted, step), step }
            },
            _ => before,
        }
    }
}

/// Whether none of the outcomes before `end` counts as a failure.
pub open spec fn none_failed_before(emitted: Seq<Emitted>, end: int) -> bool {
    forall|k: int|
        0 <= k < end && k < emitted.len() ==> !counts_as_failed(#[trigger] emitted[k].outcome)
}

/// What holds of a batch at every moment; the induction behind
/// [`batch_hands_out_outcomes_in_order`].
spec fn batch_invariant(context: BatchContext, run: BatchRun) -> bool {
    let handed_out = run.emitted.len();
    &&& forall|k: int|
        0 <= k < handed_out ==> (#[trigger] run.emitted[k]).index == k && run.emitted[k].path
            == context.suites[k]
    &&& handed_out <= context.suites.len()
    &&& context.fail_fast ==> none_failed_before(run.emitted, handed_out - 1)
    &&& match run.step {
        BatchStepView::Ask(BatchStateView::Within { index, .. }, _) => {
            &&& index == handed_out
            &&& index < context.suites.len()
            &&& context.fail_fast ==> none_failed_before(run.emitted, handed_out as int)
        },
        BatchStepView::Ask(_, _) => false,
        BatchStepView::Yield { index, path, outcome, then } => {
            &&& handed_out > 0
            &&& run.emitted.last() == Emitted { index, path, outcome }
            &&& then == after_outcome(context.fail_fast, index, outcome)
        },
        BatchStepView::Finished => {
            ||| handed_out == context.suites.len()
            ||| context.fail_fast && handed_out > 0 && counts_as_failed(
                run.emitted.last().outcome,
            )
        },
        BatchStepView::Abort(_) => true,
    }
}

/// The invariant holds when a batch is opened and every turn keeps it.
proof fn lemma_batch_invariant(context: BatchContext, replies: Seq<ReplyView>)
    ensures
        batch_invariant(context, batch_trace(context, replies)),
    decreases replies.len(),
{
    if replies.len() > 0 {
        lemma_batch_invariant(context, replies.drop_last());
    }
}

/// A batch hands out its outcomes in the order of the suites, one per
/// suite and without a gap, each with the directory of its suite. Where
/// the first failure ends the batch, nothing is handed out after an outcome
/// that counts as a failure. And a batch that has finished has either
/// handed out an outcome for every suite, or was ended by such a failure.
pub proof fn batch_hands_out_outcomes_in_order(context: BatchContext, replies: Seq<ReplyView>)
    ensures
        ({
            let run = batch_trace(context, replies);
            &&& run.emitted.len() <= context.suites.len()
            &&& forall|k: int|
                0 <= k < run.emitted.len() ==> (#[trigger] run.emitted[k]).index == k
                    && run.emitted[k].path == context.suites[k]
            &&& context.fail_fast ==> forall|k: int|
                0 <= k < run.emitted.len() - 1 ==> !counts_as_failed(
                    #[trigger] run.emitted[k].outcome,
                )
            &&& run.step is Finished ==> {
                ||| run.emitted.len() == context.suites.len()
                ||| context.fail_fast && run.emitted.len() > 0 && counts_as_failed(
                    run.emitted.last().outcome,
                )
            }
        }),
{
    lemma_batch_invariant(context, replies);
}

/// An outcome is handed out with the place and the directory of the suite
/// it belongs to. After it the batch either goes on with the next suite or,
/// where the first failure ends the batch and the outcome counts as one,
/// stops; a batch that has stopped asks for nothing more.
pub proof fn failure_ends_batch_that_fails_fast(
    context: BatchContext,
    state: BatchStateView,
    reply: ReplyView,
)
    ensures
        batch_next(context, state, reply) matches BatchStepView::Yield {
            index,
            path,
            outcome,
            then,
        } ==> index < context.suites.len() && path == context.suites[index as int] && then
            == (if context.fail_fast && counts_as_failed(outcome) {
            BatchStateView::Stopped
        } else {
            BatchStateView::Next { index: index + 1 }
        }),
        batch_next(context, BatchStateView::Stopped, reply) == BatchStepView::Finished,
{
}

} // verus!
