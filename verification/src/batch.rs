//! The batch runner: the orchestrator applied to a list of suites in
//! order, one outcome handed out per suite, with an early end on the first
//! failure that is not allowed where that policy is switched on.

use crate::config::{CliInstructions, ConfigView};
use crate::in_process::{answer_in_process, is_in_process};
use crate::suite::{
    compile_and_run_step, outcome_view, suite_next, suite_pending, suite_pipeline_advances,
    suite_remaining, takes_any_reply, CompileAndRunError, CompileAndRunErrorView, FatalError,
    SuiteContext, SuiteState, SuiteStateView, SuiteStep, SuiteStepView,
};
use crate::text::texts;
use crate::world::{answers, Reply, ReplyView, Request, RequestView};
use vstd::prelude::*;
use vstd::string::StringExecFns;

verus! {

/// How far a batch has come.
#[derive(Debug)]
pub enum BatchState {
    /// The suite at `index` is next; a batch starts with index zero.
    Next { index: usize },
    /// The suite at `index` is under way.
    Within { index: usize, suite: SuiteState },
    /// The batch was ended early.
    Stopped,
}

/// Mathematical model of a [`BatchState`].
pub enum BatchStateView {
    Next { index: nat },
    Within { index: nat, suite: SuiteStateView },
    Stopped,
}

impl View for BatchState {
    type V = BatchStateView;

    open spec fn view(&self) -> BatchStateView {
        match self {
            BatchState::Next { index } => BatchStateView::Next { index: *index as nat },
            BatchState::Within { index, suite } => BatchStateView::Within {
                index: *index as nat,
                suite: suite@,
            },
            BatchState::Stopped => BatchStateView::Stopped,
        }
    }
}

/// What the batch runner wants next.
#[derive(Debug)]
pub enum BatchStep {
    /// Carry out the request and come back with its reply and this state.
    Ask(BatchState, Request),
    /// The suite at `index`, whose directory is `path`, has ended with
    /// `outcome`. Come back with the state `then` and any reply.
    Yield {
        index: usize,
        path: String,
        outcome: Result<(), CompileAndRunError>,
        then: BatchState,
    },
    /// No suite is left, or the batch was ended early.
    Finished,
    /// The environment is unusable; the whole run must end.
    Abort(FatalError),
}

/// Mathematical model of a [`BatchStep`].
pub enum BatchStepView {
    Ask(BatchStateView, RequestView),
    Yield {
        index: nat,
        path: Seq<char>,
        outcome: Result<(), CompileAndRunErrorView>,
        then: BatchStateView,
    },
    Finished,
    Abort(FatalError),
}

impl View for BatchStep {
    type V = BatchStepView;

    open spec fn view(&self) -> BatchStepView {
        match self {
            BatchStep::Ask(state, request) => BatchStepView::Ask(state@, request@),
            BatchStep::Yield { index, path, outcome, then } => BatchStepView::Yield {
                index: *index as nat,
                path: path@,
                outcome: outcome_view(*outcome),
                then: then@,
            },
            BatchStep::Finished => BatchStepView::Finished,
            BatchStep::Abort(fatal) => BatchStepView::Abort(*fatal),
        }
    }
}

/// What stays the same throughout a batch.
pub struct BatchContext {
    /// The suites' directories, in the order they are run in.
    pub suites: Seq<Seq<char>>,
    pub config: ConfigView,
    /// Whether each suite's build cache is deleted before compiling.
    pub clear_cache: bool,
    /// Whether the first failure that is not allowed ends the batch.
    pub fail_fast: bool,
    /// The harness driver.
    pub driver: Seq<char>,
}

impl BatchContext {
    /// The context of the suite at `index`. A suite in a batch is never
    /// given an output directory: it builds into a temporary one.
    pub open spec fn suite(self, index: nat) -> SuiteContext {
        SuiteContext {
            suite: self.suites[index as int],
            provided_out_dir: None,
            config: self.config,
            clear_cache: self.clear_cache,
            driver: self.driver,
        }
    }
}

/// Whether an outcome counts as a failure of the batch: a compile or run
/// failure that is not allowed. A pass, an allowed failure, an allowed
/// suite that passed and a suite that was no suite do not count.
pub open spec fn counts_as_failed(outcome: Result<(), CompileAndRunErrorView>) -> bool {
    match outcome {
        Err(CompileAndRunErrorView::CompileFailure { allowed, .. }) => !allowed,
        Err(CompileAndRunErrorView::RunFailure { allowed, .. }) => !allowed,
        _ => false,
    }
}

/// Where the batch goes after the suite at `index` ended with `outcome`.
pub open spec fn after_outcome(
    fail_fast: bool,
    index: nat,
    outcome: Result<(), CompileAndRunErrorView>,
) -> BatchStateView {
    if fail_fast && counts_as_failed(outcome) {
        BatchStateView::Stopped
    } else {
        BatchStateView::Next { index: index + 1 }
    }
}

/// What the batch runner does with the latest move of the suite at
/// `index`, whose directory is `path`.
pub open spec fn after_suite_step(
    fail_fast: bool,
    index: nat,
    path: Seq<char>,
    step: SuiteStepView,
) -> BatchStepView {
    match step {
        SuiteStepView::Ask(state, request) => BatchStepView::Ask(
            BatchStateView::Within { index, suite: state },
            request,
        ),
        SuiteStepView::Done(outcome) => BatchStepView::Yield {
            index,
            path,
            outcome,
            then: after_outcome(fail_fast, index, outcome),
        },
        SuiteStepView::Abort(fatal) => BatchStepView::Abort(fatal),
    }
}

/// One outcome that a batch has handed out: the suite's place in the
/// list, its directory and how it ended.
pub struct Emitted {
    pub index: nat,
    pub path: Seq<char>,
    pub outcome: Result<(), CompileAndRunErrorView>,
}

/// A batch under way: the outcomes handed out so far and the runner's
/// latest move.
pub struct BatchRun {
    pub emitted: Seq<Emitted>,
    pub step: BatchStepView,
}

/// The outcomes handed out once the runner has made the move `step`.
pub open spec fn record(emitted: Seq<Emitted>, step: BatchStepView) -> Seq<Emitted> {
    match step {
        BatchStepView::Yield { index, path, outcome, .. } => emitted.push(
            Emitted { index, path, outcome },
        ),
        _ => emitted,
    }
}

/// The batch runner's transition function.
pub open spec fn batch_next(
    context: BatchContext,
    state: BatchStateView,
    reply: ReplyView,
) -> BatchStepView {
    match state {
        BatchStateView::Next { index } => if index < context.suites.len() {
            after_suite_step(
                context.fail_fast,
                index,
                context.suites[index as int],
                suite_next(context.suite(index), SuiteStateView::Start, reply),
            )
        } else {
            BatchStepView::Finished
        },
        BatchStateView::Within { index, suite } => if index < context.suites.len() {
            after_suite_step(
                context.fail_fast,
                index,
                context.suites[index as int],
                suite_next(context.suite(index), suite, reply),
            )
        } else {
            BatchStepView::Finished
        },
        BatchStateView::Stopped => BatchStepView::Finished,
    }
}

/// The context of the batch that [`compile_and_run_suites`] is called for.
pub open spec fn batch_context(
    suites: &Vec<String>,
    instructions: &CliInstructions,
    driver: &str,
) -> BatchContext {
    BatchContext {
        suites: texts(suites@),
        config: instructions.config@,
        clear_cache: instructions.clear_elm_stuff,
        fail_fast: instructions.fail_fast,
        driver: driver@,
    }
}

/// Whether an outcome counts as a failure of the batch.
pub fn is_failure(outcome: &Result<(), CompileAndRunError>) -> (failed: bool)
    ensures
        failed == counts_as_failed(outcome_view(*outcome)),
{
    match outcome {
        Err(CompileAndRunError::CompileFailure { allowed, .. }) => !*allowed,
        Err(CompileAndRunError::RunFailure { allowed, .. }) => !*allowed,
        _ => false,
    }
}

/// Acts on the latest move of the suite at `index`, whose directory is
/// `path`.
fn continue_suite(
    fail_fast: bool,
    index: usize,
    path: &str,
    step: SuiteStep,
) -> (next: BatchStep)
    requires
        index < usize::MAX,
    ensures
        next@ == after_suite_step(fail_fast, index as nat, path@, step@),
{
    match step {
        SuiteStep::Ask(state, request) => BatchStep::Ask(
            BatchState::Within { index, suite: state },
            request,
        ),
        SuiteStep::Done(outcome) => {
            let then = if fail_fast && is_failure(&outcome) {
                BatchState::Stopped
            } else {
                BatchState::Next { index: index + 1 }
            };
            BatchStep::Yield { index, path: String::from_str(path), outcome, then }
        },
        SuiteStep::Abort(fatal) => BatchStep::Abort(fatal),
    }
}

/// One transition of the batch over `suites`: what the batch does in
/// `state` when it is given `reply`, whatever the reply is.
pub fn compile_and_run_suites_step(
    suites: &Vec<String>,
    instructions: &CliInstructions,
    driver: &str,
    state: BatchState,
    reply: Reply,
) -> (next: BatchStep)
    ensures
        next@ == batch_next(batch_context(suites, instructions, driver), state@, reply@),
{
    let (index, suite_state) = match state {
        BatchState::Next { index } => (index, SuiteState::Start),
        BatchState::Within { index, suite } => (index, suite),
        BatchState::Stopped => {
            return BatchStep::Finished;
        },
    };
    if index >= suites.len() {
        return BatchStep::Finished;
    }
    let ghost context = batch_context(suites, instructions, driver);
    let suite = suites[index].as_str();
    let step = compile_and_run_step(
        suite,
        None,
        instructions,
        driver,
        suite_state,
        reply,
    );
    continue_suite(instructions.fail_fast, index, suite, step)
}

/// How many answers one suite of a batch can need at most, and one more.
pub open spec fn suite_budget(context: BatchContext) -> nat {
    2 * context.config.allowed_failures.len() + 21
}

/// How many turns a batch can still need before it has finished.
pub open spec fn batch_remaining(context: BatchContext, state: BatchStateView) -> nat {
    let suites = context.suites.len();
    match state {
        BatchStateView::Next { index } => if index < suites {
            ((suites - index) * suite_budget(context)) as nat
        } else {
            0
        },
        BatchStateView::Within { index, suite } => if index < suites {
            ((suites - index - 1) * suite_budget(context) + suite_remaining(
                context.suite(index),
                suite,
            ) + 1) as nat
        } else {
            0
        },
        BatchStateView::Stopped => 0,
    }
}

/// Whether `request` is what a state of the batch waits on: the state is
/// within a suite that waits on it and takes no other reply.
pub open spec fn batch_waits_on(
    context: BatchContext,
    state: BatchStateView,
    request: RequestView,
) -> bool {
    state matches BatchStateView::Within { index, suite } && index < context.suites.len()
        && request == suite_pending(context.suite(index), suite) && !takes_any_reply(
        context.suite(index),
        suite,
    )
}

/// Whether the reply that a state of the batch is handed answers what the
/// state waits on. Between two suites, and in a state that takes any
/// reply, every reply does.
pub open spec fn batch_is_answered(
    context: BatchContext,
    state: BatchStateView,
    reply: ReplyView,
) -> bool {
    match state {
        BatchStateView::Within { index, suite } => {
            ||| index >= context.suites.len()
            ||| takes_any_reply(context.suite(index), suite)
            ||| answers(suite_pending(context.suite(index), suite), reply)
        },
        _ => true,
    }
}

/// A batch neither stalls nor loses its place. A reply that does not
/// answer the pending request leaves the state as it is and has the
/// request made again. Every other turn brings the batch nearer to its end:
/// the state that comes with a request or with an outcome has fewer turns
/// left than the state before, so that a batch whose requests are answered
/// finishes.
pub proof fn batch_advances(context: BatchContext, state: BatchStateView, reply: ReplyView)
    ensures
        !batch_is_answered(context, state, reply) ==> (batch_next(context, state, reply)
            matches BatchStepView::Ask(next, _) && next == state),
        batch_is_answered(context, state, reply) ==> match batch_next(context, state, reply) {
            BatchStepView::Ask(next, _) => batch_remaining(context, next) < batch_remaining(
                context,
                state,
            ),
            BatchStepView::Yield { then, .. } => batch_remaining(context, then) < batch_remaining(
                context,
                state,
            ),
            _ => true,
        },
        batch_next(context, state, reply) matches BatchStepView::Ask(next, request)
            ==> batch_waits_on(context, next, request),
{
    let suites = context.suites.len();
    let budget = suite_budget(context);
    assert forall|left: int| left >= 0 implies #[trigger] (left * budget) >= 0 by {
        assert(left * budget >= 0) by (nonlinear_arith)
            requires
                left >= 0,
                budget >= 0,
        ;
    }
    match state {
        BatchStateView::Next { index } => {
            if index < suites {
                suite_pipeline_advances(context.suite(index), SuiteStateView::Start, reply);
                assert((suites - index) * budget == (suites - index - 1) * budget + budget)
                    by (nonlinear_arith);
            }
        },
        BatchStateView::Within { index, suite } => {
            if index < suites {
                suite_pipeline_advances(context.suite(index), suite, reply);
            }
        },
        BatchStateView::Stopped => {},
    }
}

/// Where a batch stands after it stood at `step` and was then given
/// `replies` one by one, for as long as it asked. A move that hands out an
/// outcome, ends the batch or aborts it is not gone beyond.
pub open spec fn batch_fed(
    context: BatchContext,
    step: BatchStepView,
    replies: Seq<ReplyView>,
) -> BatchStepView
    decreases replies.len(),
{
    if replies.len() == 0 {
        step
    } else {
        match batch_fed(context, step, replies.drop_last()) {
            BatchStepView::Ask(state, _) => batch_next(context, state, replies.last()),
            other => other,
        }
    }
}

/// Whether the batch asks for something that the library carries out
/// itself.
pub open spec fn batch_asks_in_process(step: BatchStepView) -> bool {
    step matches BatchStepView::Ask(_, request) && is_in_process(request)
}

/// Whether `end` is where the batch comes to rest from `step` when the
/// library answers what it can: `answered` are replies that the library
/// gave, each to a request that it carries out itself and each an answer to
/// that request, and `end` asks for nothing of that kind.
pub open spec fn batch_settles(
    context: BatchContext,
    step: BatchStepView,
    answered: Seq<ReplyView>,
    end: BatchStepView,
) -> bool {
    &&& end == batch_fed(context, step, answered)
    &&& !batch_asks_in_process(end)
    &&& forall|k: int|
        0 <= k < answered.len() ==> (#[trigger] batch_fed(context, step, answered.take(k))
            matches BatchStepView::Ask(_, request) && is_in_process(request) && answers(
            request,
            answered[k],
        ))
}

/// The batch over `suites`.
///
/// Start with [`BatchState::Next`] at index zero and any reply. On
/// [`BatchStep::Ask`], carry out the request and call again with the state
/// that came with it; on [`BatchStep::Yield`], take the outcome of the
/// suite at the index given and call again with the state given. The
/// outcomes come in the order of `suites`, one per suite, until
/// [`BatchStep::Finished`].
///
/// This is [`compile_and_run_suites_step`], followed by more of it for as
/// long as the batch asks for something that the library carries out
/// itself. What is handed back is the first move that needs the caller.
pub fn compile_and_run_suites(
    suites: &Vec<String>,
    instructions: &CliInstructions,
    driver: &str,
    state: BatchState,
    reply: Reply,
) -> (next: BatchStep)
    ensures
        exists|answered: Seq<ReplyView>|
            batch_settles(
                batch_context(suites, instructions, driver),
                batch_next(batch_context(suites, instructions, driver), state@, reply@),
                answered,
                next@,
            ),
        !batch_asks_in_process(
            batch_next(batch_context(suites, instructions, driver), state@, reply@),
        ) ==> next@ == batch_next(batch_context(suites, instructions, driver), state@, reply@),
{
    let ghost context = batch_context(suites, instructions, driver);
    let ghost first = batch_next(context, state@, reply@);
    let ghost mut answered: Seq<ReplyView> = Seq::empty();
    let mut step = compile_and_run_suites_step(suites, instructions, driver, state, reply);
    proof {
        batch_advances(context, state@, reply@);
    }
    loop
        invariant
            context == batch_context(suites, instructions, driver),
            first == batch_next(context, state@, reply@),
            step@ == batch_fed(context, first, answered),
            answered.len() > 0 ==> batch_asks_in_process(first),
            step@ matches BatchStepView::Ask(next, request) ==> batch_waits_on(
                context,
                next,
                request,
            ),
            forall|k: int|
                0 <= k < answered.len() ==> (#[trigger] batch_fed(context, first, answered.take(k))
                    matches BatchStepView::Ask(_, request) && is_in_process(request) && answers(
                    request,
                    answered[k],
                )),
        ensures
            batch_settles(context, first, answered, step@),
            !batch_asks_in_process(first) ==> step@ == first,
        decreases
            match step@ {
                BatchStepView::Ask(next, _) => batch_remaining(context, next),
                _ => 0,
            },
    {
        let (next, given) = match step {
            BatchStep::Ask(next, request) => match answer_in_process(&request) {
                Some(given) => (next, given),
                None => {
                    step = BatchStep::Ask(next, request);
                    break ;
                },
            },
            other => {
                step = other;
                break ;
            },
        };
        proof {
            let longer = answered.push(given@);
            batch_advances(context, next@, given@);
            assert(longer.take(answered.len() as int) == answered);
            assert forall|k: int| 0 <= k < answered.len() implies longer.take(k)
                == answered.take(k) by {}
            answered = longer;
        }
        step = compile_and_run_suites_step(suites, instructions, driver, next, given);
    }
    step
}

} // verus!
