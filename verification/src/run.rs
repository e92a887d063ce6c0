//! Runs a context inside a JavaScript call.
//!
//! A run performs an action, makes a JavaScript call the current one, advances the top-level
//! future until it stalls again, and goes back to the previous call. A [bare](RunMode::Bare)
//! run makes the call the current one first, and then performs the action. If nobody else
//! holds the context by then, it is destroyed while the call is still there.
//!
//! A [RunWithContext] decides what is to be done next. Whoever performs it tells the run
//! what came of it.

use futures::executor::LocalPool;
use vstd::prelude::*;

use crate::context::{ContextView, JsAsyncContext, NOT_BLOCKED_ON_JS, NOT_CLEANED_UP, OUTLIVED};
use crate::util::{concatenated, describe_any, panic_message, PanicPayload};

verus! {

/// What a run does about panics and exceptions.
#[derive(Clone, Copy, Debug, PartialEq, Eq, Structural)]
pub enum RunMode {
    /// The action has the JavaScript call to itself. Nothing may escape from the run:
    /// there is nobody to handle it, so the process is aborted.
    Guarded,
    /// The action finds the JavaScript call entered. Panics go on to the caller.
    Bare,
}

/// How far a run has come.
pub enum RunStage<C> {
    /// The action is being performed. A bare run has entered the JavaScript call already.
    Acting { previous: Option<C> },
    /// The JavaScript call is to be entered.
    Entering,
    /// The pool is being run.
    Advancing { previous: Option<C> },
    /// It is to be found out whether anybody else holds the context.
    Leaving { previous: Option<C> },
    /// Everything is done but for what escaped.
    Concluding,
}

/// What came of an action.
pub enum RunEvent<C> {
    /// The action was performed.
    ActionReturned,
    /// This gives access to the JavaScript call.
    Entered(C),
    /// No task in the pool can make progress.
    PoolStalled(LocalPool),
    /// Performing the action, or running the pool, panicked.
    Unwound,
    /// The run holds the only reference to the context.
    LastReference,
    /// Others hold the context too.
    OtherReferences,
}

/// What is to be done next.
pub enum RunAction {
    /// Perform what the run was made for.
    PerformAction,
    /// Make the JavaScript call accessible to others.
    Enter,
    /// Run the pool until no task in it can make progress.
    RunPool(LocalPool),
    /// Panic with this message, inside the run.
    Panic(&'static str),
    /// Find out whether anybody else holds the context.
    TryUnwrap,
    /// [Destroy](JsAsyncContext::destroy) the context.
    Destroy,
    /// See what escaped from the run.
    Conclude,
}

/// What escaped from a run.
pub enum RunOutcome {
    Returned,
    /// An exception, with its text.
    Threw(String),
    Panicked(PanicPayload),
}

/// What to do at the end of a run.
pub enum Conclusion {
    Return,
    /// Print the message and abort the process.
    Abort(String),
    /// Let the panic go on.
    Resume,
}

/// [Conclusion], over the text of its message.
pub enum ConclusionView {
    Return,
    Abort(Seq<char>),
    Resume,
}

impl View for Conclusion {
    type V = ConclusionView;

    open spec fn view(&self) -> ConclusionView {
        match *self {
            Conclusion::Return => ConclusionView::Return,
            Conclusion::Abort(message) => ConclusionView::Abort(message@),
            Conclusion::Resume => ConclusionView::Resume,
        }
    }
}

/// One run of a context in a JavaScript call.
pub struct RunWithContext<C> {
    pub mode: RunMode,
    pub stage: RunStage<C>,
}

/// A step of a run: where it goes, what it makes of the context, and what it asks for.
pub struct RunStep<C> {
    pub run: RunWithContext<C>,
    pub context: ContextView<C>,
    pub action: RunAction,
}

/// The first step of a run.
pub open spec fn run_start<C>(mode: RunMode) -> (RunWithContext<C>, RunAction) {
    match mode {
        RunMode::Guarded => (
            RunWithContext { mode, stage: RunStage::Acting { previous: None } },
            RunAction::PerformAction,
        ),
        RunMode::Bare => (RunWithContext { mode, stage: RunStage::Entering }, RunAction::Enter),
    }
}

impl<C> RunWithContext<C> {
    /// The event can happen at this stage of the run.
    pub open spec fn expects(self, event: RunEvent<C>) -> bool {
        match self.stage {
            RunStage::Acting { .. } => event is ActionReturned || event is Unwound,
            RunStage::Entering => event is Entered,
            RunStage::Advancing { .. } => event is PoolStalled || event is Unwound,
            RunStage::Leaving { .. } => event is LastReference || event is OtherReferences,
            RunStage::Concluding => false,
        }
    }

    /// Takes the pool out of the context and asks for it to be run.
    ///
    /// Without a pool the run is inside of another run of the same context, which goes on
    /// with the pool later.
    pub open spec fn advance(self, context: ContextView<C>, previous: Option<C>) -> RunStep<C> {
        match context.pool {
            Some(pool) => RunStep {
                run: RunWithContext { mode: self.mode, stage: RunStage::Advancing { previous } },
                context: ContextView { pool: None, ..context },
                action: RunAction::RunPool(pool),
            },
            None => RunStep {
                run: RunWithContext { mode: self.mode, stage: RunStage::Leaving { previous } },
                context,
                action: RunAction::TryUnwrap,
            },
        }
    }

    /// What follows from an event.
    pub open spec fn next(self, context: ContextView<C>, event: RunEvent<C>) -> RunStep<C> {
        let concluding = RunWithContext { mode: self.mode, stage: RunStage::<C>::Concluding };
        match (self.stage, event) {
            (RunStage::Acting { previous }, RunEvent::ActionReturned) => match self.mode {
                RunMode::Guarded => RunStep {
                    run: RunWithContext { mode: self.mode, stage: RunStage::Entering },
                    context,
                    action: RunAction::Enter,
                },
                RunMode::Bare => self.advance(context, previous),
            },
            (RunStage::Entering, RunEvent::Entered(current)) => {
                let entered = ContextView { current: Some(current), ..context };
                match self.mode {
                    RunMode::Guarded => self.advance(entered, context.current),
                    RunMode::Bare => RunStep {
                        run: RunWithContext {
                            mode: self.mode,
                            stage: RunStage::Acting { previous: context.current },
                        },
                        context: entered,
                        action: RunAction::PerformAction,
                    },
                }
            },
            (RunStage::Advancing { previous }, RunEvent::PoolStalled(pool)) => if context.can_block() {
                RunStep {
                    run: RunWithContext { mode: self.mode, stage: RunStage::Leaving { previous } },
                    context: ContextView { pool: Some(pool), ..context },
                    action: RunAction::TryUnwrap,
                }
            } else {
                RunStep { run: self, context, action: RunAction::Panic(NOT_BLOCKED_ON_JS) }
            },
            (RunStage::Acting { previous }, RunEvent::Unwound) => match self.mode {
                RunMode::Guarded => RunStep {
                    run: concluding,
                    context,
                    action: RunAction::Conclude,
                },
                RunMode::Bare => RunStep {
                    run: RunWithContext { mode: self.mode, stage: RunStage::Leaving { previous } },
                    context,
                    action: RunAction::TryUnwrap,
                },
            },
            (RunStage::Advancing { previous }, RunEvent::Unwound) => RunStep {
                run: RunWithContext { mode: self.mode, stage: RunStage::Leaving { previous } },
                context,
                action: RunAction::TryUnwrap,
            },
            (RunStage::Leaving { previous }, RunEvent::LastReference) => RunStep {
                run: concluding,
                context,
                action: if context.current is Some {
                    RunAction::Destroy
                } else {
                    RunAction::Panic(
                        match self.mode {
                            RunMode::Guarded => OUTLIVED,
                            RunMode::Bare => NOT_CLEANED_UP,
                        },
                    )
                },
            },
            (RunStage::Leaving { previous }, RunEvent::OtherReferences) => RunStep {
                run: concluding,
                context: ContextView { current: previous, ..context },
                action: RunAction::Conclude,
            },
            _ => RunStep { run: concluding, context, action: RunAction::Conclude },
        }
    }

    /// Starts a run.
    pub fn start(mode: RunMode) -> (started: (Self, RunAction))
        ensures
            started == run_start::<C>(mode),
    {
        match mode {
            RunMode::Guarded => (
                RunWithContext { mode, stage: RunStage::Acting { previous: None } },
                RunAction::PerformAction,
            ),
            RunMode::Bare => (
                RunWithContext { mode, stage: RunStage::Entering },
                RunAction::Enter,
            ),
        }
    }

    fn take_pool(mode: RunMode, context: &mut JsAsyncContext<C>, previous: Option<C>) -> (step: (
        Self,
        RunAction,
    ))
        ensures
            ({
                let next = RunWithContext { mode, stage: RunStage::<C>::Entering }.advance(
                    old(context)@,
                    previous,
                );
                step.0 == next.run && step.1 == next.action && final(context)@ == next.context
            }),
    {
        match context.take_pool() {
            Some(pool) => (
                RunWithContext { mode, stage: RunStage::Advancing { previous } },
                RunAction::RunPool(pool),
            ),
            None => (
                RunWithContext { mode, stage: RunStage::Leaving { previous } },
                RunAction::TryUnwrap,
            ),
        }
    }

    /// Goes on from an event.
    pub fn step(self, context: &mut JsAsyncContext<C>, event: RunEvent<C>) -> (step: (
        Self,
        RunAction,
    ))
        requires
            self.expects(event),
        ensures
            ({
                let next = self.next(old(context)@, event);
                step.0 == next.run && step.1 == next.action && final(context)@ == next.context
            }),
    {
        let RunWithContext { mode, stage } = self;
        let concluding: Self = RunWithContext { mode, stage: RunStage::Concluding };
        match (stage, event) {
            (RunStage::Acting { previous }, RunEvent::ActionReturned) => match mode {
                RunMode::Guarded => (
                    RunWithContext { mode, stage: RunStage::Entering },
                    RunAction::Enter,
                ),
                RunMode::Bare => Self::take_pool(mode, context, previous),
            },
            (RunStage::Entering, RunEvent::Entered(current)) => {
                let previous: Option<C> = context.enter(current);
                match mode {
                    RunMode::Guarded => Self::take_pool(mode, context, previous),
                    RunMode::Bare => (
                        RunWithContext { mode, stage: RunStage::Acting { previous } },
                        RunAction::PerformAction,
                    ),
                }
            },
            (RunStage::Advancing { previous }, RunEvent::PoolStalled(pool)) => {
                if context.return_pool(pool) {
                    (
                        RunWithContext { mode, stage: RunStage::Leaving { previous } },
                        RunAction::TryUnwrap,
                    )
                } else {
                    (
                        RunWithContext { mode, stage: RunStage::Advancing { previous } },
                        RunAction::Panic(NOT_BLOCKED_ON_JS),
                    )
                }
            },
            (RunStage::Acting { previous }, RunEvent::Unwound) => match mode {
                RunMode::Guarded => (concluding, RunAction::Conclude),
                RunMode::Bare => (
                    RunWithContext { mode, stage: RunStage::Leaving { previous } },
                    RunAction::TryUnwrap,
                ),
            },
            (RunStage::Advancing { previous }, RunEvent::Unwound) => (
                RunWithContext { mode, stage: RunStage::Leaving { previous } },
                RunAction::TryUnwrap,
            ),
            (RunStage::Leaving { previous: _ }, RunEvent::LastReference) => {
                if context.has_current_context() {
                    (concluding, RunAction::Destroy)
                } else {
                    let message: &'static str = match mode {
                        RunMode::Guarded => OUTLIVED,
                        RunMode::Bare => NOT_CLEANED_UP,
                    };
                    (concluding, RunAction::Panic(message))
                }
            },
            (RunStage::Leaving { previous }, RunEvent::OtherReferences) => {
                context.restore(previous);
                (concluding, RunAction::Conclude)
            },
            _ => (concluding, RunAction::Conclude),
        }
    }

    /// Decides what is to be done about what escaped from the run.
    pub fn conclude(self, outcome: RunOutcome) -> (conclusion: Conclusion)
        ensures
            conclusion@ == run_conclusion(self.mode, outcome),
    {
        match self.mode {
            RunMode::Guarded => match outcome {
                RunOutcome::Returned => Conclusion::Return,
                RunOutcome::Threw(text) => {
                    let line: String = concatenated(
                        "\n!! Thrown errors must be handled during async execution !!\n",
                        text.as_str(),
                    );
                    Conclusion::Abort(concatenated(line.as_str(), "\n"))
                },
                RunOutcome::Panicked(payload) => {
                    let text: String = describe_any(&payload);
                    let line: String = concatenated(
                        "\n!! Panics must be handled during async execution !!\n",
                        text.as_str(),
                    );
                    Conclusion::Abort(concatenated(line.as_str(), "\n"))
                },
            },
            RunMode::Bare => match outcome {
                RunOutcome::Panicked(_) => Conclusion::Resume,
                _ => Conclusion::Return,
            },
        }
    }
}

/// What is to be done about what escaped from a run.
pub open spec fn run_conclusion(mode: RunMode, outcome: RunOutcome) -> ConclusionView {
    match (mode, outcome) {
        (RunMode::Guarded, RunOutcome::Threw(text)) => ConclusionView::Abort(
            "\n!! Thrown errors must be handled during async execution !!\n"@ + text@ + "\n"@,
        ),
        (RunMode::Guarded, RunOutcome::Panicked(payload)) => ConclusionView::Abort(
            "\n!! Panics must be handled during async execution !!\n"@ + panic_message(payload)
                + "\n"@,
        ),
        (RunMode::Bare, RunOutcome::Panicked(payload)) => ConclusionView::Resume,
        _ => ConclusionView::Return,
    }
}

/// Whatever happens to the context while its pool is run, a guarded run of a context that
/// others hold too ends with the JavaScript call that it found, and with the pool in place.
pub proof fn run_restores_context<C>(
    found: ContextView<C>,
    current: C,
    stalled: ContextView<C>,
    pool: LocalPool,
    left: ContextView<C>,
)
    requires
        found.pool is Some,
        stalled.can_block(),
    ensures
        ({
            let (acting, action) = run_start::<C>(RunMode::Guarded);
            let acted = acting.next(found, RunEvent::ActionReturned);
            let entered = acted.run.next(acted.context, RunEvent::Entered(current));
            let advanced = entered.run.next(stalled, RunEvent::PoolStalled(pool));
            let over = advanced.run.next(left, RunEvent::OtherReferences);
            &&& action is PerformAction
            &&& acted.action is Enter
            &&& acted.context == found
            &&& entered.action == RunAction::RunPool(found.pool->0)
            &&& entered.context == (ContextView { current: Some(current), pool: None, ..found })
            &&& advanced.action is TryUnwrap
            &&& advanced.context == (ContextView { pool: Some(pool), ..stalled })
            &&& over.action is Conclude
            &&& over.context == (ContextView { current: found.current, ..left })
        }),
{
}

/// A run inside of another run of the same context does not run the pool, and leaves the
/// context as it found it.
pub proof fn nested_run_changes_nothing<C>(found: ContextView<C>, current: C)
    requires
        found.pool is None,
    ensures
        ({
            let (acting, _) = run_start::<C>(RunMode::Guarded);
            let acted = acting.next(found, RunEvent::ActionReturned);
            let entered = acted.run.next(acted.context, RunEvent::Entered(current));
            let over = entered.run.next(entered.context, RunEvent::OtherReferences);
            &&& entered.action is TryUnwrap
            &&& entered.context.current == Some(current)
            &&& over.context == found
        }),
{
}

/// What happens to a context while its pool is run.
pub enum PoolEvent<C> {
    /// An operation of the context left it like this.
    Operation(ContextView<C>),
    /// The context was run in another JavaScript call, from beginning to end. The run does not
    /// hold the only reference to the context: the run that it is inside of holds one too.
    NestedRun(C),
}

impl<C> PoolEvent<C> {
    /// The event can happen. No operation of a context changes which call is the current one,
    /// or takes or returns the pool; only runs do.
    pub open spec fn allowed(self, context: ContextView<C>) -> bool {
        self matches PoolEvent::Operation(after) ==> after.current == context.current && after.pool
            == context.pool
    }

    /// What the event makes of the context.
    ///
    /// The operations that the action of a nested run consists of come before it.
    pub open spec fn after(self, context: ContextView<C>) -> ContextView<C> {
        match self {
            PoolEvent::Operation(after) => after,
            PoolEvent::NestedRun(current) => {
                let (acting, _) = run_start::<C>(RunMode::Guarded);
                let acted = acting.next(context, RunEvent::ActionReturned);
                let entered = acted.run.next(acted.context, RunEvent::Entered(current));
                entered.run.next(entered.context, RunEvent::OtherReferences).context
            },
        }
    }
}

/// What events, one after the other, make of a context, if they can happen.
pub open spec fn after_pool_events<C>(context: ContextView<C>, events: Seq<PoolEvent<C>>) -> Option<
    ContextView<C>,
>
    decreases events.len(),
{
    if events.len() == 0 {
        Some(context)
    } else {
        match after_pool_events(context, events.drop_last()) {
            Some(earlier) => if events.last().allowed(earlier) {
                Some(events.last().after(earlier))
            } else {
                None
            },
            None => None,
        }
    }
}

/// Whatever happens while the pool is run, nested runs included, the JavaScript call that it is
/// run in is the current one again when the pool stalls.
pub proof fn nested_runs_keep_the_call<C>(context: ContextView<C>, events: Seq<PoolEvent<C>>)
    requires
        context.pool is None,
        after_pool_events(context, events) is Some,
    ensures
        after_pool_events(context, events)->0.current == context.current,
        after_pool_events(context, events)->0.pool is None,
    decreases events.len(),
{
    if events.len() > 0 {
        nested_runs_keep_the_call(context, events.drop_last());
    }
}

/// If nobody else holds the context at the end of a guarded run, it is destroyed while the
/// JavaScript call is still the current one, whatever happened while the pool was run.
pub proof fn last_reference_is_destroyed_in_call<C>(
    found: ContextView<C>,
    current: C,
    events: Seq<PoolEvent<C>>,
    pool: LocalPool,
)
    requires
        found.pool is Some,
        ({
            let entered = ContextView { current: Some(current), pool: None, ..found };
            after_pool_events(entered, events) matches Some(stalled) && stalled.can_block()
        }),
    ensures
        ({
            let (acting, _) = run_start::<C>(RunMode::Guarded);
            let acted = acting.next(found, RunEvent::ActionReturned);
            let entered = acted.run.next(acted.context, RunEvent::Entered(current));
            let stalled = after_pool_events(entered.context, events)->0;
            let advanced = entered.run.next(stalled, RunEvent::PoolStalled(pool));
            let over = advanced.run.next(advanced.context, RunEvent::LastReference);
            &&& entered.context.current == Some(current)
            &&& over.action is Destroy
            &&& over.context.current == Some(current)
        }),
{
    nested_runs_keep_the_call(
        ContextView { current: Some(current), pool: None, ..found },
        events,
    );
}

/// A bare run that panics lets go of its JavaScript call as well: the previous call is the
/// current one again, or the context is destroyed while the call is still there. Then the panic
/// goes on.
pub proof fn bare_run_lets_go_of_its_call<C>(
    found: ContextView<C>,
    current: C,
    unwound: ContextView<C>,
    payload: PanicPayload,
)
    requires
        unwound.current == Some(current),
    ensures
        ({
            let (entering, _) = run_start::<C>(RunMode::Bare);
            let entered = entering.next(found, RunEvent::Entered(current));
            let acted = entered.run.next(entered.context, RunEvent::ActionReturned);
            let in_action = entered.run.next(unwound, RunEvent::Unwound);
            let in_pool = acted.run.next(unwound, RunEvent::Unwound);
            let lets_go = |step: RunStep<C>|
                {
                    let shared = step.run.next(step.context, RunEvent::OtherReferences);
                    let last = step.run.next(step.context, RunEvent::LastReference);
                    &&& step.action is TryUnwrap
                    &&& shared.action is Conclude
                    &&& shared.context == (ContextView { current: found.current, ..unwound })
                    &&& last.action is Destroy
                    &&& last.context.current == Some(current)
                    &&& run_conclusion(shared.run.mode, RunOutcome::Panicked(payload)) is Resume
                };
            &&& lets_go(in_action)
            &&& found.pool is Some ==> lets_go(in_pool)
        }),
{
}

/// What a guarded run comes to, given what escaped from its action and from its pool, and the
/// context as it was when the pool stalled.
pub open spec fn guarded_conclusion<C>(
    found: ContextView<C>,
    current: C,
    acted: RunOutcome,
    stalled: ContextView<C>,
    ran: RunOutcome,
    pool: LocalPool,
) -> ConclusionView {
    let (acting, _) = run_start::<C>(RunMode::Guarded);
    let left = acting.next(
        found,
        if acted is Panicked {
            RunEvent::Unwound
        } else {
            RunEvent::ActionReturned
        },
    );
    if left.action is Conclude {
        run_conclusion(left.run.mode, acted)
    } else {
        let entered = left.run.next(left.context, RunEvent::Entered(current));
        if entered.action is RunPool {
            let advanced = entered.run.next(
                stalled,
                if ran is Panicked {
                    RunEvent::Unwound
                } else {
                    RunEvent::PoolStalled(pool)
                },
            );
            let escaped = match advanced.action {
                RunAction::Panic(message) => RunOutcome::Panicked(PanicPayload::Literal(message)),
                _ => if ran is Returned {
                    acted
                } else {
                    ran
                },
            };
            run_conclusion(advanced.run.mode, escaped)
        } else {
            run_conclusion(entered.run.mode, acted)
        }
    }
}

/// A guarded run returns exactly if nothing escaped from it, and it was inside of another run,
/// or the top-level future has completed, or there is a promise to wait for. In every other
/// case the process is aborted.
pub proof fn guarded_run_returns_iff<C>(
    found: ContextView<C>,
    current: C,
    acted: RunOutcome,
    stalled: ContextView<C>,
    ran: RunOutcome,
    pool: LocalPool,
)
    ensures
        ({
            let conclusion = guarded_conclusion(found, current, acted, stalled, ran, pool);
            &&& conclusion is Return <==> acted is Returned && (found.pool is None || (
            ran is Returned && (stalled.complete || stalled.pending as int > 0)))
            &&& conclusion is Return || conclusion is Abort
        }),
{
}

/// A run keeps the number of its context, the name of its storage, and what it has registered.
pub proof fn run_keeps_identity<C>(
    run: RunWithContext<C>,
    context: ContextView<C>,
    event: RunEvent<C>,
)
    ensures
        ({
            let after = run.next(context, event).context;
            &&& after.id == context.id
            &&& after.style == context.style
            &&& after.global_key == context.global_key
            &&& after.next_id == context.next_id
            &&& after.pending == context.pending
            &&& after.complete == context.complete
        }),
{
}

/// A run refuses to stall on anything but JavaScript promises, and a guarded run then still
/// leaves the JavaScript call before the process is aborted.
pub proof fn stalling_without_promises_aborts<C>(
    stalled: ContextView<C>,
    previous: Option<C>,
    pool: LocalPool,
    left: ContextView<C>,
    payload: PanicPayload,
)
    requires
        !stalled.can_block(),
    ensures
        ({
            let advancing = RunWithContext {
                mode: RunMode::Guarded,
                stage: RunStage::Advancing { previous },
            };
            let refused = advancing.next(stalled, RunEvent::PoolStalled(pool));
            let unwound = refused.run.next(stalled, RunEvent::Unwound);
            let over = unwound.run.next(left, RunEvent::OtherReferences);
            &&& refused.action == RunAction::Panic(NOT_BLOCKED_ON_JS)
            &&& unwound.action is TryUnwrap
            &&& over.context == (ContextView { current: previous, ..left })
            &&& run_conclusion(over.run.mode, RunOutcome::Panicked(payload)) is Abort
        }),
{
}

/// The caller of a guarded run goes on only if nothing escaped from it.
pub proof fn guarded_run_returns_only_cleanly(outcome: RunOutcome)
    ensures
        run_conclusion(RunMode::Guarded, outcome) is Return <==> outcome is Returned,
        !(run_conclusion(RunMode::Guarded, outcome) is Resume),
{
}

/// If making the future of a context throws, the run comes to its end without complaint, so
/// that the exception can be thrown to the caller.
pub proof fn failed_start_reaches_caller<C>(found: ContextView<C>, current: C)
    requires
        found.pool is Some,
    ensures
        ({
            // What a start that throws makes of the context.
            let failed = ContextView { complete: true, ..found };
            let (acting, _) = run_start::<C>(RunMode::Guarded);
            let acted = acting.next(failed, RunEvent::ActionReturned);
            let entered = acted.run.next(acted.context, RunEvent::Entered(current));
            let advanced = entered.run.next(
                entered.context,
                RunEvent::PoolStalled(found.pool->0),
            );
            &&& entered.action == RunAction::RunPool(found.pool->0)
            &&& advanced.action is TryUnwrap
            &&& run_conclusion(advanced.run.mode, RunOutcome::Returned) is Return
        }),
{
}

/// In either mode, a run whose pool stalls goes on, with the pool back in its context, exactly
/// if the top-level future has completed or there is a promise to wait for. Otherwise it
/// panics, and the context is left as it is. What else the context holds stays the same.
pub proof fn stalled_pool_is_put_back<C>(
    mode: RunMode,
    previous: Option<C>,
    stalled: ContextView<C>,
    pool: LocalPool,
)
    ensures
        ({
            let run = RunWithContext { mode, stage: RunStage::Advancing { previous } };
            let step = run.next(stalled, RunEvent::PoolStalled(pool));
            if stalled.complete || stalled.pending as int > 0 {
                &&& step.action is TryUnwrap
                &&& step.run == (RunWithContext { mode, stage: RunStage::Leaving { previous } })
                &&& step.context == (ContextView { pool: Some(pool), ..stalled })
            } else {
                &&& step.action == RunAction::Panic("only supports blocking on JavaScript futures")
                &&& step.run == run
                &&& step.context == stalled
            }
        }),
{
}

/// A bare run from which nothing escapes enters its call, performs its action, runs the pool,
/// and leaves: if the future has completed, or there is a promise to wait for, it ends with the
/// call that it found and with the pool in place, and returns.
pub proof fn bare_run_restores_context<C>(
    found: ContextView<C>,
    current: C,
    acted: ContextView<C>,
    stalled: ContextView<C>,
    pool: LocalPool,
    left: ContextView<C>,
)
    requires
        acted.pool is Some,
        stalled.complete || stalled.pending as int > 0,
    ensures
        ({
            let (entering, action) = run_start::<C>(RunMode::Bare);
            let entered = entering.next(found, RunEvent::Entered(current));
            let advancing = entered.run.next(acted, RunEvent::ActionReturned);
            let advanced = advancing.run.next(stalled, RunEvent::PoolStalled(pool));
            let over = advanced.run.next(left, RunEvent::OtherReferences);
            let last = advanced.run.next(advanced.context, RunEvent::LastReference);
            &&& action is Enter
            &&& entered.action is PerformAction
            &&& entered.context == (ContextView { current: Some(current), ..found })
            &&& advancing.action == RunAction::RunPool(acted.pool->0)
            &&& advancing.context == (ContextView { pool: None, ..acted })
            &&& advanced.action is TryUnwrap
            &&& advanced.context == (ContextView { pool: Some(pool), ..stalled })
            &&& over.action is Conclude
            &&& over.context == (ContextView { current: found.current, ..left })
            &&& stalled.current is Some ==> last.action is Destroy
            &&& run_conclusion(over.run.mode, RunOutcome::Returned) is Return
            &&& run_conclusion(last.run.mode, RunOutcome::Returned) is Return
        }),
{
}

/// A bare run inside of another run of the same context does not run the pool, and goes back to
/// the call that it found.
pub proof fn nested_bare_run_leaves_the_pool_alone<C>(
    found: ContextView<C>,
    current: C,
    acted: ContextView<C>,
    left: ContextView<C>,
)
    requires
        acted.pool is None,
    ensures
        ({
            let (entering, _) = run_start::<C>(RunMode::Bare);
            let entered = entering.next(found, RunEvent::Entered(current));
            let advancing = entered.run.next(acted, RunEvent::ActionReturned);
            let over = advancing.run.next(left, RunEvent::OtherReferences);
            &&& advancing.action is TryUnwrap
            &&& advancing.context == acted
            &&& over.action is Conclude
            &&& over.context == (ContextView { current: found.current, ..left })
        }),
{
}

/// In either mode, a context that nobody else holds is destroyed as it is, or is a bug if it is
/// not in a JavaScript call; and a context that others hold goes back to the previous call and
/// is otherwise left as it is. A run then only has to conclude.
pub proof fn leaving_destroys_or_restores<C>(
    mode: RunMode,
    previous: Option<C>,
    context: ContextView<C>,
)
    ensures
        ({
            let run = RunWithContext { mode, stage: RunStage::Leaving { previous } };
            let last = run.next(context, RunEvent::LastReference);
            let shared = run.next(context, RunEvent::OtherReferences);
            &&& last.context == context
            &&& last.action == match (context.current, mode) {
                (Some(_), _) => RunAction::Destroy,
                (None, RunMode::Guarded) => RunAction::Panic(
                    "must not persist JsAsyncContext beyond the lifetime of the future being run",
                ),
                (None, RunMode::Bare) => RunAction::Panic(
                    "must clean up JsAsyncContext during the fulfillment of the last JS callback invoked",
                ),
            }
            &&& last.run == (RunWithContext { mode, stage: RunStage::<C>::Concluding })
            &&& shared.action is Conclude
            &&& shared.context == (ContextView { current: previous, ..context })
            &&& shared.run == last.run
        }),
{
}

/// A panic while the pool is run leads to the end of the run, in either mode; so does one in
/// the action of a bare run. A guarded run whose action panics has entered nothing, and only
/// has to conclude. The context is left as it is in each case.
pub proof fn panic_leads_to_the_end<C>(
    mode: RunMode,
    previous: Option<C>,
    context: ContextView<C>,
)
    ensures
        ({
            let leaving = RunWithContext { mode, stage: RunStage::Leaving { previous } };
            let acting = RunWithContext { mode, stage: RunStage::Acting { previous } };
            let advancing = RunWithContext { mode, stage: RunStage::Advancing { previous } };
            let in_action = acting.next(context, RunEvent::Unwound);
            let in_pool = advancing.next(context, RunEvent::Unwound);
            &&& in_pool.context == context
            &&& in_pool.action is TryUnwrap
            &&& in_pool.run == leaving
            &&& in_action.context == context
            &&& match mode {
                RunMode::Guarded => in_action.action is Conclude && in_action.run.stage is Concluding
                    && in_action.run.mode == mode,
                RunMode::Bare => in_action.action is TryUnwrap && in_action.run == leaving,
            }
        }),
{
}

/// A guarded run starts with its action, and a bare run with its call. A run can go on from
/// what it has asked for, or from a panic in it, and from nothing else.
pub proof fn run_expects_what_it_asked_for<C>(
    mode: RunMode,
    previous: Option<C>,
    event: RunEvent<C>,
)
    ensures
        run_start::<C>(RunMode::Guarded).1 is PerformAction,
        run_start::<C>(RunMode::Guarded).0.stage is Acting,
        run_start::<C>(RunMode::Bare).1 is Enter,
        run_start::<C>(RunMode::Bare).0.stage is Entering,
        run_start::<C>(mode).0.mode == mode,
        (RunWithContext { mode, stage: RunStage::Acting { previous } }).expects(event) <==> (
        event is ActionReturned || event is Unwound),
        (RunWithContext { mode, stage: RunStage::<C>::Entering }).expects(event)
            <==> event is Entered,
        (RunWithContext { mode, stage: RunStage::Advancing { previous } }).expects(event) <==> (
        event is PoolStalled || event is Unwound),
        (RunWithContext { mode, stage: RunStage::Leaving { previous } }).expects(event) <==> (
        event is LastReference || event is OtherReferences),
        !(RunWithContext { mode, stage: RunStage::<C>::Concluding }).expects(event),
{
}

/// What is printed when a guarded run is aborted is the text of the exception, or the message
/// of the panic, between a fixed beginning and a line end. A bare run prints nothing: it lets
/// panics go on, and returns in every other case.
pub proof fn conclusions_tell_what_escaped(text: String, literal: &'static str)
    ensures
        run_conclusion(RunMode::Guarded, RunOutcome::Returned) is Return,
        run_conclusion(RunMode::Guarded, RunOutcome::Threw(text)) == ConclusionView::Abort(
            "\n!! Thrown errors must be handled during async execution !!\n"@ + text@ + "\n"@,
        ),
        run_conclusion(
            RunMode::Guarded,
            RunOutcome::Panicked(PanicPayload::Literal(literal)),
        ) == ConclusionView::Abort(
            "\n!! Panics must be handled during async execution !!\n"@ + literal@ + "\n"@,
        ),
        run_conclusion(
            RunMode::Guarded,
            RunOutcome::Panicked(PanicPayload::Formatted(text)),
        ) == ConclusionView::Abort(
            "\n!! Panics must be handled during async execution !!\n"@ + text@ + "\n"@,
        ),
        run_conclusion(
            RunMode::Guarded,
            RunOutcome::Panicked(PanicPayload::Opaque),
        ) == ConclusionView::Abort(
            "\n!! Panics must be handled during async execution !!\n"@
                + "(break on rust_panic to debug)"@ + "\n"@,
        ),
        run_conclusion(RunMode::Bare, RunOutcome::Returned) is Return,
        run_conclusion(RunMode::Bare, RunOutcome::Threw(text)) is Return,
        run_conclusion(RunMode::Bare, RunOutcome::Panicked(PanicPayload::Literal(literal)))
            is Resume,
        run_conclusion(RunMode::Bare, RunOutcome::Panicked(PanicPayload::Formatted(text)))
            is Resume,
        run_conclusion(RunMode::Bare, RunOutcome::Panicked(PanicPayload::Opaque)) is Resume,
{
}

/// What is to be done at the end of a run is told as it is, with the whole text to be printed.
pub proof fn conclusion_is_told_as_it_is(message: String)
    ensures
        Conclusion::Return@ is Return,
        Conclusion::Abort(message)@ == ConclusionView::Abort(message@),
        Conclusion::Resume@ is Resume,
{
}

} // verus!
