//! Futures for the results of JavaScript promises.

use vstd::prelude::*;

use crate::context::{ContextView, JsAsyncContext};
use crate::result::{
    promise_result, JsFulfilledResult, JsPromiseResult, JsPromiseResultConstructor,
    JsRejectedResult,
};
use crate::script::{
    all_values, asks, finishes, passing, script_finishes_with_its_replies, script_start, Arguments,
    Instruction, JsKind, JsReply, NativeFunction, Operand, PropertyKey, ScriptOutcome, ScriptRun,
    ScriptView, Settlement, Step,
};

verus! {

/// The message for giving a transformation to a future that is not waiting for one any more.
pub const ALREADY_COMPLETED: &'static str = "already completed";

/// The message for polling a future again after it has given its result.
pub const ALREADY_CONSUMED: &'static str = "already consumed";

/// The message for settling a future a second time.
pub const ALREADY_FULFILLED: &'static str = "already fulfilled";

/// The message for settling a future before it was told how.
pub const NO_TRANSFORM: &'static str = "no transform set yet";

/// The possible states of a [JsFuture].
///
/// `X` holds the context that the future runs in, `F` turns the promise's result into the
/// future's, and `W` wakes the task that waits. `E` is what a panic carries.
pub enum JsFutureState<X, F, W, T, E> {
    /// The future has been registered with the JavaScript runtime.
    Waiting { context: X, transform: F, waker: Option<W> },
    /// The future has been settled, and its result transformed.
    ///
    /// If there was a panic during the transformation, it goes on where the result is
    /// awaited.
    Complete(Result<T, E>),
    /// The result has been handed out, or is being made.
    Consumed,
}

impl<X, F, W, T, E> JsFutureState<X, F, W, T, E> {
    /// The state of a future that nobody has polled yet.
    pub open spec fn fresh(context: X, transform: F) -> Self {
        JsFutureState::Waiting { context, transform, waker: None }
    }

    /// A task is waiting for the future, and was counted by its context.
    pub open spec fn is_awaited(self) -> bool {
        self matches JsFutureState::Waiting { waker, .. } && waker is Some
    }

    /// A poll makes the future one that its context counts.
    pub open spec fn is_first_poll(self) -> bool {
        self matches JsFutureState::Waiting { waker, .. } && waker is None
    }

    /// The state after a poll.
    pub open spec fn polled(self, waker: W) -> Self {
        match self {
            JsFutureState::Waiting { context, transform, waker: _ } => JsFutureState::Waiting {
                context,
                transform,
                waker: Some(waker),
            },
            _ => JsFutureState::Consumed,
        }
    }

    /// What is taken from the state in order to settle the future with `js_result`.
    pub open spec fn fulfillment<V>(
        self,
        settlement: Settlement,
        js_result: V,
    ) -> Fulfillment<X, F, W, V> {
        Fulfillment {
            context: self->context,
            transform: self->transform,
            argument: promise_result(settlement, js_result),
            waker: self->waker,
        }
    }

    /// What settling the future makes of its context, which counts the futures that tasks are
    /// waiting for.
    pub open spec fn uncounted<C>(self, context: ContextView<C>) -> ContextView<C> {
        if self.is_awaited() {
            context.with_pending(context.pending - 1)
        } else {
            context
        }
    }

    /// What a poll comes to.
    pub open spec fn poll_step(self) -> PollStep<T, E> {
        match self {
            JsFutureState::Waiting { .. } => PollStep::Pending,
            JsFutureState::Complete(Ok(result)) => PollStep::Ready(result),
            JsFutureState::Complete(Err(panic)) => PollStep::Resume(panic),
            JsFutureState::Consumed => arbitrary(),
        }
    }

    /// The state of a future that has been registered, but not polled.
    fn new(context: X, transform: F) -> (state: Self)
        ensures
            state == Self::fresh(context, transform),
    {
        JsFutureState::Waiting { context, transform, waker: None }
    }

    /// The same state, with another task to be woken.
    fn waiting_on(self, new_waker: W) -> (state: Self)
        requires
            self is Waiting,
        ensures
            state == self.polled(new_waker),
    {
        match self {
            JsFutureState::Waiting { context, transform, waker: _ } => JsFutureState::Waiting {
                context,
                transform,
                waker: Some(new_waker),
            },
            other => other,
        }
    }
}

/// What a poll comes to.
pub enum PollStep<T, E> {
    /// This is the result.
    Ready(T),
    /// Making the result panicked, and the panic goes on here.
    Resume(E),
    /// There is no result yet.
    Pending,
}

/// What is to be done about a promise that has been settled.
///
/// In a run of the context, `transform` is applied to `argument`, and what comes of it is
/// handed back to the [future](JsFuture::complete).
pub struct Fulfillment<X, F, W, V> {
    pub context: X,
    pub transform: F,
    pub argument: JsPromiseResult<V>,
    pub waker: Option<W>,
}

/// A future representing the result of a JavaScript promise.
///
/// Once the promise is settled, a transformation is applied to its result to give the
/// result of the future. Panics in the transformation go on where the future is awaited.
pub struct JsFuture<X, F, W, T, E> {
    state: JsFutureState<X, F, W, T, E>,
}

impl<X, F, W, T, E> View for JsFuture<X, F, W, T, E> {
    type V = JsFutureState<X, F, W, T, E>;

    closed spec fn view(&self) -> JsFutureState<X, F, W, T, E> {
        self.state
    }
}

/// Makes a function callable from JavaScript with its first argument bound to `address`.
///
/// The steps start at the step number `first` of their script.
pub open spec fn bound_fulfill_steps(first: usize, settlement: Settlement, address: u64) -> Seq<
    Step,
> {
    seq![
        passing(Instruction::Function(NativeFunction::FulfillPromise(settlement))),
        passing(
            Instruction::GetProperty {
                object: Operand::Output(first),
                key: PropertyKey::Name("bind"),
            },
        ),
        passing(
            Instruction::Downcast {
                value: Operand::Output((first + 1) as usize),
                kind: JsKind::Function,
            },
        ),
        passing(Instruction::Undefined),
        passing(Instruction::NumberFromBits(address)),
        passing(
            Instruction::Call {
                function: Operand::Output((first + 2) as usize),
                this: Operand::Output(first),
                arguments: Arguments::Two(
                    Operand::Output((first + 3) as usize),
                    Operand::Output((first + 4) as usize),
                ),
            },
        ),
    ]
}

/// Calls the method `then` of the promise, the input, with the two bound functions.
pub open spec fn then_steps() -> Seq<Step> {
    seq![
        passing(
            Instruction::GetProperty {
                object: Operand::Input(0),
                key: PropertyKey::Name("then"),
            },
        ),
        passing(Instruction::Downcast { value: Operand::Output(12), kind: JsKind::Function }),
        passing(
            Instruction::Call {
                function: Operand::Output(13),
                this: Operand::Input(0),
                arguments: Arguments::Two(Operand::Output(5), Operand::Output(11)),
            },
        ),
    ]
}

/// Registers the future at `address` for the outcome of a promise, the input.
pub open spec fn registration_steps(address: u64) -> Seq<Step> {
    bound_fulfill_steps(0, Settlement::Fulfilled, address) + bound_fulfill_steps(
        6,
        Settlement::Rejected,
        address,
    ) + then_steps()
}

/// Reads the arguments of the function that a promise calls when it is settled: the value
/// that the promise was settled with, and then the address of the future.
pub open spec fn fulfill_argument_steps() -> Seq<Step> {
    seq![
        passing(Instruction::Argument { index: 1, kind: JsKind::Value }),
        passing(Instruction::Argument { index: 0, kind: JsKind::Number }),
    ]
}

fn bound_fulfill_script(first: usize, settlement: Settlement, address: u64) -> (steps: Vec<Step>)
    requires
        first + 5 <= usize::MAX,
    ensures
        steps@ == bound_fulfill_steps(first, settlement, address),
{
    vec![
        passing(Instruction::Function(NativeFunction::FulfillPromise(settlement))),
        passing(
            Instruction::GetProperty {
                object: Operand::Output(first),
                key: PropertyKey::Name("bind"),
            },
        ),
        passing(
            Instruction::Downcast { value: Operand::Output(first + 1), kind: JsKind::Function },
        ),
        passing(Instruction::Undefined),
        passing(Instruction::NumberFromBits(address)),
        passing(
            Instruction::Call {
                function: Operand::Output(first + 2),
                this: Operand::Output(first),
                arguments: Arguments::Two(Operand::Output(first + 3), Operand::Output(first + 4)),
            },
        ),
    ]
}

/// Asks the promise to call back, with `address`, when it is settled.
///
/// What is called is the native function for the way in which the promise was settled.
pub fn registration<V: Copy>(promise: V, address: u64) -> (script: ScriptRun<V>)
    ensures
        script@ == script_start(registration_steps(address), seq![promise]),
{
    let mut steps: Vec<Step> = bound_fulfill_script(0, Settlement::Fulfilled, address);
    let mut reject: Vec<Step> = bound_fulfill_script(6, Settlement::Rejected, address);
    let mut then: Vec<Step> = vec![
        passing(
            Instruction::GetProperty {
                object: Operand::Input(0),
                key: PropertyKey::Name("then"),
            },
        ),
        passing(Instruction::Downcast { value: Operand::Output(12), kind: JsKind::Function }),
        passing(
            Instruction::Call {
                function: Operand::Output(13),
                this: Operand::Input(0),
                arguments: Arguments::Two(Operand::Output(5), Operand::Output(11)),
            },
        ),
    ];
    steps.append(&mut reject);
    steps.append(&mut then);
    ScriptRun::start(steps, vec![promise])
}

/// Reads the arguments of the function that a promise calls when it is settled.
pub fn fulfill_arguments<V: Copy>() -> (script: ScriptRun<V>)
    ensures
        script@ == script_start::<V>(fulfill_argument_steps(), Seq::empty()),
{
    let steps: Vec<Step> = vec![
        passing(Instruction::Argument { index: 1, kind: JsKind::Value }),
        passing(Instruction::Argument { index: 0, kind: JsKind::Number }),
    ];
    ScriptRun::start(steps, Vec::new())
}

impl<X, F, W, T, E> JsFuture<X, F, W, T, E> {
    /// Creates a future that is to be [registered](registration) with a promise.
    pub fn new(context: X, transform: F) -> (future: Self)
        ensures
            future@ == JsFutureState::<X, F, W, T, E>::fresh(context, transform),
    {
        JsFuture { state: JsFutureState::new(context, transform) }
    }

    /// Creates a completed future, as if already settled.
    pub fn ready(result: T) -> (future: Self)
        ensures
            future@ == JsFutureState::<X, F, W, T, E>::Complete(Ok(result)),
    {
        JsFuture { state: JsFutureState::Complete(Ok(result)) }
    }

    /// Takes the state, and leaves the future consumed.
    fn take_state(&mut self) -> (state: JsFutureState<X, F, W, T, E>)
        ensures
            state == old(self)@,
            final(self)@ is Consumed,
    {
        let mut state: JsFutureState<X, F, W, T, E> = JsFutureState::Consumed;
        core::mem::swap(&mut state, &mut self.state);
        state
    }

    /// Whether the promise has not been settled yet.
    pub fn is_waiting(&self) -> (waiting: bool)
        ensures
            waiting == self@ is Waiting,
    {
        match &self.state {
            JsFutureState::Waiting { .. } => true,
            _ => false,
        }
    }

    /// Whether the result has been handed out, or is being made.
    pub fn is_consumed(&self) -> (consumed: bool)
        ensures
            consumed == self@ is Consumed,
    {
        match &self.state {
            JsFutureState::Consumed => true,
            _ => false,
        }
    }

    /// Whether a task is waiting for the future.
    pub fn is_awaited(&self) -> (awaited: bool)
        ensures
            awaited == self@.is_awaited(),
    {
        match &self.state {
            JsFutureState::Waiting { waker: Some(_), .. } => true,
            _ => false,
        }
    }

    /// The context that the future runs in, as long as it has not been settled.
    pub fn context(&self) -> (context: Option<&X>)
        ensures
            match context {
                Some(context) => self@ is Waiting && self@->context == *context,
                None => !(self@ is Waiting),
            },
    {
        match &self.state {
            JsFutureState::Waiting { context, .. } => Some(context),
            _ => None,
        }
    }

    /// Replaces the current transformation with a new one.
    pub fn set_transform(&mut self, new_transform: F)
        requires
            old(self)@ is Waiting,
        ensures
            final(self)@ == (JsFutureState::<X, F, W, T, E>::Waiting {
                context: old(self)@->context,
                transform: new_transform,
                waker: old(self)@->waker,
            }),
    {
        let state: JsFutureState<X, F, W, T, E> = self.take_state();
        match state {
            JsFutureState::Waiting { context, transform: _, waker } => {
                self.state = JsFutureState::Waiting { context, transform: new_transform, waker };
            },
            _ => {},
        }
    }

    /// The same future with another transformation.
    pub fn with_transform<G>(self, new_transform: G) -> (future: JsFuture<X, G, W, T, E>)
        requires
            self@ is Waiting,
        ensures
            future@ == (JsFutureState::<X, G, W, T, E>::Waiting {
                context: self@->context,
                transform: new_transform,
                waker: self@->waker,
            }),
    {
        let JsFutureState::Waiting { context, transform: _, waker } = self.state else {
            return vstd::pervasive::unreached();
        };
        JsFuture { state: JsFutureState::Waiting { context, transform: new_transform, waker } }
    }

    /// Asks for the result on behalf of a task, which is to be woken when there is one.
    ///
    /// `context` is the one that the future runs in. It counts the future the first time
    /// around; a future that has been settled has no use for it.
    pub fn poll<C>(&mut self, context: Option<&mut JsAsyncContext<C>>, waker: W) -> (step:
        PollStep<T, E>)
        requires
            !(old(self)@ is Consumed),
            old(self)@.is_first_poll() ==> (context matches Some(context) && context@.pending
                < i32::MAX),
        ensures
            final(self)@ == old(self)@.polled(waker),
            step == old(self)@.poll_step(),
            context matches Some(context) ==> final(context)@ == if old(self)@.is_first_poll() {
                context@.with_pending(context@.pending + 1)
            } else {
                context@
            },
    {
        let state: JsFutureState<X, F, W, T, E> = self.take_state();
        match state {
            JsFutureState::Complete(Ok(result)) => PollStep::Ready(result),
            JsFutureState::Complete(Err(panic)) => PollStep::Resume(panic),
            state => {
                match &state {
                    JsFutureState::Waiting { waker: None, .. } => {
                        if let Some(context) = context {
                            context.register_future();
                        }
                    },
                    _ => {},
                }
                self.state = state.waiting_on(waker);
                PollStep::Pending
            },
        }
    }

    /// Begins to settle the future with `js_result`.
    ///
    /// `context` is the one that the future runs in; if it counted the future, it does so no
    /// longer. The future is consumed until it is [complete](JsFuture::complete).
    pub fn fulfill<R: JsPromiseResultConstructor, V, C>(
        &mut self,
        context: &mut JsAsyncContext<C>,
        js_result: V,
    ) -> (fulfillment: Fulfillment<X, F, W, V>)
        requires
            old(self)@ is Waiting,
            old(self)@.is_awaited() ==> old(context)@.pending > i32::MIN,
        ensures
            final(self)@ is Consumed,
            final(context)@ == old(self)@.uncounted(old(context)@),
            fulfillment == old(self)@.fulfillment(R::settlement(), js_result),
    {
        let fulfillment: Fulfillment<X, F, W, V> = self.settle::<R, V>(js_result);
        if fulfillment.waker.is_some() {
            context.fulfill_future();
        }
        fulfillment
    }

    /// Takes from the future what is needed to settle it with `js_result`.
    pub(crate) fn settle<R: JsPromiseResultConstructor, V>(&mut self, js_result: V) -> (
    fulfillment: Fulfillment<X, F, W, V>)
        requires
            old(self)@ is Waiting,
        ensures
            final(self)@ is Consumed,
            fulfillment == old(self)@.fulfillment(R::settlement(), js_result),
    {
        let state: JsFutureState<X, F, W, T, E> = self.take_state();
        let JsFutureState::Waiting { context, transform, waker } = state else {
            return vstd::pervasive::unreached();
        };
        Fulfillment { context, transform, argument: R::make(js_result), waker }
    }

    /// Gives the future its result, or the panic that making it ended in.
    ///
    /// Returns the task that is to be woken now.
    pub fn complete(&mut self, result: Result<T, E>, waker: Option<W>) -> (wake: Option<W>)
        ensures
            final(self)@ == JsFutureState::<X, F, W, T, E>::Complete(result),
            wake == waker,
    {
        self.state = JsFutureState::Complete(result);
        waker
    }
}

/// What a promise that has been settled with `js_result` does to the future that is
/// registered for it, and to the future's context.
///
/// If the future is no longer there, nothing happens.
pub fn fulfill_if_alive<R: JsPromiseResultConstructor, X, F, W, T, E, V, C>(
    alive: Option<(&mut JsFuture<X, F, W, T, E>, &mut JsAsyncContext<C>)>,
    js_result: V,
) -> (fulfillment: Option<Fulfillment<X, F, W, V>>)
    requires
        alive matches Some((future, context)) ==> future@ is Waiting && (future@.is_awaited()
            ==> context@.pending > i32::MIN),
    ensures
        match alive {
            Some((future, context)) => {
                &&& final(future)@ is Consumed
                &&& final(context)@ == future@.uncounted(context@)
                &&& fulfillment == Some(future@.fulfillment(R::settlement(), js_result))
            },
            None => fulfillment is None,
        },
{
    match alive {
        Some((future, context)) => Some(future.fulfill::<R, V, C>(context, js_result)),
        None => None,
    }
}

/// A promise is told to call the native function for fulfillment if it is fulfilled, and the
/// one for rejection if it is rejected, each with the future's address bound as its first
/// argument.
///
/// `answers` are the engine's answers to the script's instructions.
pub proof fn promise_calls_back_as_settled<V>(promise: V, address: u64, answers: Seq<V>)
    requires
        answers.len() == registration_steps(address).len(),
    ensures
        registration_steps(address).len() == 15,
        ({
            let registering = |done: int|
                ScriptView {
                    steps: registration_steps(address),
                    inputs: seq![promise],
                    outputs: answers.take(done),
                };
            let bound = |first: int, settlement: Settlement|
                {
                    // A native function is made, and its own method `bind` is called.
                    &&& registering(first).command() == Instruction::<V>::Function(
                        NativeFunction::FulfillPromise(settlement),
                    )
                    &&& registering(first + 1).command() == (Instruction::GetProperty {
                        object: answers[first],
                        key: PropertyKey::Name("bind"),
                    })
                    &&& registering(first + 2).command() == (Instruction::Downcast {
                        value: answers[first + 1],
                        kind: JsKind::Function,
                    })
                    &&& registering(first + 3).command() == Instruction::<V>::Undefined
                    &&& registering(first + 4).command() == Instruction::<V>::NumberFromBits(
                        address,
                    )
                    &&& registering(first + 5).command() == (Instruction::Call {
                        function: answers[first + 2],
                        this: answers[first],
                        arguments: Arguments::Two(answers[first + 3], answers[first + 4]),
                    })
                };
            &&& bound(0, Settlement::Fulfilled)
            &&& bound(6, Settlement::Rejected)
            // The promise's own method `then` is called with the two bound functions.
            &&& registering(12).command() == (Instruction::GetProperty {
                object: promise,
                key: PropertyKey::Name("then"),
            })
            &&& registering(13).command() == (Instruction::Downcast {
                value: answers[12],
                kind: JsKind::Function,
            })
            &&& registering(14).command() == (Instruction::Call {
                function: answers[13],
                this: promise,
                arguments: Arguments::Two(answers[5], answers[11]),
            })
        }),
{
}

/// A promise is asked, request by request, to call the native function for fulfillment if it
/// is fulfilled, and the one for rejection if it is rejected, each with the same address bound
/// as its first argument. Whatever goes wrong in asking is left to the caller.
pub proof fn registration_requests<V>(promise: V, address: u64, replies: Seq<JsReply<V>>)
    requires
        replies.len() == 15,
        all_values(replies),
    ensures
        ({
            let script = script_start(registration_steps(address), seq![promise]);
            let reply = |i: int| replies[i]->value;
            let asked = |at: int, request: Instruction<V>|
                asks(script, replies, at, request, ScriptOutcome::Threw);
            let bound = |first: int, settlement: Settlement|
                {
                    &&& asked(
                        first,
                        Instruction::Function(NativeFunction::FulfillPromise(settlement)),
                    )
                    &&& asked(
                        first + 1,
                        Instruction::GetProperty {
                            object: reply(first),
                            key: PropertyKey::Name("bind"),
                        },
                    )
                    &&& asked(
                        first + 2,
                        Instruction::Downcast { value: reply(first + 1), kind: JsKind::Function },
                    )
                    &&& asked(first + 3, Instruction::Undefined)
                    &&& asked(first + 4, Instruction::NumberFromBits(address))
                    &&& asked(
                        first + 5,
                        Instruction::Call {
                            function: reply(first + 2),
                            this: reply(first),
                            arguments: Arguments::Two(reply(first + 3), reply(first + 4)),
                        },
                    )
                };
            &&& bound(0, Settlement::Fulfilled)
            &&& bound(6, Settlement::Rejected)
            &&& asked(
                12,
                Instruction::GetProperty { object: promise, key: PropertyKey::Name("then") },
            )
            &&& asked(
                13,
                Instruction::Downcast { value: reply(12), kind: JsKind::Function },
            )
            &&& asked(
                14,
                Instruction::Call {
                    function: reply(13),
                    this: promise,
                    arguments: Arguments::Two(reply(5), reply(11)),
                },
            )
            &&& finishes(script, replies)
        }),
{
    script_finishes_with_its_replies(registration_steps(address), seq![promise], replies);
}

/// A promise that calls back is asked for the value that it was settled with, which is the
/// argument after the bound one, and then for the bound one, which must be a number.
pub proof fn fulfill_argument_requests<V>(replies: Seq<JsReply<V>>)
    requires
        replies.len() == 2,
        all_values(replies),
    ensures
        ({
            let script = script_start::<V>(fulfill_argument_steps(), Seq::empty());
            &&& asks(
                script,
                replies,
                0,
                Instruction::Argument { index: 1, kind: JsKind::Value },
                ScriptOutcome::Threw,
            )
            &&& asks(
                script,
                replies,
                1,
                Instruction::Argument { index: 0, kind: JsKind::Number },
                ScriptOutcome::Threw,
            )
            &&& finishes(script, replies)
        }),
{
    script_finishes_with_its_replies(fulfill_argument_steps(), Seq::<V>::empty(), replies);
}

/// A future that waits stays the same when it is polled, but for the task to be woken. It is
/// counted by its first poll, and only then. Settling it hands out all that it was given, and
/// takes one from the number that its context keeps exactly if some task had asked for it.
pub proof fn waiting_future_keeps_what_it_was_given<X, F, W, T, E, V, C>(
    context: X,
    transform: F,
    waker: Option<W>,
    next: W,
    value: V,
    holder: ContextView<C>,
)
    requires
        i32::MIN < holder.pending < i32::MAX,
    ensures
        ({
            let state = JsFutureState::<X, F, W, T, E>::Waiting { context, transform, waker };
            let uncounted = state.uncounted(holder);
            let fulfilled = state.fulfillment(JsFulfilledResult::settlement(), value);
            let rejected = state.fulfillment(JsRejectedResult::settlement(), value);
            &&& JsFutureState::<X, F, W, T, E>::fresh(context, transform) == (JsFutureState::<
                X,
                F,
                W,
                T,
                E,
            >::Waiting { context, transform, waker: None })
            &&& state.is_awaited() <==> waker is Some
            &&& state.is_first_poll() <==> waker is None
            &&& state.poll_step() == PollStep::<T, E>::Pending
            &&& state.polled(next) == (JsFutureState::<X, F, W, T, E>::Waiting {
                context,
                transform,
                waker: Some(next),
            })
            &&& fulfilled.context == context && rejected.context == context
            &&& fulfilled.transform == transform && rejected.transform == transform
            &&& fulfilled.argument == Ok::<V, V>(value)
            &&& rejected.argument == Err::<V, V>(value)
            &&& fulfilled.waker == waker && rejected.waker == waker
            &&& uncounted.pending == holder.pending - if waker is Some {
                1int
            } else {
                0int
            }
            &&& uncounted == (ContextView { pending: uncounted.pending, ..holder })
        }),
{
}

/// A future that does not wait is neither counted nor awaited, whatever it holds. A complete
/// one gives its result, or its panic, when it is polled, and is consumed by that.
pub proof fn settled_future_is_not_counted<X, F, W, T, E>(value: T, panic: E, waker: W)
    ensures
        ({
            let returned = JsFutureState::<X, F, W, T, E>::Complete(Ok(value));
            let panicked = JsFutureState::<X, F, W, T, E>::Complete(Err(panic));
            let consumed = JsFutureState::<X, F, W, T, E>::Consumed;
            &&& !returned.is_awaited() && !panicked.is_awaited() && !consumed.is_awaited()
            &&& !returned.is_first_poll() && !panicked.is_first_poll() && !consumed.is_first_poll()
            &&& returned.poll_step() == PollStep::<T, E>::Ready(value)
            &&& panicked.poll_step() == PollStep::<T, E>::Resume(panic)
            &&& returned.polled(waker) == consumed
            &&& panicked.polled(waker) == consumed
        }),
{
}

} // verus!
