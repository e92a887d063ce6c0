//! Futures that are registered once and for all.

use vstd::prelude::*;

use crate::context::{ContextView, JsAsyncContext};
use crate::future::{Fulfillment, JsFuture, JsFutureState};
use crate::result::{JsPromiseResult, JsPromiseResultConstructor};
use crate::script::{
    all_values, asks, expecting, finishes, passing, script_finishes_with_its_replies, script_start,
    Arguments, Instruction, JsKind, JsReply, NativeFunction, Operand, PropertyKey, ScriptOutcome,
    ScriptRun, Settlement, Step,
};

verus! {

/// What a promise was settled with: `Ok` if it was fulfilled, `Err` if it was rejected.
pub type JsFutureResult<V> = JsPromiseResult<V>;

/// The message for handling the result of a promise too late.
pub const THEN_TOO_LATE: &'static str =
    "then() must be called immediately after await_promise()";

/// Makes a function callable from JavaScript with its first argument bound to `address`.
///
/// The steps start at the step number `first` of their script.
pub open spec fn bound_resolve_steps(first: usize, settlement: Settlement, address: u64) -> Seq<
    Step,
> {
    seq![
        expecting(
            Instruction::Function(NativeFunction::ResolvePromise(settlement)),
            "can create function",
        ),
        expecting(
            Instruction::GetProperty {
                object: Operand::Output(first),
                key: PropertyKey::Name("bind"),
            },
            "bind() exists",
        ),
        expecting(
            Instruction::Downcast {
                value: Operand::Output((first + 1) as usize),
                kind: JsKind::Function,
            },
            "bind() is a function",
        ),
        passing(Instruction::Undefined),
        passing(Instruction::NumberFromInteger(address)),
        expecting(
            Instruction::Call {
                function: Operand::Output((first + 2) as usize),
                this: Operand::Output(first),
                arguments: Arguments::Two(
                    Operand::Output((first + 3) as usize),
                    Operand::Output((first + 4) as usize),
                ),
            },
            "can call bind()",
        ),
    ]
}

/// Calls the method `then` of the promise, the input, with the two bound functions.
pub open spec fn then_steps() -> Seq<Step> {
    seq![
        expecting(
            Instruction::GetProperty {
                object: Operand::Input(0),
                key: PropertyKey::Name("then"),
            },
            "then() exists",
        ),
        expecting(
            Instruction::Downcast { value: Operand::Output(12), kind: JsKind::Function },
            "then() is a function",
        ),
        expecting(
            Instruction::Call {
                function: Operand::Output(13),
                this: Operand::Input(0),
                arguments: Arguments::Two(Operand::Output(5), Operand::Output(11)),
            },
            "can call then()",
        ),
    ]
}

/// Registers the future at `address` for the outcome of a promise, the input.
pub open spec fn registration_steps(address: u64) -> Seq<Step> {
    bound_resolve_steps(0, Settlement::Fulfilled, address) + bound_resolve_steps(
        6,
        Settlement::Rejected,
        address,
    ) + then_steps()
}

fn bound_resolve_promise(first: usize, settlement: Settlement, address: u64) -> (steps: Vec<Step>)
    requires
        first + 5 <= usize::MAX,
    ensures
        steps@ == bound_resolve_steps(first, settlement, address),
{
    vec![
        expecting(
            Instruction::Function(NativeFunction::ResolvePromise(settlement)),
            "can create function",
        ),
        expecting(
            Instruction::GetProperty {
                object: Operand::Output(first),
                key: PropertyKey::Name("bind"),
            },
            "bind() exists",
        ),
        expecting(
            Instruction::Downcast { value: Operand::Output(first + 1), kind: JsKind::Function },
            "bind() is a function",
        ),
        passing(Instruction::Undefined),
        passing(Instruction::NumberFromInteger(address)),
        expecting(
            Instruction::Call {
                function: Operand::Output(first + 2),
                this: Operand::Output(first),
                arguments: Arguments::Two(Operand::Output(first + 3), Operand::Output(first + 4)),
            },
            "can call bind()",
        ),
    ]
}

/// Asks the promise to call back, with `address`, when it is settled.
pub fn registration<V: Copy>(promise: V, address: u64) -> (script: ScriptRun<V>)
    ensures
        script@ == script_start(registration_steps(address), seq![promise]),
{
    let mut steps: Vec<Step> = bound_resolve_promise(0, Settlement::Fulfilled, address);
    let mut reject: Vec<Step> = bound_resolve_promise(6, Settlement::Rejected, address);
    let mut then: Vec<Step> = vec![
        expecting(
            Instruction::GetProperty {
                object: Operand::Input(0),
                key: PropertyKey::Name("then"),
            },
            "then() exists",
        ),
        expecting(
            Instruction::Downcast { value: Operand::Output(12), kind: JsKind::Function },
            "then() is a function",
        ),
        expecting(
            Instruction::Call {
                function: Operand::Output(13),
                this: Operand::Input(0),
                arguments: Arguments::Two(Operand::Output(5), Operand::Output(11)),
            },
            "can call then()",
        ),
    ];
    steps.append(&mut reject);
    steps.append(&mut then);
    ScriptRun::start(steps, vec![promise])
}

/// Begins to settle a future with `js_result`.
///
/// The transformation is applied right away, outside of any run of the context, and
/// [resolved] takes its result.
pub fn resolve_promise<R: JsPromiseResultConstructor, X, F, W, T, E, V>(
    future: &mut JsFuture<X, F, W, T, E>,
    js_result: V,
) -> (fulfillment: Fulfillment<X, F, W, V>)
    requires
        old(future)@ is Waiting,
    ensures
        final(future)@ is Consumed,
        fulfillment == old(future)@.fulfillment(R::settlement(), js_result),
{
    future.settle::<R, V>(js_result)
}

/// Gives a future its result, and takes one from the number that its context keeps, whether or
/// not the future was ever polled and counted.
///
/// Returns the task that is to be woken in a run of the context.
pub fn resolved<X, F, W, T, E, C>(
    future: &mut JsFuture<X, F, W, T, E>,
    context: &mut JsAsyncContext<C>,
    result: T,
    waker: Option<W>,
) -> (wake: Option<W>)
    requires
        old(context)@.pending > i32::MIN,
    ensures
        final(future)@ == JsFutureState::<X, F, W, T, E>::Complete(Ok(result)),
        final(context)@ == old(context)@.with_pending(old(context)@.pending - 1),
        wake == waker,
{
    let wake: Option<W> = future.complete(Ok(result), waker);
    context.fulfill_future();
    wake
}

/// A future of the bridge that a task is waiting for is counted like any other: what settling
/// it makes of the context's number is what [JsFuture::fulfill] makes of it. So the number is
/// that of the awaited futures here too, as long as no promise is settled before its future
/// was polled.
pub proof fn resolving_uncounts_awaited_future<X, F, W, T, E, C>(
    future: JsFutureState<X, F, W, T, E>,
    context: ContextView<C>,
)
    requires
        future.is_awaited(),
    ensures
        context.with_pending(context.pending - 1) == future.uncounted(context),
{
}

/// Builds a [JsFuture] out of a future that is waiting for its transformation.
pub struct JsFutureBuilder<X, F, W, T, E> {
    future: JsFuture<X, F, W, T, E>,
}

impl<X, F, W, T, E> View for JsFutureBuilder<X, F, W, T, E> {
    type V = JsFutureState<X, F, W, T, E>;

    closed spec fn view(&self) -> JsFutureState<X, F, W, T, E> {
        self.future@
    }
}

impl<X, F, W, T, E> JsFutureBuilder<X, F, W, T, E> {
    /// Prepares to handle the result of `future`.
    pub fn await_promise(future: JsFuture<X, F, W, T, E>) -> (builder: Self)
        ensures
            builder@ == future@,
    {
        JsFutureBuilder { future }
    }

    /// Whether the future still has to be told how to handle its result.
    pub fn is_open(&self) -> (open: bool)
        ensures
            open == self@.is_first_poll(),
    {
        self.future.is_waiting() && !self.future.is_awaited()
    }

    /// Produces a future using the given result handler.
    pub fn then<G>(self, transform: G) -> (future: JsFuture<X, G, W, T, E>)
        requires
            self@.is_first_poll(),
        ensures
            future@ == JsFutureState::<X, G, W, T, E>::fresh(self@->context, transform),
    {
        self.future.with_transform(transform)
    }
}

/// A promise is asked, request by request, to call the native function for fulfillment if it
/// is fulfilled, and the one for rejection if it is rejected, each with the same address bound
/// as its first argument. Whatever goes wrong in asking is a bug with a message of its own.
pub proof fn registration_requests<V>(promise: V, address: u64, replies: Seq<JsReply<V>>)
    requires
        replies.len() == 15,
        all_values(replies),
    ensures
        ({
            let script = script_start(registration_steps(address), seq![promise]);
            let reply = |i: int| replies[i]->value;
            let asked = |at: int, request: Instruction<V>, message: &'static str|
                asks(script, replies, at, request, ScriptOutcome::Panicked(message));
            let bound = |first: int, settlement: Settlement|
                {
                    &&& asked(
                        first,
                        Instruction::Function(NativeFunction::ResolvePromise(settlement)),
                        "can create function",
                    )
                    &&& asked(
                        first + 1,
                        Instruction::GetProperty {
                            object: reply(first),
                            key: PropertyKey::Name("bind"),
                        },
                        "bind() exists",
                    )
                    &&& asked(
                        first + 2,
                        Instruction::Downcast { value: reply(first + 1), kind: JsKind::Function },
                        "bind() is a function",
                    )
                    &&& asks(
                        script,
                        replies,
                        first + 3,
                        Instruction::Undefined,
                        ScriptOutcome::Threw,
                    )
                    &&& asks(
                        script,
                        replies,
                        first + 4,
                        Instruction::NumberFromInteger(address),
                        ScriptOutcome::Threw,
                    )
                    &&& asked(
                        first + 5,
                        Instruction::Call {
                            function: reply(first + 2),
                            this: reply(first),
                            arguments: Arguments::Two(reply(first + 3), reply(first + 4)),
                        },
                        "can call bind()",
                    )
                };
            &&& bound(0, Settlement::Fulfilled)
            &&& bound(6, Settlement::Rejected)
            &&& asked(
                12,
                Instruction::GetProperty { object: promise, key: PropertyKey::Name("then") },
                "then() exists",
            )
            &&& asked(
                13,
                Instruction::Downcast { value: reply(12), kind: JsKind::Function },
                "then() is a function",
            )
            &&& asked(
                14,
                Instruction::Call {
                    function: reply(13),
                    this: promise,
                    arguments: Arguments::Two(reply(5), reply(11)),
                },
                "can call then()",
            )
            &&& finishes(script, replies)
        }),
{
    script_finishes_with_its_replies(registration_steps(address), seq![promise], replies);
}

} // verus!
