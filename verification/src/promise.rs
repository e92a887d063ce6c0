//! Promises for the results of Rust futures.

use vstd::prelude::*;

use crate::context::{store_access, JsAsyncContext};
use crate::context_data::{ContextDataAccess, JsAsyncContextKey};
use crate::script::{
    all_values, asks, finishes, passing, script_finishes_with_its_replies, script_start, Arguments,
    Instruction, JsKind, JsReply, NativeFunction, Operand, PropertyKey, ScriptOutcome, ScriptRun,
    ScriptView, Step,
};
use crate::util::{concatenated, describe_any, panic_message, PanicPayload};

verus! {

/// The property that holds the function to fulfill a promise with.
pub const RESOLVE_SLOT: &'static str = "_resolve";

/// The property that holds the function to reject a promise with.
pub const REJECT_SLOT: &'static str = "_reject";

/// Saves the first two arguments, which must be functions, as `this._resolve` and
/// `this._reject`.
pub open spec fn save_callback_steps() -> Seq<Step> {
    seq![
        passing(Instruction::This),
        passing(Instruction::Argument { index: 0, kind: JsKind::Function }),
        passing(
            Instruction::SetProperty {
                object: Operand::Output(0),
                key: PropertyKey::Name(RESOLVE_SLOT),
                value: Operand::Output(1),
            },
        ),
        passing(Instruction::Argument { index: 1, kind: JsKind::Function }),
        passing(
            Instruction::SetProperty {
                object: Operand::Output(0),
                key: PropertyKey::Name(REJECT_SLOT),
                value: Operand::Output(3),
            },
        ),
        passing(Instruction::Undefined),
    ]
}

/// Makes an object for the callbacks of a promise, which is the result of the first
/// instruction, and then the promise, which is the result of the last.
pub open spec fn promise_steps() -> Seq<Step> {
    seq![
        passing(Instruction::EmptyObject),
        passing(Instruction::Function(NativeFunction::SavePromiseCallbacks)),
        passing(
            Instruction::GetProperty {
                object: Operand::Output(1),
                key: PropertyKey::Name("bind"),
            },
        ),
        passing(Instruction::Downcast { value: Operand::Output(2), kind: JsKind::Function }),
        passing(
            Instruction::Call {
                function: Operand::Output(3),
                this: Operand::Output(1),
                arguments: Arguments::One(Operand::Output(0)),
            },
        ),
        passing(Instruction::GlobalObject),
        passing(
            Instruction::GetProperty {
                object: Operand::Output(5),
                key: PropertyKey::Name("Promise"),
            },
        ),
        passing(Instruction::Downcast { value: Operand::Output(6), kind: JsKind::Function }),
        passing(
            Instruction::Construct {
                function: Operand::Output(7),
                arguments: Arguments::One(Operand::Output(4)),
            },
        ),
    ]
}

/// Calls the function in the given slot of the object for the callbacks, the first input,
/// with the second input.
pub open spec fn deliver_steps(slot: &'static str) -> Seq<Step> {
    seq![
        passing(
            Instruction::GetProperty { object: Operand::Input(0), key: PropertyKey::Name(slot) },
        ),
        passing(Instruction::Downcast { value: Operand::Output(0), kind: JsKind::Function }),
        passing(
            Instruction::Call {
                function: Operand::Output(1),
                this: Operand::Input(0),
                arguments: Arguments::One(Operand::Input(1)),
            },
        ),
    ]
}

/// What a promise's future came to.
pub enum FutureOutcome<F> {
    /// It returned the function that makes the promise's value.
    Returned(F),
    /// It failed with an exception that is kept under this key.
    Failed(JsAsyncContextKey),
    Panicked(PanicPayload),
}

/// What the function that makes a promise's value came to.
pub enum FulfillOutcome<V> {
    Returned(V),
    Threw(V),
    Panicked(PanicPayload),
}

/// What a promise is settled with, and by which of its callbacks.
pub struct Delivery<V> {
    pub slot: &'static str,
    pub value: V,
}

/// What is to be done next in order to settle a promise.
pub enum SettleStep<F, V> {
    /// Call the function that makes the promise's value.
    Fulfill(F),
    /// Get the exception that is kept under this key, and [reject](reject) with it.
    Load(JsAsyncContextKey),
    /// Make an error with this message, and [reject](reject) with it.
    MakeError(String),
    /// [Deliver](deliver) the value.
    Deliver(Delivery<V>),
}

/// [SettleStep], over the text of its message.
pub enum SettleView<F, V> {
    Fulfill(F),
    Load(JsAsyncContextKey),
    MakeError(Seq<char>),
    Deliver(Delivery<V>),
}

impl<F, V> View for SettleStep<F, V> {
    type V = SettleView<F, V>;

    open spec fn view(&self) -> SettleView<F, V> {
        match *self {
            SettleStep::Fulfill(function) => SettleView::Fulfill(function),
            SettleStep::Load(key) => SettleView::Load(key),
            SettleStep::MakeError(message) => SettleView::MakeError(message@),
            SettleStep::Deliver(delivery) => SettleView::Deliver(delivery),
        }
    }
}

/// The message of the error that a panic is translated to.
pub open spec fn panic_error_message(payload: PanicPayload) -> Seq<char> {
    "unexpected panic: "@ + panic_message(payload)
}

/// What follows from what a promise's future came to.
pub open spec fn future_settled<F, V>(outcome: FutureOutcome<F>) -> SettleView<F, V> {
    match outcome {
        FutureOutcome::Returned(function) => SettleView::Fulfill(function),
        FutureOutcome::Failed(key) => SettleView::Load(key),
        FutureOutcome::Panicked(payload) => SettleView::MakeError(panic_error_message(payload)),
    }
}

/// What follows from what the function that makes a promise's value came to.
pub open spec fn value_settled<F, V>(outcome: FulfillOutcome<V>) -> SettleView<F, V> {
    match outcome {
        FulfillOutcome::Returned(value) => SettleView::Deliver(
            Delivery { slot: RESOLVE_SLOT, value },
        ),
        FulfillOutcome::Threw(value) => SettleView::Deliver(Delivery { slot: REJECT_SLOT, value }),
        FulfillOutcome::Panicked(payload) => SettleView::MakeError(panic_error_message(payload)),
    }
}

/// The function that a new promise hands its callbacks to.
pub fn save_promise_callbacks<V: Copy>() -> (script: ScriptRun<V>)
    ensures
        script@ == script_start::<V>(save_callback_steps(), Seq::empty()),
{
    let steps: Vec<Step> = vec![
        passing(Instruction::This),
        passing(Instruction::Argument { index: 0, kind: JsKind::Function }),
        passing(
            Instruction::SetProperty {
                object: Operand::Output(0),
                key: PropertyKey::Name(RESOLVE_SLOT),
                value: Operand::Output(1),
            },
        ),
        passing(Instruction::Argument { index: 1, kind: JsKind::Function }),
        passing(
            Instruction::SetProperty {
                object: Operand::Output(0),
                key: PropertyKey::Name(REJECT_SLOT),
                value: Operand::Output(3),
            },
        ),
        passing(Instruction::Undefined),
    ];
    ScriptRun::start(steps, Vec::new())
}

/// Produces a JavaScript promise whose callbacks are saved for later.
///
/// The object that they are saved in is the first result, the promise is the last.
pub fn promise<V: Copy>() -> (script: ScriptRun<V>)
    ensures
        script@ == script_start::<V>(promise_steps(), Seq::empty()),
{
    let steps: Vec<Step> = vec![
        passing(Instruction::EmptyObject),
        passing(Instruction::Function(NativeFunction::SavePromiseCallbacks)),
        passing(
            Instruction::GetProperty {
                object: Operand::Output(1),
                key: PropertyKey::Name("bind"),
            },
        ),
        passing(Instruction::Downcast { value: Operand::Output(2), kind: JsKind::Function }),
        passing(
            Instruction::Call {
                function: Operand::Output(3),
                this: Operand::Output(1),
                arguments: Arguments::One(Operand::Output(0)),
            },
        ),
        passing(Instruction::GlobalObject),
        passing(
            Instruction::GetProperty {
                object: Operand::Output(5),
                key: PropertyKey::Name("Promise"),
            },
        ),
        passing(Instruction::Downcast { value: Operand::Output(6), kind: JsKind::Function }),
        passing(
            Instruction::Construct {
                function: Operand::Output(7),
                arguments: Arguments::One(Operand::Output(4)),
            },
        ),
    ];
    ScriptRun::start(steps, Vec::new())
}

/// A promise whose callbacks are about to be kept.
pub struct NewPromise<V> {
    pub promise: V,
    /// The claim check for the object that the callbacks were saved in.
    pub key: JsAsyncContextKey,
    /// What is left to do to keep the object.
    pub access: ContextDataAccess<V>,
}

/// Keeps the callbacks of a new promise, given the results of [the script](promise) that
/// made it.
pub fn keep_promise<C, V: Copy>(context: &mut JsAsyncContext<C>, results: Vec<V>) -> (new:
    NewPromise<V>)
    requires
        results@.len() == promise_steps().len(),
        old(context)@.next_id < u32::MAX,
    ensures
        new.promise == results@.last(),
        new.key == old(context)@.next_key(JsKind::Object),
        new.access@ == store_access(old(context)@, results@[0]),
        final(context)@ == old(context)@.registered(),
{
    let promise: V = results[results.len() - 1];
    let (key, access) = context.register_context_data(results[0], JsKind::Object);
    NewPromise { promise, key, access }
}

fn panic_error_text(payload: &PanicPayload) -> (text: String)
    ensures
        text@ == panic_error_message(*payload),
{
    let description: String = describe_any(payload);
    concatenated("unexpected panic: ", description.as_str())
}

/// Begins to settle a promise, now that its future has come to an end.
pub fn settle_future<F, V>(outcome: FutureOutcome<F>) -> (step: SettleStep<F, V>)
    ensures
        step@ == future_settled::<F, V>(outcome),
{
    match outcome {
        FutureOutcome::Returned(function) => SettleStep::Fulfill(function),
        FutureOutcome::Failed(key) => SettleStep::Load(key),
        FutureOutcome::Panicked(payload) => SettleStep::MakeError(panic_error_text(&payload)),
    }
}

/// Settles a promise, now that the function that makes its value has come to an end.
pub fn settle_value<F, V>(outcome: FulfillOutcome<V>) -> (step: SettleStep<F, V>)
    ensures
        step@ == value_settled::<F, V>(outcome),
{
    match outcome {
        FulfillOutcome::Returned(value) => SettleStep::Deliver(
            Delivery { slot: RESOLVE_SLOT, value },
        ),
        FulfillOutcome::Threw(value) => SettleStep::Deliver(Delivery { slot: REJECT_SLOT, value }),
        FulfillOutcome::Panicked(payload) => SettleStep::MakeError(panic_error_text(&payload)),
    }
}

/// Settles a promise with an exception.
pub fn reject<V>(exception: V) -> (delivery: Delivery<V>)
    ensures
        delivery == (Delivery { slot: REJECT_SLOT, value: exception }),
{
    Delivery { slot: REJECT_SLOT, value: exception }
}

/// Calls back into JavaScript to settle a promise.
///
/// `callbacks` is the object that the promise's callbacks were saved in.
pub fn deliver<V: Copy>(callbacks: V, delivery: Delivery<V>) -> (script: ScriptRun<V>)
    ensures
        script@ == script_start(deliver_steps(delivery.slot), seq![callbacks, delivery.value]),
{
    let steps: Vec<Step> = vec![
        passing(
            Instruction::GetProperty {
                object: Operand::Input(0),
                key: PropertyKey::Name(delivery.slot),
            },
        ),
        passing(Instruction::Downcast { value: Operand::Output(0), kind: JsKind::Function }),
        passing(
            Instruction::Call {
                function: Operand::Output(1),
                this: Operand::Input(0),
                arguments: Arguments::One(Operand::Input(1)),
            },
        ),
    ];
    ScriptRun::start(steps, vec![callbacks, delivery.value])
}

/// How far the settling of a promise has come.
pub enum SettleStage<V> {
    /// The promise's value is being made.
    Fulfilling,
    /// The exception to reject with is being found, or made.
    Rejecting,
    /// The object that the promise's callbacks were saved in is being found.
    Fetching(Delivery<V>),
    /// The callback is being called.
    Delivering,
}

/// What came of an action.
pub enum SettleEvent<V> {
    /// The function that makes the promise's value came to this.
    Made(FulfillOutcome<V>),
    /// The value was found, or the error made.
    Obtained(V),
}

/// What is to be done next.
pub enum SettleAction<F, V> {
    /// Call the function that makes the promise's value.
    Fulfill(F),
    /// Find the value that is kept under this key.
    Load(JsAsyncContextKey),
    /// Make an error with this message.
    MakeError(String),
    /// Call the callback, after which the promise is settled.
    Run(ScriptRun<V>),
}

/// [SettleAction], over the text of its message and the view of its script.
pub enum SettleActionView<F, V> {
    Fulfill(F),
    Load(JsAsyncContextKey),
    MakeError(Seq<char>),
    Run(ScriptView<V>),
}

impl<F, V> View for SettleAction<F, V> {
    type V = SettleActionView<F, V>;

    open spec fn view(&self) -> SettleActionView<F, V> {
        match *self {
            SettleAction::Fulfill(function) => SettleActionView::Fulfill(function),
            SettleAction::Load(key) => SettleActionView::Load(key),
            SettleAction::MakeError(message) => SettleActionView::MakeError(message@),
            SettleAction::Run(script) => SettleActionView::Run(script@),
        }
    }
}

/// The settling of a promise, from the end of its future on.
pub struct PromiseSettlement<V> {
    /// The claim check for the object that the promise's callbacks were saved in.
    pub callbacks: JsAsyncContextKey,
    pub stage: SettleStage<V>,
}

/// A step of a settlement: where it goes, and what it asks for.
pub struct SettlementStep<F, V> {
    pub settlement: PromiseSettlement<V>,
    pub action: SettleActionView<F, V>,
}

/// Where a settlement goes when this is to be done next.
///
/// The callbacks are looked for only when it is known what the promise is settled with.
pub open spec fn settlement_step<F, V>(
    callbacks: JsAsyncContextKey,
    step: SettleView<F, V>,
) -> SettlementStep<F, V> {
    let (stage, action) = match step {
        SettleView::Fulfill(function) => (
            SettleStage::Fulfilling,
            SettleActionView::Fulfill(function),
        ),
        SettleView::Load(key) => (SettleStage::Rejecting, SettleActionView::Load(key)),
        SettleView::MakeError(message) => (
            SettleStage::Rejecting,
            SettleActionView::MakeError(message),
        ),
        SettleView::Deliver(delivery) => (
            SettleStage::Fetching(delivery),
            SettleActionView::Load(callbacks),
        ),
    };
    SettlementStep { settlement: PromiseSettlement { callbacks, stage }, action }
}

impl<V> PromiseSettlement<V> {
    /// The event can happen at this stage of the settlement.
    pub open spec fn expects(self, event: SettleEvent<V>) -> bool {
        match self.stage {
            SettleStage::Fulfilling => event is Made,
            SettleStage::Rejecting => event is Obtained,
            SettleStage::Fetching(_) => event is Obtained,
            SettleStage::Delivering => false,
        }
    }

    /// What follows from an event.
    pub open spec fn next<F>(self, event: SettleEvent<V>) -> SettlementStep<F, V> {
        match (self.stage, event) {
            (_, SettleEvent::Made(outcome)) => settlement_step(
                self.callbacks,
                value_settled::<F, V>(outcome),
            ),
            (SettleStage::Fetching(delivery), SettleEvent::Obtained(callbacks)) => SettlementStep {
                settlement: PromiseSettlement {
                    callbacks: self.callbacks,
                    stage: SettleStage::Delivering,
                },
                action: SettleActionView::Run(
                    script_start(deliver_steps(delivery.slot), seq![callbacks, delivery.value]),
                ),
            },
            (_, SettleEvent::Obtained(exception)) => settlement_step(
                self.callbacks,
                SettleView::Deliver(Delivery { slot: REJECT_SLOT, value: exception }),
            ),
        }
    }
}

impl<V: Copy> PromiseSettlement<V> {
    fn follow<F>(callbacks: JsAsyncContextKey, step: SettleStep<F, V>) -> (followed: (
        Self,
        SettleAction<F, V>,
    ))
        ensures
            ({
                let next = settlement_step(callbacks, step@);
                followed.0 == next.settlement && followed.1@ == next.action
            }),
    {
        let (stage, action) = match step {
            SettleStep::Fulfill(function) => (
                SettleStage::Fulfilling,
                SettleAction::Fulfill(function),
            ),
            SettleStep::Load(key) => (SettleStage::Rejecting, SettleAction::Load(key)),
            SettleStep::MakeError(message) => (
                SettleStage::Rejecting,
                SettleAction::MakeError(message),
            ),
            SettleStep::Deliver(delivery) => (
                SettleStage::Fetching(delivery),
                SettleAction::Load(callbacks),
            ),
        };
        (PromiseSettlement { callbacks, stage }, action)
    }

    /// Begins to settle the promise whose callbacks are kept under `callbacks`, now that its
    /// future has come to an end.
    pub fn start<F>(callbacks: JsAsyncContextKey, outcome: FutureOutcome<F>) -> (started: (
        Self,
        SettleAction<F, V>,
    ))
        ensures
            ({
                let next = settlement_step(callbacks, future_settled::<F, V>(outcome));
                started.0 == next.settlement && started.1@ == next.action
            }),
    {
        Self::follow(callbacks, settle_future(outcome))
    }

    /// Goes on from an event.
    pub fn step<F>(self, event: SettleEvent<V>) -> (step: (Self, SettleAction<F, V>))
        requires
            self.expects(event),
        ensures
            ({
                let next = self.next::<F>(event);
                step.0 == next.settlement && step.1@ == next.action
            }),
    {
        let PromiseSettlement { callbacks: key, stage } = self;
        match (stage, event) {
            (_, SettleEvent::Made(outcome)) => Self::follow(key, settle_value(outcome)),
            (SettleStage::Fetching(delivery), SettleEvent::Obtained(callbacks)) => (
                PromiseSettlement { callbacks: key, stage: SettleStage::Delivering },
                SettleAction::Run(deliver(callbacks, delivery)),
            ),
            (_, SettleEvent::Obtained(exception)) => Self::follow(
                key,
                SettleStep::Deliver(reject(exception)),
            ),
        }
    }
}

/// Use this to return your "fulfill" function from the future of a promise.
///
/// It is equivalent to `Ok`.
pub fn fulfill_promise<F, E>(callback: F) -> (result: Result<F, E>)
    ensures
        result == Ok::<F, E>(callback),
{
    Ok(callback)
}

/// What a promise is settled with in the end, given what its future came to, what calling a
/// function comes to, which exceptions are kept, and which value is the error for a message.
pub open spec fn delivered<F, V>(
    outcome: FutureOutcome<F>,
    call: spec_fn(F) -> FulfillOutcome<V>,
    kept: spec_fn(JsAsyncContextKey) -> V,
    error: spec_fn(Seq<char>) -> V,
) -> Delivery<V> {
    let step = match future_settled::<F, V>(outcome) {
        SettleView::Fulfill(function) => value_settled::<F, V>(call(function)),
        step => step,
    };
    match step {
        SettleView::Deliver(delivery) => delivery,
        SettleView::Load(key) => Delivery { slot: REJECT_SLOT, value: kept(key) },
        SettleView::MakeError(message) => Delivery { slot: REJECT_SLOT, value: error(message) },
        SettleView::Fulfill(function) => arbitrary(),
    }
}

/// A promise is fulfilled with the value that was made for it, and only with that. It is
/// rejected with the exception that stopped its future, with the exception that was thrown
/// instead of making a value, or with an error that tells of a panic in either.
pub proof fn promise_settles_as_promised<F, V>(
    outcome: FutureOutcome<F>,
    call: spec_fn(F) -> FulfillOutcome<V>,
    kept: spec_fn(JsAsyncContextKey) -> V,
    error: spec_fn(Seq<char>) -> V,
)
    ensures
        RESOLVE_SLOT@ != REJECT_SLOT@,
        delivered(outcome, call, kept, error) == match outcome {
            FutureOutcome::Returned(function) => match call(function) {
                FulfillOutcome::Returned(value) => Delivery { slot: RESOLVE_SLOT, value },
                FulfillOutcome::Threw(exception) => Delivery {
                    slot: REJECT_SLOT,
                    value: exception,
                },
                FulfillOutcome::Panicked(payload) => Delivery {
                    slot: REJECT_SLOT,
                    value: error(panic_error_message(payload)),
                },
            },
            FutureOutcome::Failed(key) => Delivery { slot: REJECT_SLOT, value: kept(key) },
            FutureOutcome::Panicked(payload) => Delivery {
                slot: REJECT_SLOT,
                value: error(panic_error_message(payload)),
            },
        },
{
    reveal_strlit("_resolve");
    reveal_strlit("_reject");
    assert(RESOLVE_SLOT@.len() != REJECT_SLOT@.len());
}

/// The script that a settlement ends with, within `fuel` events, given what calling a function
/// comes to, what is kept under a key, and which value is the error for a message.
pub open spec fn settlement_script<F, V>(
    step: SettlementStep<F, V>,
    call: spec_fn(F) -> FulfillOutcome<V>,
    kept: spec_fn(JsAsyncContextKey) -> V,
    error: spec_fn(Seq<char>) -> V,
    fuel: nat,
) -> Option<ScriptView<V>>
    decreases fuel,
{
    if let SettleActionView::Run(script) = step.action {
        Some(script)
    } else if fuel == 0 {
        None
    } else {
        let event = match step.action {
            SettleActionView::Fulfill(function) => SettleEvent::Made(call(function)),
            SettleActionView::Load(key) => SettleEvent::Obtained(kept(key)),
            SettleActionView::MakeError(message) => SettleEvent::Obtained(error(message)),
            SettleActionView::Run(_) => arbitrary(),
        };
        if step.settlement.expects(event) {
            settlement_script(
                step.settlement.next::<F>(event),
                call,
                kept,
                error,
                (fuel - 1) as nat,
            )
        } else {
            None
        }
    }
}

/// Whatever a promise's future came to, the promise is settled in three events or fewer, by
/// handing [what it is settled with](delivered) to one of the callbacks in the object that is
/// kept for this promise.
pub proof fn promise_is_settled_through_its_callbacks<F, V>(
    callbacks: JsAsyncContextKey,
    outcome: FutureOutcome<F>,
    call: spec_fn(F) -> FulfillOutcome<V>,
    kept: spec_fn(JsAsyncContextKey) -> V,
    error: spec_fn(Seq<char>) -> V,
)
    ensures
        ({
            let delivery = delivered(outcome, call, kept, error);
            settlement_script(
                settlement_step(callbacks, future_settled::<F, V>(outcome)),
                call,
                kept,
                error,
                3,
            ) == Some(
                script_start(
                    deliver_steps(delivery.slot),
                    seq![kept(callbacks), delivery.value],
                ),
            )
        }),
{
    reveal_with_fuel(settlement_script, 4);
}

/// The callbacks that a new promise hands over are the ones that settle it: its first
/// argument is saved in the slot from which a promise is fulfilled, and its second in the
/// slot from which a promise is rejected. Settling a promise calls what its slot holds.
///
/// `saved` and `called` are the engine's answers to the instructions of the two scripts.
pub proof fn saved_callbacks_are_called<V>(
    saved: Seq<V>,
    callbacks: V,
    delivery: Delivery<V>,
    called: Seq<V>,
)
    requires
        saved.len() == save_callback_steps().len(),
        called.len() == deliver_steps(delivery.slot).len(),
    ensures
        saved.len() == 6,
        called.len() == 3,
        ({
            let saving = |done: int|
                ScriptView {
                    steps: save_callback_steps(),
                    inputs: Seq::empty(),
                    outputs: saved.take(done),
                };
            let delivering = |done: int|
                ScriptView {
                    steps: deliver_steps(delivery.slot),
                    inputs: seq![callbacks, delivery.value],
                    outputs: called.take(done),
                };
            &&& saving(0).command() == Instruction::<V>::This
            &&& saving(1).command() == (Instruction::<V>::Argument {
                index: 0,
                kind: JsKind::Function,
            })
            &&& saving(2).command() == (Instruction::SetProperty {
                object: saved[0],
                key: PropertyKey::Name(RESOLVE_SLOT),
                value: saved[1],
            })
            &&& saving(3).command() == (Instruction::<V>::Argument {
                index: 1,
                kind: JsKind::Function,
            })
            &&& saving(4).command() == (Instruction::SetProperty {
                object: saved[0],
                key: PropertyKey::Name(REJECT_SLOT),
                value: saved[3],
            })
            &&& delivering(0).command() == (Instruction::GetProperty {
                object: callbacks,
                key: PropertyKey::Name(delivery.slot),
            })
            &&& delivering(1).command() == (Instruction::Downcast {
                value: called[0],
                kind: JsKind::Function,
            })
            &&& delivering(2).command() == (Instruction::Call {
                function: called[1],
                this: callbacks,
                arguments: Arguments::One(delivery.value),
            })
        }),
{
}

/// A new promise is made with the function that saves its callbacks, bound to a new object of
/// its own: the first result is the object, and the last is what the engine's constructor of
/// promises made. Whatever goes wrong is left to the caller.
pub proof fn promise_requests<V>(replies: Seq<JsReply<V>>)
    requires
        replies.len() == 9,
        all_values(replies),
    ensures
        ({
            let script = script_start::<V>(promise_steps(), Seq::empty());
            let reply = |i: int| replies[i]->value;
            let asked = |at: int, request: Instruction<V>|
                asks(script, replies, at, request, ScriptOutcome::Threw);
            &&& asked(0, Instruction::EmptyObject)
            &&& asked(1, Instruction::Function(NativeFunction::SavePromiseCallbacks))
            &&& asked(
                2,
                Instruction::GetProperty { object: reply(1), key: PropertyKey::Name("bind") },
            )
            &&& asked(3, Instruction::Downcast { value: reply(2), kind: JsKind::Function })
            &&& asked(
                4,
                Instruction::Call {
                    function: reply(3),
                    this: reply(1),
                    arguments: Arguments::One(reply(0)),
                },
            )
            &&& asked(5, Instruction::GlobalObject)
            &&& asked(
                6,
                Instruction::GetProperty { object: reply(5), key: PropertyKey::Name("Promise") },
            )
            &&& asked(7, Instruction::Downcast { value: reply(6), kind: JsKind::Function })
            &&& asked(
                8,
                Instruction::Construct {
                    function: reply(7),
                    arguments: Arguments::One(reply(4)),
                },
            )
            &&& finishes(script, replies)
        }),
{
    script_finishes_with_its_replies(promise_steps(), Seq::<V>::empty(), replies);
}

/// The function that a new promise hands its callbacks to puts its first argument in
/// `this._resolve` and its second in `this._reject`, both of which must be functions, and
/// returns `undefined`.
pub proof fn save_callback_requests<V>(replies: Seq<JsReply<V>>)
    requires
        replies.len() == 6,
        all_values(replies),
    ensures
        ({
            let script = script_start::<V>(save_callback_steps(), Seq::empty());
            let reply = |i: int| replies[i]->value;
            let asked = |at: int, request: Instruction<V>|
                asks(script, replies, at, request, ScriptOutcome::Threw);
            &&& asked(0, Instruction::This)
            &&& asked(1, Instruction::Argument { index: 0, kind: JsKind::Function })
            &&& asked(
                2,
                Instruction::SetProperty {
                    object: reply(0),
                    key: PropertyKey::Name("_resolve"),
                    value: reply(1),
                },
            )
            &&& asked(3, Instruction::Argument { index: 1, kind: JsKind::Function })
            &&& asked(
                4,
                Instruction::SetProperty {
                    object: reply(0),
                    key: PropertyKey::Name("_reject"),
                    value: reply(3),
                },
            )
            &&& asked(5, Instruction::Undefined)
            &&& finishes(script, replies)
        }),
{
    script_finishes_with_its_replies(save_callback_steps(), Seq::<V>::empty(), replies);
}

/// Settling a promise calls the function that its object has in the given slot, as a method of
/// the object, with the value and nothing else.
pub proof fn deliver_requests<V>(
    slot: &'static str,
    callbacks: V,
    value: V,
    replies: Seq<JsReply<V>>,
)
    requires
        replies.len() == 3,
        all_values(replies),
    ensures
        ({
            let script = script_start(deliver_steps(slot), seq![callbacks, value]);
            let reply = |i: int| replies[i]->value;
            let asked = |at: int, request: Instruction<V>|
                asks(script, replies, at, request, ScriptOutcome::Threw);
            &&& asked(
                0,
                Instruction::GetProperty { object: callbacks, key: PropertyKey::Name(slot) },
            )
            &&& asked(1, Instruction::Downcast { value: reply(0), kind: JsKind::Function })
            &&& asked(
                2,
                Instruction::Call {
                    function: reply(1),
                    this: callbacks,
                    arguments: Arguments::One(value),
                },
            )
            &&& finishes(script, replies)
        }),
{
    script_finishes_with_its_replies(deliver_steps(slot), seq![callbacks, value], replies);
}

/// A value that was made fulfills its promise. An exception in making it, an exception that the
/// future failed with, and an error that tells of a panic reject it. The error's message is the
/// panic's, after a fixed beginning.
pub proof fn outcomes_settle_through_their_slot<F, V>(
    function: F,
    key: JsAsyncContextKey,
    payload: PanicPayload,
    value: V,
)
    ensures
        future_settled::<F, V>(FutureOutcome::Returned(function)) == SettleView::<F, V>::Fulfill(
            function,
        ),
        future_settled::<F, V>(FutureOutcome::Failed(key)) == SettleView::<F, V>::Load(key),
        future_settled::<F, V>(FutureOutcome::Panicked(payload)) == SettleView::<F, V>::MakeError(
            "unexpected panic: "@ + match payload {
                PanicPayload::Literal(message) => message@,
                PanicPayload::Formatted(message) => message@,
                PanicPayload::Opaque => "(break on rust_panic to debug)"@,
            },
        ),
        value_settled::<F, V>(FulfillOutcome::Returned(value)) == SettleView::<F, V>::Deliver(
            Delivery { slot: "_resolve", value },
        ),
        value_settled::<F, V>(FulfillOutcome::Threw(value)) == SettleView::<F, V>::Deliver(
            Delivery { slot: "_reject", value },
        ),
        value_settled::<F, V>(FulfillOutcome::Panicked(payload)) == future_settled::<F, V>(
            FutureOutcome::Panicked(payload),
        ),
        REJECT_SLOT == "_reject",
{
}

/// A settlement keeps the key of its promise's callbacks, and asks for what is kept under it
/// exactly when it is known what the promise is settled with. What is found there is called.
pub proof fn settlement_asks_in_turn<F, V>(
    callbacks: JsAsyncContextKey,
    function: F,
    key: JsAsyncContextKey,
    message: Seq<char>,
    delivery: Delivery<V>,
    object: V,
)
    ensures
        ({
            let fulfill = settlement_step::<F, V>(callbacks, SettleView::Fulfill(function));
            let load = settlement_step::<F, V>(callbacks, SettleView::Load(key));
            let make = settlement_step::<F, V>(callbacks, SettleView::MakeError(message));
            let deliver = settlement_step::<F, V>(callbacks, SettleView::Deliver(delivery));
            let run = deliver.settlement.next::<F>(SettleEvent::Obtained(object));
            let rejected = load.settlement.next::<F>(SettleEvent::Obtained(object));
            let made = |outcome: FulfillOutcome<V>|
                fulfill.settlement.next::<F>(SettleEvent::Made(outcome));
            &&& forall|outcome: FulfillOutcome<V>| #[trigger] made(outcome) == settlement_step::<
                F,
                V,
            >(callbacks, value_settled::<F, V>(outcome))
            &&& fulfill.action == SettleActionView::<F, V>::Fulfill(function)
            &&& fulfill.settlement.stage is Fulfilling
            &&& load.action == SettleActionView::<F, V>::Load(key)
            &&& load.settlement.stage is Rejecting
            &&& make.action == SettleActionView::<F, V>::MakeError(message)
            &&& make.settlement == load.settlement
            &&& deliver.action == SettleActionView::<F, V>::Load(callbacks)
            &&& deliver.settlement.stage == SettleStage::Fetching(delivery)
            &&& deliver.settlement.callbacks == callbacks
            &&& rejected == settlement_step::<F, V>(
                callbacks,
                SettleView::Deliver(Delivery { slot: "_reject", value: object }),
            )
            &&& run.settlement.stage is Delivering
            &&& run.action == SettleActionView::<F, V>::Run(
                ScriptView {
                    steps: deliver_steps(delivery.slot),
                    inputs: seq![object, delivery.value],
                    outputs: Seq::empty(),
                },
            )
        }),
{
}

/// A settlement can go on from what making the value came to while the value is being made,
/// from what was found or made while something is being looked for, and from nothing once the
/// callback is called.
pub proof fn settlement_expects_what_it_asked_for<V>(
    callbacks: JsAsyncContextKey,
    delivery: Delivery<V>,
    event: SettleEvent<V>,
)
    ensures
        (PromiseSettlement { callbacks, stage: SettleStage::<V>::Fulfilling }).expects(event)
            <==> event is Made,
        (PromiseSettlement { callbacks, stage: SettleStage::<V>::Rejecting }).expects(event)
            <==> event is Obtained,
        (PromiseSettlement { callbacks, stage: SettleStage::Fetching(delivery) }).expects(event)
            <==> event is Obtained,
        !(PromiseSettlement { callbacks, stage: SettleStage::<V>::Delivering }).expects(event),
{
}

/// What is to be done next in order to settle a promise is told as it is.
pub proof fn settling_is_told_as_it_is<F, V>(
    function: F,
    key: JsAsyncContextKey,
    message: String,
    delivery: Delivery<V>,
    script: ScriptRun<V>,
)
    ensures
        SettleStep::<F, V>::Fulfill(function)@ == SettleView::<F, V>::Fulfill(function),
        SettleStep::<F, V>::Load(key)@ == SettleView::<F, V>::Load(key),
        SettleStep::<F, V>::MakeError(message)@ == SettleView::<F, V>::MakeError(message@),
        SettleStep::<F, V>::Deliver(delivery)@ == SettleView::<F, V>::Deliver(delivery),
        SettleAction::<F, V>::Fulfill(function)@ == SettleActionView::<F, V>::Fulfill(function),
        SettleAction::<F, V>::Load(key)@ == SettleActionView::<F, V>::Load(key),
        SettleAction::<F, V>::MakeError(message)@ == SettleActionView::<F, V>::MakeError(message@),
        SettleAction::<F, V>::Run(script)@ == SettleActionView::<F, V>::Run(script@),
{
}

} // verus!
