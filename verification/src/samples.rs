//! Small native functions that show what becomes of panics and exceptions.
//!
//! Each of them waits for a promise and makes another promise for the result. Except for
//! [increment_promise], each of them goes wrong at one point on the way.

use vstd::prelude::*;

use crate::context_data::JsAsyncContextKey;
use crate::promise::{delivered, Delivery, FulfillOutcome, FutureOutcome, REJECT_SLOT, RESOLVE_SLOT};
use crate::result::JsPromiseResult;
use crate::script::{
    all_values, asks, expecting, finishes, passing, script_finishes_with_its_replies, script_start,
    Arguments, Instruction, JsKind, JsReply, Operand, ScriptOutcome, ScriptRun, Step,
};
use crate::util::{error_message, error_text, panic_message, PanicPayload};

verus! {

/// The message that a sample panics with, or that the error it throws has.
pub const CHECK_FOR_THIS: &'static str = "check for this";

/// The message that the transformation of [panic_on_resolve] panics with.
pub const HELLO: &'static str = "hello";

/// How a sample goes wrong.
#[derive(Clone, Copy, Debug, PartialEq, Eq, Structural)]
pub enum Fault {
    Panic,
    Throw,
}

/// Where a sample goes wrong.
#[derive(Clone, Copy, Debug, PartialEq, Eq, Structural)]
pub enum Point {
    /// In the future, before it waits for the promise.
    PreAwait,
    /// In the transformation of the promise's result.
    DuringCallback,
    /// In the future, after it has waited for the promise.
    PostAwait,
    /// In the function that makes the value of the new promise.
    DuringFulfill,
}

/// A native function that waits for a promise of a number and makes a promise of its own.
#[derive(Clone, Copy, Debug, PartialEq, Eq, Structural)]
pub struct Sample {
    pub fault: Option<Fault>,
    pub point: Point,
}

/// What the transformation of the promise's result does.
pub enum TransformStep<V> {
    Panic(&'static str),
    /// Throws a new error with this message.
    ThrowError(&'static str),
    /// Throws this value.
    Throw(V),
    /// Makes sure that this value is a number, and reads it.
    ReadNumber(V),
}

/// What the future does next, where `N` is a number that was read.
pub enum BodyStep<N> {
    /// Waits for the promise.
    Await,
    Panic(&'static str),
    /// Throws a new error with this message, and keeps it.
    ThrowError(&'static str),
    /// Fails with the exception that is kept under this key.
    Fail(JsAsyncContextKey),
    /// Returns the function that makes the new promise's value of this number.
    Fulfill(N),
}

/// What the function that makes the new promise's value does.
pub enum FulfillStep {
    Panic(&'static str),
    /// Throws a new error with this message.
    ThrowError(&'static str),
    /// Makes the value.
    Make,
}

/// Panics before waiting for the promise.
#[verifier::allow_in_spec]
pub fn panic_pre_await() -> Sample
    returns
        (Sample { fault: Some(Fault::Panic), point: Point::PreAwait }),
{
    Sample { fault: Some(Fault::Panic), point: Point::PreAwait }
}

/// Panics while the promise's result is transformed.
#[verifier::allow_in_spec]
pub fn panic_during_callback() -> Sample
    returns
        (Sample { fault: Some(Fault::Panic), point: Point::DuringCallback }),
{
    Sample { fault: Some(Fault::Panic), point: Point::DuringCallback }
}

/// Panics after waiting for the promise.
#[verifier::allow_in_spec]
pub fn panic_post_await() -> Sample
    returns
        (Sample { fault: Some(Fault::Panic), point: Point::PostAwait }),
{
    Sample { fault: Some(Fault::Panic), point: Point::PostAwait }
}

/// Panics while the new promise's value is made.
#[verifier::allow_in_spec]
pub fn panic_during_fulfill() -> Sample
    returns
        (Sample { fault: Some(Fault::Panic), point: Point::DuringFulfill }),
{
    Sample { fault: Some(Fault::Panic), point: Point::DuringFulfill }
}

/// Throws before waiting for the promise.
#[verifier::allow_in_spec]
pub fn throw_pre_await() -> Sample
    returns
        (Sample { fault: Some(Fault::Throw), point: Point::PreAwait }),
{
    Sample { fault: Some(Fault::Throw), point: Point::PreAwait }
}

/// Throws while the promise's result is transformed.
#[verifier::allow_in_spec]
pub fn throw_during_callback() -> Sample
    returns
        (Sample { fault: Some(Fault::Throw), point: Point::DuringCallback }),
{
    Sample { fault: Some(Fault::Throw), point: Point::DuringCallback }
}

/// Throws after waiting for the promise.
#[verifier::allow_in_spec]
pub fn throw_post_await() -> Sample
    returns
        (Sample { fault: Some(Fault::Throw), point: Point::PostAwait }),
{
    Sample { fault: Some(Fault::Throw), point: Point::PostAwait }
}

/// Throws while the new promise's value is made.
#[verifier::allow_in_spec]
pub fn throw_during_fulfill() -> Sample
    returns
        (Sample { fault: Some(Fault::Throw), point: Point::DuringFulfill }),
{
    Sample { fault: Some(Fault::Throw), point: Point::DuringFulfill }
}

/// Makes a promise of the next number, and does not go wrong.
#[verifier::allow_in_spec]
pub fn increment_promise() -> Sample
    returns
        (Sample { fault: None, point: Point::PreAwait }),
{
    Sample { fault: None, point: Point::PreAwait }
}

impl Sample {
    /// The way in which the sample goes wrong at this point, if it does.
    pub open spec fn fault_at(self, point: Point) -> Option<Fault> {
        if self.point == point {
            self.fault
        } else {
            None
        }
    }

    /// What the transformation does with the promise's result.
    pub open spec fn transform_step<V>(self, result: JsPromiseResult<V>) -> TransformStep<V> {
        match self.fault_at(Point::DuringCallback) {
            Some(Fault::Panic) => TransformStep::Panic(CHECK_FOR_THIS),
            Some(Fault::Throw) => TransformStep::ThrowError(CHECK_FOR_THIS),
            None => match result {
                Ok(value) => TransformStep::ReadNumber(value),
                Err(exception) => TransformStep::Throw(exception),
            },
        }
    }

    /// What the future does first.
    pub open spec fn first_step<N>(self) -> BodyStep<N> {
        match self.fault_at(Point::PreAwait) {
            Some(Fault::Panic) => BodyStep::Panic(CHECK_FOR_THIS),
            Some(Fault::Throw) => BodyStep::ThrowError(CHECK_FOR_THIS),
            None => BodyStep::Await,
        }
    }

    /// What the future does when it has waited for the promise.
    pub open spec fn second_step<N>(self, awaited: Result<N, JsAsyncContextKey>) -> BodyStep<N> {
        match awaited {
            Ok(number) => match self.fault_at(Point::PostAwait) {
                Some(Fault::Panic) => BodyStep::Panic(CHECK_FOR_THIS),
                Some(Fault::Throw) => BodyStep::ThrowError(CHECK_FOR_THIS),
                None => BodyStep::Fulfill(number),
            },
            Err(key) => BodyStep::Fail(key),
        }
    }

    /// What the function that makes the new promise's value does.
    pub open spec fn last_step(self) -> FulfillStep {
        match self.fault_at(Point::DuringFulfill) {
            Some(Fault::Panic) => FulfillStep::Panic(CHECK_FOR_THIS),
            Some(Fault::Throw) => FulfillStep::ThrowError(CHECK_FOR_THIS),
            None => FulfillStep::Make,
        }
    }

    fn fault(&self, point: Point) -> (fault: Option<Fault>)
        ensures
            fault == self.fault_at(point),
    {
        if self.point == point {
            self.fault
        } else {
            None
        }
    }

    /// Transforms the promise's result.
    pub fn transform<V>(&self, result: JsPromiseResult<V>) -> (step: TransformStep<V>)
        ensures
            step == self.transform_step(result),
    {
        match self.fault(Point::DuringCallback) {
            Some(Fault::Panic) => TransformStep::Panic(CHECK_FOR_THIS),
            Some(Fault::Throw) => TransformStep::ThrowError(CHECK_FOR_THIS),
            None => match result {
                Ok(value) => TransformStep::ReadNumber(value),
                Err(exception) => TransformStep::Throw(exception),
            },
        }
    }

    /// Begins the future.
    pub fn begin<N>(&self) -> (step: BodyStep<N>)
        ensures
            step == self.first_step::<N>(),
    {
        match self.fault(Point::PreAwait) {
            Some(Fault::Panic) => BodyStep::Panic(CHECK_FOR_THIS),
            Some(Fault::Throw) => BodyStep::ThrowError(CHECK_FOR_THIS),
            None => BodyStep::Await,
        }
    }

    /// Goes on with the future when it has waited for the promise.
    pub fn awaited<N>(&self, awaited: Result<N, JsAsyncContextKey>) -> (step: BodyStep<N>)
        ensures
            step == self.second_step(awaited),
    {
        match awaited {
            Ok(number) => match self.fault(Point::PostAwait) {
                Some(Fault::Panic) => BodyStep::Panic(CHECK_FOR_THIS),
                Some(Fault::Throw) => BodyStep::ThrowError(CHECK_FOR_THIS),
                None => BodyStep::Fulfill(number),
            },
            Err(key) => BodyStep::Fail(key),
        }
    }

    /// Makes the new promise's value.
    pub fn fulfill(&self) -> (step: FulfillStep)
        ensures
            step == self.last_step(),
    {
        match self.fault(Point::DuringFulfill) {
            Some(Fault::Panic) => FulfillStep::Panic(CHECK_FOR_THIS),
            Some(Fault::Throw) => FulfillStep::ThrowError(CHECK_FOR_THIS),
            None => FulfillStep::Make,
        }
    }
}

/// The engine and the context, as far as the samples use them.
#[verifier::reject_recursive_types(V)]
#[verifier::reject_recursive_types(N)]
pub struct SampleWorld<V, N> {
    /// The new error with a given message.
    pub error: spec_fn(Seq<char>) -> V,
    /// The key under which an exception is kept.
    pub keep: spec_fn(V) -> JsAsyncContextKey,
    /// The exception that is kept under a key.
    pub kept: spec_fn(JsAsyncContextKey) -> V,
    /// The number that a value is, or what reading it as one throws.
    pub read: spec_fn(V) -> Result<N, V>,
    /// The value that is made of a number.
    pub make: spec_fn(N) -> V,
}

impl<V, N> SampleWorld<V, N> {
    /// Exceptions are found again under their keys.
    pub open spec fn keeps(self) -> bool {
        forall|exception: V| #[trigger] (self.kept)((self.keep)(exception)) == exception
    }

    /// What the transformation comes to: a number, the key of an exception, or a panic.
    pub open spec fn transformed(
        self,
        sample: Sample,
        result: JsPromiseResult<V>,
    ) -> Result<Result<N, JsAsyncContextKey>, PanicPayload> {
        match sample.transform_step(result) {
            TransformStep::Panic(message) => Err(PanicPayload::Literal(message)),
            TransformStep::ThrowError(message) => Ok(Err((self.keep)((self.error)(message@)))),
            TransformStep::Throw(exception) => Ok(Err((self.keep)(exception))),
            TransformStep::ReadNumber(value) => Ok(
                match (self.read)(value) {
                    Ok(number) => Ok(number),
                    Err(exception) => Err((self.keep)(exception)),
                },
            ),
        }
    }

    /// What the future comes to when it does this next.
    pub open spec fn outcome(
        self,
        sample: Sample,
        result: JsPromiseResult<V>,
        step: BodyStep<N>,
        fuel: nat,
    ) -> FutureOutcome<N>
        decreases fuel,
    {
        match step {
            BodyStep::Panic(message) => FutureOutcome::Panicked(PanicPayload::Literal(message)),
            BodyStep::ThrowError(message) => FutureOutcome::Failed(
                (self.keep)((self.error)(message@)),
            ),
            BodyStep::Fail(key) => FutureOutcome::Failed(key),
            BodyStep::Fulfill(number) => FutureOutcome::Returned(number),
            BodyStep::Await => match self.transformed(sample, result) {
                Err(payload) => FutureOutcome::Panicked(payload),
                Ok(awaited) => if fuel == 0 {
                    arbitrary()
                } else {
                    self.outcome(sample, result, sample.second_step(awaited), (fuel - 1) as nat)
                },
            },
        }
    }

    /// What making the new promise's value comes to.
    pub open spec fn made(self, sample: Sample, number: N) -> FulfillOutcome<V> {
        match sample.last_step() {
            FulfillStep::Panic(message) => FulfillOutcome::Panicked(
                PanicPayload::Literal(message),
            ),
            FulfillStep::ThrowError(message) => FulfillOutcome::Threw((self.error)(message@)),
            FulfillStep::Make => FulfillOutcome::Returned((self.make)(number)),
        }
    }

    /// What the new promise is settled with.
    pub open spec fn settled(self, sample: Sample, result: JsPromiseResult<V>) -> Delivery<V> {
        delivered(
            self.outcome(sample, result, sample.first_step(), 1),
            |number: N| self.made(sample, number),
            self.kept,
            self.error,
        )
    }
}

/// Wherever a sample goes wrong, the new promise is rejected: with the error that was thrown,
/// or with an error that tells of the panic. If before that the promise that it waits for is
/// rejected, or is fulfilled with something that is no number, the new promise is rejected with
/// the same value, or with what reading a number out of it throws.
pub proof fn faults_reject_the_promise<V, N>(world: SampleWorld<V, N>, sample: Sample, value: V)
    requires
        world.keeps(),
        sample.fault is Some,
    ensures
        ({
            let fault = Delivery {
                slot: REJECT_SLOT,
                value: (world.error)(
                    match sample.fault->0 {
                        Fault::Panic => "unexpected panic: "@ + CHECK_FOR_THIS@,
                        Fault::Throw => CHECK_FOR_THIS@,
                    },
                ),
            };
            &&& world.settled(sample, Ok(value)) == match (sample.point, (world.read)(value)) {
                (Point::PostAwait, Err(exception)) => Delivery {
                    slot: REJECT_SLOT,
                    value: exception,
                },
                (Point::DuringFulfill, Err(exception)) => Delivery {
                    slot: REJECT_SLOT,
                    value: exception,
                },
                _ => fault,
            }
            &&& world.settled(sample, Err(value)) == match sample.point {
                Point::PreAwait | Point::DuringCallback => fault,
                Point::PostAwait | Point::DuringFulfill => Delivery { slot: REJECT_SLOT, value },
            }
        }),
{
    reveal_with_fuel(SampleWorld::outcome, 2);
    assert(panic_message(PanicPayload::Literal(CHECK_FOR_THIS)) == CHECK_FOR_THIS@);
}

/// A promise of a number gives a promise of the number that is made of it. A promise of
/// anything else gives a promise that is rejected with what reading a number out of it throws,
/// and a rejected promise gives a promise that is rejected in the same way.
pub proof fn increment_follows_the_promise<V, N>(world: SampleWorld<V, N>, value: V)
    requires
        world.keeps(),
    ensures
        world.settled(increment_promise(), Ok(value)) == match (world.read)(value) {
            Ok(number) => Delivery { slot: RESOLVE_SLOT, value: (world.make)(number) },
            Err(exception) => Delivery { slot: REJECT_SLOT, value: exception },
        },
        world.settled(increment_promise(), Err(value)) == (Delivery { slot: REJECT_SLOT, value }),
{
    reveal_with_fuel(SampleWorld::outcome, 2);
}

/// What [increment_async] hands to its completion callback.
pub enum Completion<N> {
    /// The number after this one.
    Increment(N),
    /// This text.
    Text(String),
}

/// Decides what the completion callback is called with, given the number that the promise
/// was fulfilled with, or the text of what it was rejected with.
pub fn increment_async<N>(settled: Result<N, String>) -> (completion: Completion<N>)
    ensures
        match settled {
            Ok(number) => completion == Completion::Increment(number),
            Err(message) => completion matches Completion::Text(text) && text@ == error_message(
                message@,
            ),
        },
{
    match settled {
        Ok(number) => Completion::Increment(number),
        Err(message) => Completion::Text(error_text(message.as_str())),
    }
}

/// Makes sure that the promise, the input, was fulfilled with a number.
pub open spec fn number_steps() -> Seq<Step> {
    seq![
        expecting(
            Instruction::Downcast { value: Operand::Input(0), kind: JsKind::Number },
            "is number",
        ),
    ]
}

/// Calls the first input with the second input.
pub open spec fn completion_steps() -> Seq<Step> {
    seq![
        passing(Instruction::Undefined),
        expecting(
            Instruction::Call {
                function: Operand::Input(0),
                this: Operand::Output(0),
                arguments: Arguments::One(Operand::Input(1)),
            },
            "call succeeds",
        ),
    ]
}

/// Makes sure that [increment_async] gets a number.
pub fn number<V: Copy>(value: V) -> (script: ScriptRun<V>)
    ensures
        script@ == script_start(number_steps(), seq![value]),
{
    let steps: Vec<Step> = vec![
        expecting(
            Instruction::Downcast { value: Operand::Input(0), kind: JsKind::Number },
            "is number",
        ),
    ];
    ScriptRun::start(steps, vec![value])
}

/// Calls the completion callback.
pub fn call_completion<V: Copy>(callback: V, value: V) -> (script: ScriptRun<V>)
    ensures
        script@ == script_start(completion_steps(), seq![callback, value]),
{
    let steps: Vec<Step> = vec![
        passing(Instruction::Undefined),
        expecting(
            Instruction::Call {
                function: Operand::Input(0),
                this: Operand::Output(0),
                arguments: Arguments::One(Operand::Input(1)),
            },
            "call succeeds",
        ),
    ];
    ScriptRun::start(steps, vec![callback, value])
}

/// What the transformation of the promise's result does, whatever the result is: it panics.
pub fn panic_on_resolve<V>(result: JsPromiseResult<V>) -> (step: TransformStep<V>)
    ensures
        step == TransformStep::<V>::Panic(HELLO),
{
    TransformStep::Panic(HELLO)
}

/// Whatever the promise was fulfilled with must be a number, and is the result; anything else
/// is a bug.
pub proof fn number_requests<V>(value: V, replies: Seq<JsReply<V>>)
    requires
        replies.len() == 1,
        all_values(replies),
    ensures
        ({
            let script = script_start(number_steps(), seq![value]);
            &&& asks(
                script,
                replies,
                0,
                Instruction::Downcast { value, kind: JsKind::Number },
                ScriptOutcome::Panicked("is number"),
            )
            &&& finishes(script, replies)
        }),
{
    script_finishes_with_its_replies(number_steps(), seq![value], replies);
}

/// The completion callback is called on `undefined` with the value and nothing else.
pub proof fn completion_requests<V>(callback: V, value: V, replies: Seq<JsReply<V>>)
    requires
        replies.len() == 2,
        all_values(replies),
    ensures
        ({
            let script = script_start(completion_steps(), seq![callback, value]);
            &&& asks(script, replies, 0, Instruction::Undefined, ScriptOutcome::Threw)
            &&& asks(
                script,
                replies,
                1,
                Instruction::Call {
                    function: callback,
                    this: replies[0]->value,
                    arguments: Arguments::One(value),
                },
                ScriptOutcome::Panicked("call succeeds"),
            )
            &&& finishes(script, replies)
        }),
{
    script_finishes_with_its_replies(completion_steps(), seq![callback, value], replies);
}

/// A sample does what it is for at every point but the one where it goes wrong: it reads the
/// number, or throws what the promise was rejected with; it waits; it fails with a key or goes
/// on with the number; and it makes the value. Where it goes wrong it panics, or throws an
/// error, with the message `check for this`.
pub proof fn sample_goes_wrong_at_its_point_only<V, N>(
    sample: Sample,
    value: V,
    number: N,
    key: JsAsyncContextKey,
)
    ensures
        ({
            let panics = |point: Point| sample.fault == Some(Fault::Panic) && sample.point == point;
            let throws = |point: Point| sample.fault == Some(Fault::Throw) && sample.point == point;
            &&& sample.transform_step(Ok(value)) == if panics(Point::DuringCallback) {
                TransformStep::<V>::Panic("check for this")
            } else if throws(Point::DuringCallback) {
                TransformStep::<V>::ThrowError("check for this")
            } else {
                TransformStep::ReadNumber(value)
            }
            &&& sample.transform_step(Err(value)) == if panics(Point::DuringCallback) {
                TransformStep::<V>::Panic("check for this")
            } else if throws(Point::DuringCallback) {
                TransformStep::<V>::ThrowError("check for this")
            } else {
                TransformStep::Throw(value)
            }
            &&& sample.first_step::<N>() == if panics(Point::PreAwait) {
                BodyStep::<N>::Panic("check for this")
            } else if throws(Point::PreAwait) {
                BodyStep::<N>::ThrowError("check for this")
            } else {
                BodyStep::<N>::Await
            }
            &&& sample.second_step::<N>(Ok(number)) == if panics(Point::PostAwait) {
                BodyStep::<N>::Panic("check for this")
            } else if throws(Point::PostAwait) {
                BodyStep::<N>::ThrowError("check for this")
            } else {
                BodyStep::Fulfill(number)
            }
            &&& sample.second_step::<N>(Err(key)) == BodyStep::<N>::Fail(key)
            &&& sample.last_step() == if panics(Point::DuringFulfill) {
                FulfillStep::Panic("check for this")
            } else if throws(Point::DuringFulfill) {
                FulfillStep::ThrowError("check for this")
            } else {
                FulfillStep::Make
            }
        }),
{
}

/// The samples are named after how and where they go wrong, no two of them do so alike, and the
/// one that increments does not go wrong at all. The one that panics on its own says `hello`.
pub proof fn samples_go_wrong_as_named()
    ensures
        panic_pre_await().fault == Some(Fault::Panic),
        panic_pre_await().point == Point::PreAwait,
        panic_during_callback().fault == Some(Fault::Panic),
        panic_during_callback().point == Point::DuringCallback,
        panic_post_await().fault == Some(Fault::Panic),
        panic_post_await().point == Point::PostAwait,
        panic_during_fulfill().fault == Some(Fault::Panic),
        panic_during_fulfill().point == Point::DuringFulfill,
        throw_pre_await().fault == Some(Fault::Throw),
        throw_pre_await().point == Point::PreAwait,
        throw_during_callback().fault == Some(Fault::Throw),
        throw_during_callback().point == Point::DuringCallback,
        throw_post_await().fault == Some(Fault::Throw),
        throw_post_await().point == Point::PostAwait,
        throw_during_fulfill().fault == Some(Fault::Throw),
        throw_during_fulfill().point == Point::DuringFulfill,
        increment_promise().fault is None,
        HELLO == "hello",
{
}

} // verus!
