//! Short straight-line programs for the JavaScript engine.
//!
//! Everything this library asks of the engine is written as a script: a list of
//! instructions, each of which may use the script's inputs and the results of earlier
//! instructions. A [ScriptRun] hands the instructions out one at a time, with their
//! operands filled in, and is told what the engine answered. The engine itself is never
//! touched from here.

use vstd::prelude::*;

verus! {

/// The JavaScript types that a value can be required to have.
#[derive(Clone, Copy, Debug, PartialEq, Eq, Structural)]
pub enum JsKind {
    /// Any value at all.
    Value,
    Object,
    Array,
    Function,
    Number,
    String,
    Boolean,
    Null,
    Undefined,
    Error,
    Buffer,
    ArrayBuffer,
}

/// The two ways in which a promise can be settled.
#[derive(Clone, Copy, Debug, PartialEq, Eq, Structural)]
pub enum Settlement {
    Fulfilled,
    Rejected,
}

/// The functions that this library makes callable from JavaScript.
#[derive(Clone, Copy, Debug, PartialEq, Eq, Structural)]
pub enum NativeFunction {
    /// Saves its two arguments on `this`; see [crate::promise].
    SavePromiseCallbacks,
    /// Settles the future whose address is its first argument; see [crate::future].
    FulfillPromise(Settlement),
    /// Settles a future of the [crate::bridge].
    ResolvePromise(Settlement),
}

/// Names a property of an object.
#[derive(Clone, Copy, Debug, PartialEq, Eq)]
pub enum PropertyKey {
    Name(&'static str),
    Index(u32),
    /// The property of the global object under which the running context keeps its data.
    ContextData,
}

/// Refers to a value that a script works on.
#[derive(Clone, Copy, Debug, PartialEq, Eq, Structural)]
pub enum Operand {
    /// One of the values that the script was started with.
    Input(usize),
    /// The result of an earlier instruction.
    Output(usize),
}

/// The arguments of a call.
#[derive(Clone, Copy, Debug, PartialEq, Eq)]
pub enum Arguments<X> {
    Empty,
    One(X),
    Two(X, X),
}

/// One request to the JavaScript engine, over operands of type `X`.
#[derive(Clone, Copy, Debug, PartialEq, Eq)]
pub enum Instruction<X> {
    Undefined,
    Null,
    GlobalObject,
    /// The `this` of the running native function.
    This,
    EmptyObject,
    EmptyArray,
    /// An argument of the running native function, which must have the given type.
    Argument { index: u32, kind: JsKind },
    /// The number with exactly this bit pattern.
    NumberFromBits(u64),
    /// The number nearest to this integer.
    NumberFromInteger(u64),
    Function(NativeFunction),
    GetProperty { object: X, key: PropertyKey },
    SetProperty { object: X, key: PropertyKey, value: X },
    /// The same value, which must have the given type.
    Downcast { value: X, kind: JsKind },
    Call { function: X, this: X, arguments: Arguments<X> },
    Construct { function: X, arguments: Arguments<X> },
}

/// What is to happen when an instruction throws.
#[derive(Clone, Copy, Debug, PartialEq, Eq)]
pub enum OnThrow {
    /// The exception is left to the caller.
    Propagate,
    /// Throwing is a bug: panic with this message.
    Panic(&'static str),
}

/// An instruction together with what its failure means.
#[derive(Clone, Copy, Debug, PartialEq, Eq)]
pub struct Step {
    pub instruction: Instruction<Operand>,
    pub on_throw: OnThrow,
}

/// What the engine answered to an instruction.
///
/// `undefined` says whether `value` is JavaScript's `undefined`.
#[derive(Clone, Copy, Debug, PartialEq, Eq)]
pub enum JsReply<V> {
    Value { value: V, undefined: bool },
    Threw,
}

/// A step whose exceptions are left to the caller.
#[verifier::allow_in_spec]
pub fn passing(instruction: Instruction<Operand>) -> Step
    returns
        (Step { instruction, on_throw: OnThrow::Propagate }),
{
    Step { instruction, on_throw: OnThrow::Propagate }
}

/// A step that must not throw.
#[verifier::allow_in_spec]
pub fn expecting(instruction: Instruction<Operand>, message: &'static str) -> Step
    returns
        (Step { instruction, on_throw: OnThrow::Panic(message) }),
{
    Step { instruction, on_throw: OnThrow::Panic(message) }
}

/// The operand exists when a script with `inputs` inputs has run `done` instructions.
pub open spec fn operand_defined(operand: Operand, inputs: nat, done: nat) -> bool {
    match operand {
        Operand::Input(i) => i < inputs,
        Operand::Output(i) => i < done,
    }
}

pub open spec fn arguments_defined(arguments: Arguments<Operand>, inputs: nat, done: nat) -> bool {
    match arguments {
        Arguments::Empty => true,
        Arguments::One(a) => operand_defined(a, inputs, done),
        Arguments::Two(a, b) => operand_defined(a, inputs, done) && operand_defined(b, inputs, done),
    }
}

/// Every operand of the instruction exists at the given point of a script.
pub open spec fn instruction_defined(
    instruction: Instruction<Operand>,
    inputs: nat,
    done: nat,
) -> bool {
    match instruction {
        Instruction::GetProperty { object, key } => operand_defined(object, inputs, done),
        Instruction::SetProperty { object, key, value } => operand_defined(object, inputs, done)
            && operand_defined(value, inputs, done),
        Instruction::Downcast { value, kind } => operand_defined(value, inputs, done),
        Instruction::Call { function, this, arguments } => operand_defined(function, inputs, done)
            && operand_defined(this, inputs, done) && arguments_defined(arguments, inputs, done),
        Instruction::Construct { function, arguments } => operand_defined(function, inputs, done)
            && arguments_defined(arguments, inputs, done),
        _ => true,
    }
}

/// A script that can be run: it is not empty, and no instruction uses a value that does
/// not exist yet.
pub open spec fn script_defined(steps: Seq<Step>, inputs: nat) -> bool {
    &&& steps.len() > 0
    &&& forall|i: int|
        0 <= i < steps.len() ==> instruction_defined(
            (#[trigger] steps[i]).instruction,
            inputs,
            i as nat,
        )
}

/// The value that an operand stands for.
pub open spec fn operand_value<V>(operand: Operand, inputs: Seq<V>, outputs: Seq<V>) -> V {
    match operand {
        Operand::Input(i) => inputs[i as int],
        Operand::Output(i) => outputs[i as int],
    }
}

pub open spec fn arguments_value<V>(
    arguments: Arguments<Operand>,
    inputs: Seq<V>,
    outputs: Seq<V>,
) -> Arguments<V> {
    match arguments {
        Arguments::Empty => Arguments::Empty,
        Arguments::One(a) => Arguments::One(operand_value(a, inputs, outputs)),
        Arguments::Two(a, b) => Arguments::Two(
            operand_value(a, inputs, outputs),
            operand_value(b, inputs, outputs),
        ),
    }
}

/// The instruction with every operand replaced by its value.
pub open spec fn instruction_value<V>(
    instruction: Instruction<Operand>,
    inputs: Seq<V>,
    outputs: Seq<V>,
) -> Instruction<V> {
    match instruction {
        Instruction::Undefined => Instruction::Undefined,
        Instruction::Null => Instruction::Null,
        Instruction::GlobalObject => Instruction::GlobalObject,
        Instruction::This => Instruction::This,
        Instruction::EmptyObject => Instruction::EmptyObject,
        Instruction::EmptyArray => Instruction::EmptyArray,
        Instruction::Argument { index, kind } => Instruction::Argument { index, kind },
        Instruction::NumberFromBits(bits) => Instruction::NumberFromBits(bits),
        Instruction::NumberFromInteger(integer) => Instruction::NumberFromInteger(integer),
        Instruction::Function(function) => Instruction::Function(function),
        Instruction::GetProperty { object, key } => Instruction::GetProperty {
            object: operand_value(object, inputs, outputs),
            key,
        },
        Instruction::SetProperty { object, key, value } => Instruction::SetProperty {
            object: operand_value(object, inputs, outputs),
            key,
            value: operand_value(value, inputs, outputs),
        },
        Instruction::Downcast { value, kind } => Instruction::Downcast {
            value: operand_value(value, inputs, outputs),
            kind,
        },
        Instruction::Call { function, this, arguments } => Instruction::Call {
            function: operand_value(function, inputs, outputs),
            this: operand_value(this, inputs, outputs),
            arguments: arguments_value(arguments, inputs, outputs),
        },
        Instruction::Construct { function, arguments } => Instruction::Construct {
            function: operand_value(function, inputs, outputs),
            arguments: arguments_value(arguments, inputs, outputs),
        },
    }
}

/// Where a script stands: what it runs, what it was given, what it has been answered.
#[verifier::ext_equal]
pub struct ScriptView<V> {
    pub steps: Seq<Step>,
    pub inputs: Seq<V>,
    pub outputs: Seq<V>,
}

/// The script as it is before its first instruction.
pub open spec fn script_start<V>(steps: Seq<Step>, inputs: Seq<V>) -> ScriptView<V> {
    ScriptView { steps, inputs, outputs: Seq::empty() }
}

impl<V> ScriptView<V> {
    /// The step that is waiting for an answer.
    pub open spec fn current(self) -> Step {
        self.steps[self.outputs.len() as int]
    }

    /// The request that the engine is to answer next.
    pub open spec fn command(self) -> Instruction<V> {
        instruction_value(self.current().instruction, self.inputs, self.outputs)
    }

    /// What follows from the engine's answer to the current instruction.
    pub open spec fn resume(self, reply: JsReply<V>) -> ScriptOutcome<V> {
        match reply {
            JsReply::Value { value, undefined } => {
                let outputs = self.outputs.push(value);
                if outputs.len() < self.steps.len() {
                    ScriptOutcome::Running(ScriptView { outputs, ..self })
                } else {
                    ScriptOutcome::Finished(outputs)
                }
            },
            JsReply::Threw => match self.current().on_throw {
                OnThrow::Propagate => ScriptOutcome::Threw,
                OnThrow::Panic(message) => ScriptOutcome::Panicked(message),
            },
        }
    }
}

/// The outcome of one answer, over the script's view.
#[verifier::ext_equal]
pub enum ScriptOutcome<V> {
    Running(ScriptView<V>),
    Finished(Seq<V>),
    Threw,
    Panicked(&'static str),
}

/// A script that is waiting for the engine's answer to its current instruction.
pub struct ScriptRun<V> {
    steps: Vec<Step>,
    inputs: Vec<V>,
    outputs: Vec<V>,
}

/// What the engine's answer to one instruction leads to.
pub enum Progress<V> {
    /// There is another instruction to perform.
    Running(ScriptRun<V>),
    /// Every instruction has been performed; these are their results.
    Finished(Vec<V>),
    /// The script stopped at an exception, which is still pending.
    Threw,
    /// The script stopped at an exception that must not happen.
    Panicked(&'static str),
}

impl<V> View for ScriptRun<V> {
    type V = ScriptView<V>;

    closed spec fn view(&self) -> ScriptView<V> {
        ScriptView { steps: self.steps@, inputs: self.inputs@, outputs: self.outputs@ }
    }
}

impl<V> View for Progress<V> {
    type V = ScriptOutcome<V>;

    open spec fn view(&self) -> ScriptOutcome<V> {
        match *self {
            Progress::Running(run) => ScriptOutcome::Running(run@),
            Progress::Finished(outputs) => ScriptOutcome::Finished(outputs@),
            Progress::Threw => ScriptOutcome::Threw,
            Progress::Panicked(message) => ScriptOutcome::Panicked(message),
        }
    }
}

impl<V> ScriptRun<V> {
    #[verifier::type_invariant]
    spec fn inv(self) -> bool {
        &&& script_defined(self.steps@, self.inputs@.len())
        &&& self.outputs@.len() < self.steps@.len()
    }
}

impl<V: Copy> ScriptRun<V> {
    /// Starts a script.
    pub fn start(steps: Vec<Step>, inputs: Vec<V>) -> (run: Self)
        requires
            script_defined(steps@, inputs@.len()),
        ensures
            run@ == script_start(steps@, inputs@),
    {
        ScriptRun { steps, inputs, outputs: Vec::new() }
    }

    fn operand(&self, operand: Operand) -> (value: V)
        requires
            operand_defined(operand, self@.inputs.len(), self@.outputs.len()),
        ensures
            value == operand_value(operand, self@.inputs, self@.outputs),
    {
        match operand {
            Operand::Input(i) => self.inputs[i],
            Operand::Output(i) => self.outputs[i],
        }
    }

    fn arguments(&self, arguments: Arguments<Operand>) -> (values: Arguments<V>)
        requires
            arguments_defined(arguments, self@.inputs.len(), self@.outputs.len()),
        ensures
            values == arguments_value(arguments, self@.inputs, self@.outputs),
    {
        match arguments {
            Arguments::Empty => Arguments::Empty,
            Arguments::One(a) => Arguments::One(self.operand(a)),
            Arguments::Two(a, b) => Arguments::Two(self.operand(a), self.operand(b)),
        }
    }

    /// The request that the engine is to answer next.
    pub fn command(&self) -> (command: Instruction<V>)
        ensures
            self@.outputs.len() < self@.steps.len(),
            command == self@.command(),
    {
        proof {
            use_type_invariant(self);
        }
        let step: Step = self.steps[self.outputs.len()];
        assert(instruction_defined(
            self@.current().instruction,
            self@.inputs.len(),
            self@.outputs.len(),
        ));
        match step.instruction {
            Instruction::Undefined => Instruction::Undefined,
            Instruction::Null => Instruction::Null,
            Instruction::GlobalObject => Instruction::GlobalObject,
            Instruction::This => Instruction::This,
            Instruction::EmptyObject => Instruction::EmptyObject,
            Instruction::EmptyArray => Instruction::EmptyArray,
            Instruction::Argument { index, kind } => Instruction::Argument { index, kind },
            Instruction::NumberFromBits(bits) => Instruction::NumberFromBits(bits),
            Instruction::NumberFromInteger(integer) => Instruction::NumberFromInteger(integer),
            Instruction::Function(function) => Instruction::Function(function),
            Instruction::GetProperty { object, key } => Instruction::GetProperty {
                object: self.operand(object),
                key,
            },
            Instruction::SetProperty { object, key, value } => Instruction::SetProperty {
                object: self.operand(object),
                key,
                value: self.operand(value),
            },
            Instruction::Downcast { value, kind } => Instruction::Downcast {
                value: self.operand(value),
                kind,
            },
            Instruction::Call { function, this, arguments } => Instruction::Call {
                function: self.operand(function),
                this: self.operand(this),
                arguments: self.arguments(arguments),
            },
            Instruction::Construct { function, arguments } => Instruction::Construct {
                function: self.operand(function),
                arguments: self.arguments(arguments),
            },
        }
    }

    /// Goes on from the engine's answer to the current instruction.
    pub fn resume(self, reply: JsReply<V>) -> (progress: Progress<V>)
        ensures
            progress@ == self@.resume(reply),
    {
        proof {
            use_type_invariant(&self);
        }
        let ScriptRun { steps, inputs, mut outputs } = self;
        match reply {
            JsReply::Value { value, undefined: _ } => {
                outputs.push(value);
                if outputs.len() < steps.len() {
                    Progress::Running(ScriptRun { steps, inputs, outputs })
                } else {
                    Progress::Finished(outputs)
                }
            },
            JsReply::Threw => match steps[outputs.len()].on_throw {
                OnThrow::Propagate => Progress::Threw,
                OnThrow::Panic(message) => Progress::Panicked(message),
            },
        }
    }
}

/// The script after these answers of the engine, if it has not come to an end by then.
pub open spec fn script_after<V>(script: ScriptView<V>, replies: Seq<JsReply<V>>) -> Option<
    ScriptView<V>,
>
    decreases replies.len(),
{
    if replies.len() == 0 {
        Some(script)
    } else {
        match script_after(script, replies.drop_last()) {
            Some(script) => match script.resume(replies.last()) {
                ScriptOutcome::Running(script) => Some(script),
                _ => None,
            },
            None => None,
        }
    }
}

/// A script performs its instructions in order, each once, until one of them throws or all
/// have been performed. The values that an instruction refers to are the engine's answers.
pub proof fn script_follows_its_steps<V>(
    steps: Seq<Step>,
    inputs: Seq<V>,
    replies: Seq<JsReply<V>>,
)
    requires
        steps.len() > 0,
    ensures
        script_after(script_start(steps, inputs), replies) == if replies.len() < steps.len() && (
        forall|i: int| 0 <= i < replies.len() ==> #[trigger] replies[i] is Value) {
            Some(
                ScriptView {
                    steps,
                    inputs,
                    outputs: Seq::new(replies.len(), |i: int| replies[i]->value),
                },
            )
        } else {
            None
        },
    decreases replies.len(),
{
    if replies.len() > 0 {
        let earlier = replies.drop_last();
        script_follows_its_steps(steps, inputs, earlier);
        assert(forall|i: int| 0 <= i < earlier.len() ==> earlier[i] == replies[i]);
        if forall|i: int| 0 <= i < replies.len() ==> #[trigger] replies[i] is Value {
            assert(forall|i: int| 0 <= i < earlier.len() ==> #[trigger] earlier[i] is Value);
            assert(replies.last() == replies[replies.len() - 1]);
            assert(Seq::new(earlier.len(), |i: int| earlier[i]->value).push(
                replies.last()->value,
            ) =~= Seq::new(replies.len(), |i: int| replies[i]->value));
        } else if forall|i: int| 0 <= i < earlier.len() ==> #[trigger] earlier[i] is Value {
            assert(!(replies.last() is Value)) by {
                let i = choose|i: int|
                    0 <= i < replies.len() && !(#[trigger] replies[i] is Value);
                if i < earlier.len() {
                    assert(earlier[i] is Value);
                }
            }
        }
    } else {
        assert(Seq::new(0, |i: int| replies[i]->value) =~= Seq::<V>::empty());
    }
}

/// Every reply is a value, and none an exception.
pub open spec fn all_values<V>(replies: Seq<JsReply<V>>) -> bool {
    forall|i: int| 0 <= i < replies.len() ==> #[trigger] replies[i] is Value
}

/// The values in the replies of the engine.
pub open spec fn values<V>(replies: Seq<JsReply<V>>) -> Seq<V> {
    Seq::new(replies.len(), |i: int| replies[i]->value)
}

/// After the first `at` of these replies the script asks for `request`, and an exception in
/// performing it leads to `failure`.
pub open spec fn asks<V>(
    script: ScriptView<V>,
    replies: Seq<JsReply<V>>,
    at: int,
    request: Instruction<V>,
    failure: ScriptOutcome<V>,
) -> bool {
    script_after(script, replies.take(at)) matches Some(reached) && reached.command() == request
        && reached.resume(JsReply::Threw) == failure
}

/// The script takes exactly these replies, and its results are the values in them, all of them
/// and in order.
pub open spec fn finishes<V>(script: ScriptView<V>, replies: Seq<JsReply<V>>) -> bool {
    &&& replies.len() > 0
    &&& script_after(script, replies.drop_last()) matches Some(last) && last.resume(replies.last())
        == ScriptOutcome::Finished(values(replies))
}

/// A script whose instructions all succeed asks for each of them in turn, with the replies so
/// far as its outputs, and finishes with the engine's replies, all of them and in order. If one
/// of them throws, the script ends there, in the way that its step says.
pub proof fn script_finishes_with_its_replies<V>(
    steps: Seq<Step>,
    inputs: Seq<V>,
    replies: Seq<JsReply<V>>,
)
    requires
        replies.len() > 0,
        replies.len() == steps.len(),
        all_values(replies),
    ensures
        forall|at: int|
            0 <= at < replies.len() ==> #[trigger] script_after(
                script_start(steps, inputs),
                replies.take(at),
            ) == Some(ScriptView { steps, inputs, outputs: values(replies).take(at) }),
        forall|at: int|
            0 <= at < replies.len() ==> script_after(
                script_start(steps, inputs),
                #[trigger] replies.take(at),
            )->0.resume(JsReply::Threw) == match steps[at].on_throw {
                OnThrow::Propagate => ScriptOutcome::<V>::Threw,
                OnThrow::Panic(message) => ScriptOutcome::<V>::Panicked(message),
            },
        finishes(script_start(steps, inputs), replies),
{
    let start = script_start(steps, inputs);
    assert forall|at: int| 0 <= at < replies.len() implies #[trigger] script_after(
        start,
        replies.take(at),
    ) == Some(ScriptView { steps, inputs, outputs: values(replies).take(at) }) by {
        let taken = replies.take(at);
        assert(forall|i: int| 0 <= i < taken.len() ==> taken[i] == replies[i]);
        script_follows_its_steps(steps, inputs, taken);
        assert(Seq::new(taken.len(), |i: int| taken[i]->value) =~= values(replies).take(at));
    }
    let last = replies.len() - 1;
    assert(replies.drop_last() =~= replies.take(last));
    assert(replies[last] is Value);
    assert(values(replies).take(last).push(replies[last]->value) =~= values(replies));
}

/// Whatever a script has been answered so far, an input of its current instruction stands for
/// the value that the script was started with, and an output for the reply to that instruction;
/// everything else in the instruction is passed on as it is.
pub proof fn operands_stand_for_their_values<V>(
    script: ScriptView<V>,
    a: Operand,
    b: Operand,
    c: Operand,
    d: Operand,
    key: PropertyKey,
    kind: JsKind,
    index: u32,
    bits: u64,
    function: NativeFunction,
)
    ensures
        ({
            let stands = |operand: Operand|
                match operand {
                    Operand::Input(i) => script.inputs[i as int],
                    Operand::Output(i) => script.outputs[i as int],
                };
            let becomes = |instruction: Instruction<Operand>, command: Instruction<V>|
                script.current().instruction == instruction ==> script.command() == command;
            &&& becomes(Instruction::Undefined, Instruction::Undefined)
            &&& becomes(Instruction::Null, Instruction::Null)
            &&& becomes(Instruction::GlobalObject, Instruction::GlobalObject)
            &&& becomes(Instruction::This, Instruction::This)
            &&& becomes(Instruction::EmptyObject, Instruction::EmptyObject)
            &&& becomes(Instruction::EmptyArray, Instruction::EmptyArray)
            &&& becomes(
                Instruction::Argument { index, kind },
                Instruction::Argument { index, kind },
            )
            &&& becomes(Instruction::NumberFromBits(bits), Instruction::NumberFromBits(bits))
            &&& becomes(
                Instruction::NumberFromInteger(bits),
                Instruction::NumberFromInteger(bits),
            )
            &&& becomes(Instruction::Function(function), Instruction::Function(function))
            &&& becomes(
                Instruction::GetProperty { object: a, key },
                Instruction::GetProperty { object: stands(a), key },
            )
            &&& becomes(
                Instruction::SetProperty { object: a, key, value: b },
                Instruction::SetProperty { object: stands(a), key, value: stands(b) },
            )
            &&& becomes(
                Instruction::Downcast { value: a, kind },
                Instruction::Downcast { value: stands(a), kind },
            )
            &&& becomes(
                Instruction::Call { function: a, this: b, arguments: Arguments::Empty },
                Instruction::Call {
                    function: stands(a),
                    this: stands(b),
                    arguments: Arguments::Empty,
                },
            )
            &&& becomes(
                Instruction::Call { function: a, this: b, arguments: Arguments::One(c) },
                Instruction::Call {
                    function: stands(a),
                    this: stands(b),
                    arguments: Arguments::One(stands(c)),
                },
            )
            &&& becomes(
                Instruction::Call { function: a, this: b, arguments: Arguments::Two(c, d) },
                Instruction::Call {
                    function: stands(a),
                    this: stands(b),
                    arguments: Arguments::Two(stands(c), stands(d)),
                },
            )
            &&& becomes(
                Instruction::Construct { function: a, arguments: Arguments::Empty },
                Instruction::Construct { function: stands(a), arguments: Arguments::Empty },
            )
            &&& becomes(
                Instruction::Construct { function: a, arguments: Arguments::One(c) },
                Instruction::Construct {
                    function: stands(a),
                    arguments: Arguments::One(stands(c)),
                },
            )
            &&& becomes(
                Instruction::Construct { function: a, arguments: Arguments::Two(c, d) },
                Instruction::Construct {
                    function: stands(a),
                    arguments: Arguments::Two(stands(c), stands(d)),
                },
            )
            &&& script.current() == script.steps[script.outputs.len() as int]
        }),
{
}

/// What a reply leads to is told as it is: the script that goes on, or its results, all of them
/// and in order, or the message to panic with.
pub proof fn progress_is_told_as_it_is<V>(
    run: ScriptRun<V>,
    results: Vec<V>,
    message: &'static str,
)
    ensures
        Progress::Running(run)@ == ScriptOutcome::Running(run@),
        Progress::Finished(results)@ == ScriptOutcome::Finished(results@),
        Progress::<V>::Threw@ == ScriptOutcome::<V>::Threw,
        Progress::<V>::Panicked(message)@ == ScriptOutcome::<V>::Panicked(message),
{
}

} // verus!
