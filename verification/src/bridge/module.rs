//! The functions that the native module exports.

use vstd::prelude::*;

use crate::context::{store_access, JsAsyncContext};
use crate::context_data::{ContextDataAccess, JsAsyncContextKey};
use crate::result::JsPromiseResult;
use crate::script::{
    all_values, asks, expecting, finishes, passing, script_finishes_with_its_replies, script_start,
    Arguments, Instruction, JsKind, JsReply, Operand, PropertyKey, ScriptOutcome, ScriptRun, Step,
};
use crate::util::{concatenated, error_message, error_text};

verus! {

/// The message for a callback whose promise is rejected.
pub const UNEXPECTED_JS_ERROR: &'static str = "unexpected JS error";

/// Length of the buffer that a serialized key of this many bytes is copied to.
pub fn key_buffer_length(bytes: &[u8]) -> (length: u32)
    requires
        bytes@.len() <= u32::MAX,
    ensures
        length == bytes@.len(),
{
    bytes.len() as u32
}

/// Copies a serialized key to a buffer of the same length.
pub fn fill_key_buffer(buffer: &mut [u8], bytes: &[u8])
    requires
        old(buffer)@.len() == bytes@.len(),
    ensures
        final(buffer)@ == bytes@,
{
    let mut i: usize = 0;
    while i < bytes.len()
        invariant
            i <= bytes@.len(),
            buffer@.len() == bytes@.len(),
            forall|j: int| 0 <= j < i ==> buffer@[j] == bytes@[j],
        decreases bytes@.len() - i,
    {
        buffer[i] = bytes[i];
        i = i + 1;
    }
    assert(buffer@ =~= bytes@);
}

/// Saves the two arguments in the global object.
pub open spec fn save_argument_steps() -> Seq<Step> {
    seq![
        passing(Instruction::Argument { index: 0, kind: JsKind::Value }),
        passing(Instruction::Argument { index: 1, kind: JsKind::Value }),
        passing(Instruction::GlobalObject),
        passing(
            Instruction::SetProperty {
                object: Operand::Output(2),
                key: PropertyKey::Name("__state"),
                value: Operand::Output(0),
            },
        ),
        passing(
            Instruction::SetProperty {
                object: Operand::Output(2),
                key: PropertyKey::Name("__done"),
                value: Operand::Output(1),
            },
        ),
    ]
}

/// Gets the promise that was saved in the global object.
pub open spec fn saved_promise_steps() -> Seq<Step> {
    seq![
        passing(Instruction::GlobalObject),
        expecting(
            Instruction::GetProperty {
                object: Operand::Output(0),
                key: PropertyKey::Name("__state"),
            },
            "bleh",
        ),
        expecting(
            Instruction::Downcast { value: Operand::Output(1), kind: JsKind::Object },
            "bleeeh",
        ),
    ]
}

/// Calls the function that was saved in the global object with the input.
pub open spec fn call_done_steps() -> Seq<Step> {
    seq![
        passing(Instruction::GlobalObject),
        expecting(
            Instruction::GetProperty {
                object: Operand::Output(0),
                key: PropertyKey::Name("__done"),
            },
            "bleh",
        ),
        expecting(
            Instruction::Downcast { value: Operand::Output(1), kind: JsKind::Function },
            "bleeeh",
        ),
        passing(Instruction::Null),
        expecting(
            Instruction::Call {
                function: Operand::Output(2),
                this: Operand::Output(3),
                arguments: Arguments::One(Operand::Input(0)),
            },
            "ok",
        ),
    ]
}

/// Saves the promise and the function that `print_callback_result` is called with.
pub fn print_callback_result<V: Copy>() -> (script: ScriptRun<V>)
    ensures
        script@ == script_start::<V>(save_argument_steps(), Seq::empty()),
{
    let steps: Vec<Step> = vec![
        passing(Instruction::Argument { index: 0, kind: JsKind::Value }),
        passing(Instruction::Argument { index: 1, kind: JsKind::Value }),
        passing(Instruction::GlobalObject),
        passing(
            Instruction::SetProperty {
                object: Operand::Output(2),
                key: PropertyKey::Name("__state"),
                value: Operand::Output(0),
            },
        ),
        passing(
            Instruction::SetProperty {
                object: Operand::Output(2),
                key: PropertyKey::Name("__done"),
                value: Operand::Output(1),
            },
        ),
    ];
    ScriptRun::start(steps, Vec::new())
}

/// Gets the promise back whose result is to be printed.
pub fn saved_promise<V: Copy>() -> (script: ScriptRun<V>)
    ensures
        script@ == script_start::<V>(saved_promise_steps(), Seq::empty()),
{
    let steps: Vec<Step> = vec![
        passing(Instruction::GlobalObject),
        expecting(
            Instruction::GetProperty {
                object: Operand::Output(0),
                key: PropertyKey::Name("__state"),
            },
            "bleh",
        ),
        expecting(
            Instruction::Downcast { value: Operand::Output(1), kind: JsKind::Object },
            "bleeeh",
        ),
    ];
    ScriptRun::start(steps, Vec::new())
}

/// The value of the promise, which is to be turned into text; or the message to panic with
/// if the promise was rejected.
pub fn callback_output<V>(result: JsPromiseResult<V>) -> (output: Result<V, &'static str>)
    ensures
        output == match result {
            Ok(value) => Ok::<V, &'static str>(value),
            Err(_) => Err::<V, &'static str>(UNEXPECTED_JS_ERROR),
        },
{
    match result {
        Ok(value) => Ok(value),
        Err(_) => Err(UNEXPECTED_JS_ERROR),
    }
}

/// What is printed for a promise with this output: the output, twice.
pub fn callback_text(output: &str) -> (text: String)
    ensures
        text@ == output@ + " "@ + output@,
{
    let once: String = concatenated(output, " ");
    concatenated(once.as_str(), output)
}

/// Hands the text to the function that was saved.
pub fn call_done<V: Copy>(text: V) -> (script: ScriptRun<V>)
    ensures
        script@ == script_start(call_done_steps(), seq![text]),
{
    let steps: Vec<Step> = vec![
        passing(Instruction::GlobalObject),
        expecting(
            Instruction::GetProperty {
                object: Operand::Output(0),
                key: PropertyKey::Name("__done"),
            },
            "bleh",
        ),
        expecting(
            Instruction::Downcast { value: Operand::Output(1), kind: JsKind::Function },
            "bleeeh",
        ),
        passing(Instruction::Null),
        expecting(
            Instruction::Call {
                function: Operand::Output(2),
                this: Operand::Output(3),
                arguments: Arguments::One(Operand::Input(0)),
            },
            "ok",
        ),
    ];
    ScriptRun::start(steps, vec![text])
}

/// A session store that is implemented in JavaScript.
pub struct JsSessionStore<X> {
    /// Holds the context that the store's methods are called in.
    pub context: X,
    /// The claim check for the store's object.
    pub key: JsAsyncContextKey,
}

/// A session store, and what is left to do before it is used.
pub struct NewSessionStore<X, V> {
    pub store: JsSessionStore<X>,
    pub access: ContextDataAccess<V>,
}

/// Calls the method `a` of the store, the input. The promise is the last result.
pub open spec fn perform_a_steps() -> Seq<Step> {
    seq![
        expecting(
            Instruction::GetProperty { object: Operand::Input(0), key: PropertyKey::Name("a") },
            "exists",
        ),
        expecting(
            Instruction::Downcast { value: Operand::Output(0), kind: JsKind::Function },
            "is function",
        ),
        expecting(
            Instruction::Call {
                function: Operand::Output(1),
                this: Operand::Input(0),
                arguments: Arguments::Empty,
            },
            "success",
        ),
        expecting(
            Instruction::Downcast { value: Operand::Output(2), kind: JsKind::Object },
            "is object",
        ),
    ]
}

impl<X> JsSessionStore<X> {
    /// Keeps the store's object in the context that `holder` holds.
    pub fn new<C, V: Copy>(context: &mut JsAsyncContext<C>, object: V, holder: X) -> (created:
        NewSessionStore<X, V>)
        requires
            old(context)@.next_id < u32::MAX,
        ensures
            created.store == (JsSessionStore {
                context: holder,
                key: old(context)@.next_key(JsKind::Object),
            }),
            created.access@ == store_access(old(context)@, object),
            final(context)@ == old(context)@.registered(),
    {
        let (key, access) = context.register_context_data(object, JsKind::Object);
        NewSessionStore { store: JsSessionStore { context: holder, key }, access }
    }

    /// Asks the store's object to perform its operation.
    pub fn perform_a<V: Copy>(&self, object: V) -> (script: ScriptRun<V>)
        ensures
            script@ == script_start(perform_a_steps(), seq![object]),
    {
        let steps: Vec<Step> = vec![
            expecting(
                Instruction::GetProperty {
                    object: Operand::Input(0),
                    key: PropertyKey::Name("a"),
                },
                "exists",
            ),
            expecting(
                Instruction::Downcast { value: Operand::Output(0), kind: JsKind::Function },
                "is function",
            ),
            expecting(
                Instruction::Call {
                    function: Operand::Output(1),
                    this: Operand::Input(0),
                    arguments: Arguments::Empty,
                },
                "success",
            ),
            expecting(
                Instruction::Downcast { value: Operand::Output(2), kind: JsKind::Object },
                "is object",
            ),
        ];
        ScriptRun::start(steps, vec![object])
    }
}

/// Reads the text that the store's operation was settled with.
pub open spec fn operation_text_steps() -> Seq<Step> {
    seq![
        expecting(
            Instruction::Downcast { value: Operand::Input(0), kind: JsKind::String },
            "is string",
        ),
    ]
}

/// Makes sure that the store's operation was settled with a text.
pub fn operation_text<V: Copy>(result: JsPromiseResult<V>) -> (script: ScriptRun<V>)
    ensures
        script@ == script_start(
            operation_text_steps(),
            seq![
                match result {
                    Ok(value) => value,
                    Err(value) => value,
                },
            ],
        ),
{
    let value: V = match result {
        Ok(value) => value,
        Err(value) => value,
    };
    let steps: Vec<Step> = vec![
        expecting(
            Instruction::Downcast { value: Operand::Input(0), kind: JsKind::String },
            "is string",
        ),
    ];
    ScriptRun::start(steps, vec![value])
}

/// What the store's operation comes to, given the texts that it was settled with.
pub fn operation_result(result: JsPromiseResult<String>) -> (output: String)
    ensures
        output@ == match result {
            Ok(text) => text@,
            Err(text) => error_message(text@),
        },
{
    match result {
        Ok(text) => text,
        Err(text) => error_text(text.as_str()),
    }
}

/// The two arguments are put in the global object, the first as `__state` and the second as
/// `__done`.
pub proof fn save_argument_requests<V>(replies: Seq<JsReply<V>>)
    requires
        replies.len() == 5,
        all_values(replies),
    ensures
        ({
            let script = script_start::<V>(save_argument_steps(), Seq::empty());
            let reply = |i: int| replies[i]->value;
            let asked = |at: int, request: Instruction<V>|
                asks(script, replies, at, request, ScriptOutcome::Threw);
            &&& asked(0, Instruction::Argument { index: 0, kind: JsKind::Value })
            &&& asked(1, Instruction::Argument { index: 1, kind: JsKind::Value })
            &&& asked(2, Instruction::GlobalObject)
            &&& asked(
                3,
                Instruction::SetProperty {
                    object: reply(2),
                    key: PropertyKey::Name("__state"),
                    value: reply(0),
                },
            )
            &&& asked(
                4,
                Instruction::SetProperty {
                    object: reply(2),
                    key: PropertyKey::Name("__done"),
                    value: reply(1),
                },
            )
            &&& finishes(script, replies)
        }),
{
    script_finishes_with_its_replies(save_argument_steps(), Seq::<V>::empty(), replies);
}

/// The promise to be waited for is what the global object has as `__state`, which must be an
/// object.
pub proof fn saved_promise_requests<V>(replies: Seq<JsReply<V>>)
    requires
        replies.len() == 3,
        all_values(replies),
    ensures
        ({
            let script = script_start::<V>(saved_promise_steps(), Seq::empty());
            let reply = |i: int| replies[i]->value;
            &&& asks(script, replies, 0, Instruction::GlobalObject, ScriptOutcome::Threw)
            &&& asks(
                script,
                replies,
                1,
                Instruction::GetProperty { object: reply(0), key: PropertyKey::Name("__state") },
                ScriptOutcome::Panicked("bleh"),
            )
            &&& asks(
                script,
                replies,
                2,
                Instruction::Downcast { value: reply(1), kind: JsKind::Object },
                ScriptOutcome::Panicked("bleeeh"),
            )
            &&& finishes(script, replies)
        }),
{
    script_finishes_with_its_replies(saved_promise_steps(), Seq::<V>::empty(), replies);
}

/// What the global object has as `__done`, which must be a function, is called on `null` with
/// the text and nothing else.
pub proof fn call_done_requests<V>(text: V, replies: Seq<JsReply<V>>)
    requires
        replies.len() == 5,
        all_values(replies),
    ensures
        ({
            let script = script_start(call_done_steps(), seq![text]);
            let reply = |i: int| replies[i]->value;
            &&& asks(script, replies, 0, Instruction::GlobalObject, ScriptOutcome::Threw)
            &&& asks(
                script,
                replies,
                1,
                Instruction::GetProperty { object: reply(0), key: PropertyKey::Name("__done") },
                ScriptOutcome::Panicked("bleh"),
            )
            &&& asks(
                script,
                replies,
                2,
                Instruction::Downcast { value: reply(1), kind: JsKind::Function },
                ScriptOutcome::Panicked("bleeeh"),
            )
            &&& asks(script, replies, 3, Instruction::Null, ScriptOutcome::Threw)
            &&& asks(
                script,
                replies,
                4,
                Instruction::Call {
                    function: reply(2),
                    this: reply(3),
                    arguments: Arguments::One(text),
                },
                ScriptOutcome::Panicked("ok"),
            )
            &&& finishes(script, replies)
        }),
{
    script_finishes_with_its_replies(call_done_steps(), seq![text], replies);
}

/// The store's method `a` is called without arguments, as a method of the store, and the last
/// result is what it returned, which must be an object.
pub proof fn perform_a_requests<V>(store: V, replies: Seq<JsReply<V>>)
    requires
        replies.len() == 4,
        all_values(replies),
    ensures
        ({
            let script = script_start(perform_a_steps(), seq![store]);
            let reply = |i: int| replies[i]->value;
            let asked = |at: int, request: Instruction<V>, message: &'static str|
                asks(script, replies, at, request, ScriptOutcome::Panicked(message));
            &&& asked(
                0,
                Instruction::GetProperty { object: store, key: PropertyKey::Name("a") },
                "exists",
            )
            &&& asked(
                1,
                Instruction::Downcast { value: reply(0), kind: JsKind::Function },
                "is function",
            )
            &&& asked(
                2,
                Instruction::Call {
                    function: reply(1),
                    this: store,
                    arguments: Arguments::Empty,
                },
                "success",
            )
            &&& asked(
                3,
                Instruction::Downcast { value: reply(2), kind: JsKind::Object },
                "is object",
            )
            &&& finishes(script, replies)
        }),
{
    script_finishes_with_its_replies(perform_a_steps(), seq![store], replies);
}

/// Whatever the store's operation was settled with must be a text, and is the result.
pub proof fn operation_text_requests<V>(value: V, replies: Seq<JsReply<V>>)
    requires
        replies.len() == 1,
        all_values(replies),
    ensures
        ({
            let script = script_start(operation_text_steps(), seq![value]);
            &&& asks(
                script,
                replies,
                0,
                Instruction::Downcast { value, kind: JsKind::String },
                ScriptOutcome::Panicked("is string"),
            )
            &&& finishes(script, replies)
        }),
{
    script_finishes_with_its_replies(operation_text_steps(), seq![value], replies);
}

/// What the store's operation comes to tells a text that it was fulfilled with from the same
/// text in a rejection.
pub proof fn operation_results_differ(text: Seq<char>)
    ensures
        error_message(text).len() == text.len() + 7,
        error_message(text) != text,
        UNEXPECTED_JS_ERROR == "unexpected JS error",
{
    reveal_strlit("error: ");
}

} // verus!
