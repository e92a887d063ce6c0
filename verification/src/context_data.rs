//! Keeps JavaScript values reachable between one JavaScript call and the next.
//!
//! A context keeps its values in one JavaScript object of its own, its storage, which is a
//! property of the global object. A value is found again by its index in the storage.

use vstd::prelude::*;

use crate::script::{
    all_values, expecting, passing, script_start, Instruction, JsKind, JsReply, Operand, Progress,
    PropertyKey, ScriptOutcome, ScriptRun, ScriptView, Step,
};

verus! {

/// Identifies some data stored "in" a context.
///
/// A key is the claim check for a value that was registered with a context. It can only be
/// used with the context it came from.
#[derive(Clone, Copy, Debug, PartialEq, Eq, Structural)]
pub struct JsAsyncContextKey {
    /// The context that the data belongs to.
    pub context_id: usize,
    /// Uniquely identifies the data within its context.
    pub raw_key: u32,
    /// The type that the data has.
    pub kind: JsKind,
}

/// What becomes of a failure to read or write the storage, and what the storage is.
#[derive(Clone, Copy, Debug, PartialEq, Eq, Structural)]
pub enum StorageStyle {
    /// The storage is an array that nobody else has access to: it never fails.
    PrivateArray,
    /// The storage is an object; exceptions in using it are left to the caller.
    PlainObject,
}

/// What is wanted of the storage.
#[derive(Clone, Copy, Debug, PartialEq, Eq)]
pub enum DataRequest<V> {
    Store { raw_key: u32, value: V },
    Load { raw_key: u32, kind: JsKind },
}

/// How far an access to the storage has come.
#[derive(Clone, Copy, Debug, PartialEq, Eq, Structural)]
pub enum AccessStage {
    /// Looking for the storage on the global object.
    Lookup,
    /// Making the storage, or making sure of its type.
    Open,
    /// Reading or writing a value in the storage.
    Access,
}

/// Finds whatever the global object has in the place of the storage.
pub open spec fn lookup_steps() -> Seq<Step> {
    seq![
        passing(Instruction::GlobalObject),
        expecting(
            Instruction::GetProperty {
                object: Operand::Output(0),
                key: PropertyKey::ContextData,
            },
            "can always get properties on the global object",
        ),
    ]
}

/// Makes a new storage, or takes what was found, the input, to be the storage.
///
/// The storage is the result of the first instruction.
pub open spec fn open_steps(style: StorageStyle, create: bool) -> Seq<Step> {
    if create {
        seq![
            passing(
                match style {
                    StorageStyle::PrivateArray => Instruction::EmptyArray,
                    StorageStyle::PlainObject => Instruction::EmptyObject,
                },
            ),
            passing(Instruction::GlobalObject),
            expecting(
                Instruction::SetProperty {
                    object: Operand::Output(1),
                    key: PropertyKey::ContextData,
                    value: Operand::Output(0),
                },
                "can always set properties on the global object",
            ),
        ]
    } else {
        seq![
            expecting(
                Instruction::Downcast {
                    value: Operand::Input(0),
                    kind: match style {
                        StorageStyle::PrivateArray => JsKind::Array,
                        StorageStyle::PlainObject => JsKind::Object,
                    },
                },
                "context data accessed improperly somehow",
            ),
        ]
    }
}

/// Writes the second input to the storage, the first input.
pub open spec fn store_steps(style: StorageStyle, raw_key: u32) -> Seq<Step> {
    let set = Instruction::SetProperty {
        object: Operand::Input(0),
        key: PropertyKey::Index(raw_key),
        value: Operand::Input(1),
    };
    match style {
        StorageStyle::PrivateArray => seq![expecting(set, "setting value on private object")],
        StorageStyle::PlainObject => seq![passing(set)],
    }
}

/// Reads a value from the storage, the input, and makes sure of its type.
pub open spec fn load_steps(style: StorageStyle, raw_key: u32, kind: JsKind) -> Seq<Step> {
    let get = Instruction::GetProperty {
        object: Operand::Input(0),
        key: PropertyKey::Index(raw_key),
    };
    let downcast = Instruction::Downcast { value: Operand::Output(0), kind };
    match style {
        StorageStyle::PrivateArray => seq![
            expecting(get, "invalid key"),
            expecting(downcast, "type has not changed"),
        ],
        StorageStyle::PlainObject => seq![passing(get), passing(downcast)],
    }
}

/// Where an access to the storage stands.
#[verifier::ext_equal]
pub struct AccessView<V> {
    pub style: StorageStyle,
    /// The name of the storage in the global object.
    pub storage: Seq<char>,
    pub request: DataRequest<V>,
    pub stage: AccessStage,
    pub script: ScriptView<V>,
}

/// What an answer of the engine leads to, over the view.
#[verifier::ext_equal]
pub enum AccessOutcome<V> {
    Running(AccessView<V>),
    Finished(V),
    Threw,
    Panicked(&'static str),
}

/// An access to the storage with the given name before its first instruction.
pub open spec fn access_start<V>(
    style: StorageStyle,
    storage: Seq<char>,
    request: DataRequest<V>,
) -> AccessView<V> {
    AccessView {
        style,
        storage,
        request,
        stage: AccessStage::Lookup,
        script: script_start(lookup_steps(), Seq::empty()),
    }
}

impl<V> AccessView<V> {
    /// Enters the next stage, now that the instructions of this one have given `outputs`.
    ///
    /// Only a request to store makes a new storage, and only where nothing was found.
    pub open spec fn advance(self, outputs: Seq<V>, undefined: bool) -> AccessOutcome<V> {
        match self.stage {
            AccessStage::Lookup => {
                let create = self.request is Store && undefined;
                AccessOutcome::Running(
                    AccessView {
                        stage: AccessStage::Open,
                        script: script_start(
                            open_steps(self.style, create),
                            seq![outputs.last()],
                        ),
                        ..self
                    },
                )
            },
            AccessStage::Open => AccessOutcome::Running(
                AccessView {
                    stage: AccessStage::Access,
                    script: match self.request {
                        DataRequest::Store { raw_key, value } => script_start(
                            store_steps(self.style, raw_key),
                            seq![outputs[0], value],
                        ),
                        DataRequest::Load { raw_key, kind } => script_start(
                            load_steps(self.style, raw_key, kind),
                            seq![outputs[0]],
                        ),
                    },
                    ..self
                },
            ),
            AccessStage::Access => AccessOutcome::Finished(
                match self.request {
                    DataRequest::Store { raw_key, value } => value,
                    DataRequest::Load { raw_key, kind } => outputs.last(),
                },
            ),
        }
    }

    /// What follows from the engine's answer to the current instruction.
    pub open spec fn resume(self, reply: JsReply<V>) -> AccessOutcome<V> {
        match self.script.resume(reply) {
            ScriptOutcome::Running(script) => AccessOutcome::Running(AccessView { script, ..self }),
            ScriptOutcome::Finished(outputs) => self.advance(
                outputs,
                reply matches JsReply::Value { value, undefined } && undefined,
            ),
            ScriptOutcome::Threw => AccessOutcome::Threw,
            ScriptOutcome::Panicked(message) => AccessOutcome::Panicked(message),
        }
    }
}

/// An access to a context's storage that is waiting for the engine's next answer.
pub struct ContextDataAccess<V> {
    style: StorageStyle,
    storage: String,
    request: DataRequest<V>,
    stage: AccessStage,
    run: ScriptRun<V>,
}

/// What an answer of the engine leads to.
pub enum AccessProgress<V> {
    /// There is another instruction to perform.
    Running(ContextDataAccess<V>),
    /// The value has been stored, or loaded.
    Finished(V),
    /// An exception is pending, and the access has ended.
    Threw,
    /// The access ended at an exception that must not happen.
    Panicked(&'static str),
}

impl<V> View for ContextDataAccess<V> {
    type V = AccessView<V>;

    closed spec fn view(&self) -> AccessView<V> {
        AccessView {
            style: self.style,
            storage: self.storage@,
            request: self.request,
            stage: self.stage,
            script: self.run@,
        }
    }
}

impl<V> View for AccessProgress<V> {
    type V = AccessOutcome<V>;

    open spec fn view(&self) -> AccessOutcome<V> {
        match *self {
            AccessProgress::Running(access) => AccessOutcome::Running(access@),
            AccessProgress::Finished(value) => AccessOutcome::Finished(value),
            AccessProgress::Threw => AccessOutcome::Threw,
            AccessProgress::Panicked(message) => AccessOutcome::Panicked(message),
        }
    }
}

fn lookup_script() -> (steps: Vec<Step>)
    ensures
        steps@ == lookup_steps(),
{
    vec![
        passing(Instruction::GlobalObject),
        expecting(
            Instruction::GetProperty {
                object: Operand::Output(0),
                key: PropertyKey::ContextData,
            },
            "can always get properties on the global object",
        ),
    ]
}

fn open_script(style: StorageStyle, create: bool) -> (steps: Vec<Step>)
    ensures
        steps@ == open_steps(style, create),
{
    if create {
        let empty: Instruction<Operand> = match style {
            StorageStyle::PrivateArray => Instruction::EmptyArray,
            StorageStyle::PlainObject => Instruction::EmptyObject,
        };
        vec![
            passing(empty),
            passing(Instruction::GlobalObject),
            expecting(
                Instruction::SetProperty {
                    object: Operand::Output(1),
                    key: PropertyKey::ContextData,
                    value: Operand::Output(0),
                },
                "can always set properties on the global object",
            ),
        ]
    } else {
        let kind: JsKind = match style {
            StorageStyle::PrivateArray => JsKind::Array,
            StorageStyle::PlainObject => JsKind::Object,
        };
        vec![
            expecting(
                Instruction::Downcast { value: Operand::Input(0), kind },
                "context data accessed improperly somehow",
            ),
        ]
    }
}

fn store_script(style: StorageStyle, raw_key: u32) -> (steps: Vec<Step>)
    ensures
        steps@ == store_steps(style, raw_key),
{
    let set: Instruction<Operand> = Instruction::SetProperty {
        object: Operand::Input(0),
        key: PropertyKey::Index(raw_key),
        value: Operand::Input(1),
    };
    match style {
        StorageStyle::PrivateArray => vec![expecting(set, "setting value on private object")],
        StorageStyle::PlainObject => vec![passing(set)],
    }
}

fn load_script(style: StorageStyle, raw_key: u32, kind: JsKind) -> (steps: Vec<Step>)
    ensures
        steps@ == load_steps(style, raw_key, kind),
{
    let get: Instruction<Operand> = Instruction::GetProperty {
        object: Operand::Input(0),
        key: PropertyKey::Index(raw_key),
    };
    let downcast: Instruction<Operand> = Instruction::Downcast { value: Operand::Output(0), kind };
    match style {
        StorageStyle::PrivateArray => vec![
            expecting(get, "invalid key"),
            expecting(downcast, "type has not changed"),
        ],
        StorageStyle::PlainObject => vec![passing(get), passing(downcast)],
    }
}

impl<V: Copy> ContextDataAccess<V> {
    /// Starts an access to the storage with the given name.
    pub fn start(style: StorageStyle, storage: String, request: DataRequest<V>) -> (access: Self)
        ensures
            access@ == access_start(style, storage@, request),
    {
        ContextDataAccess {
            style,
            storage,
            request,
            stage: AccessStage::Lookup,
            run: ScriptRun::start(lookup_script(), Vec::new()),
        }
    }

    /// The request that the engine is to answer next.
    pub fn command(&self) -> (command: Instruction<V>)
        ensures
            self@.script.outputs.len() < self@.script.steps.len(),
            command == self@.script.command(),
    {
        self.run.command()
    }

    /// The name in the global object that [PropertyKey::ContextData] stands for in this
    /// access.
    pub fn storage(&self) -> (storage: &str)
        ensures
            storage@ == self@.storage,
    {
        self.storage.as_str()
    }

    /// Accesses the single object that stores all of a context's data, once it is known
    /// what the global object has in its place. `undefined` says whether that is `undefined`.
    pub fn context_data_object(
        style: StorageStyle,
        create_if_needed: bool,
        found: V,
        undefined: bool,
    ) -> (run: ScriptRun<V>)
        ensures
            run@ == script_start(open_steps(style, create_if_needed && undefined), seq![found]),
    {
        ScriptRun::start(open_script(style, create_if_needed && undefined), vec![found])
    }

    /// Goes on from the engine's answer to the current instruction.
    pub fn resume(self, reply: JsReply<V>) -> (progress: AccessProgress<V>)
        ensures
            progress@ == self@.resume(reply),
    {
        let undefined: bool = match reply {
            JsReply::Value { value: _, undefined } => undefined,
            JsReply::Threw => false,
        };
        let ContextDataAccess { style, storage, request, stage, run } = self;
        let outputs: Vec<V> = match run.resume(reply) {
            Progress::Running(run) => return AccessProgress::Running(
                ContextDataAccess { style, storage, request, stage, run },
            ),
            Progress::Finished(outputs) => outputs,
            Progress::Threw => return AccessProgress::Threw,
            Progress::Panicked(message) => return AccessProgress::Panicked(message),
        };
        match stage {
            AccessStage::Lookup => {
                let create_if_needed: bool = match request {
                    DataRequest::Store { .. } => true,
                    DataRequest::Load { .. } => false,
                };
                let found: V = outputs[outputs.len() - 1];
                let run: ScriptRun<V> = Self::context_data_object(
                    style,
                    create_if_needed,
                    found,
                    undefined,
                );
                AccessProgress::Running(
                    ContextDataAccess { style, storage, request, stage: AccessStage::Open, run },
                )
            },
            AccessStage::Open => {
                let object: V = outputs[0];
                let run: ScriptRun<V> = match request {
                    DataRequest::Store { raw_key, value } => ScriptRun::start(
                        store_script(style, raw_key),
                        vec![object, value],
                    ),
                    DataRequest::Load { raw_key, kind } => ScriptRun::start(
                        load_script(style, raw_key, kind),
                        vec![object],
                    ),
                };
                AccessProgress::Running(
                    ContextDataAccess { style, storage, request, stage: AccessStage::Access, run },
                )
            },
            AccessStage::Access => match request {
                DataRequest::Store { raw_key: _, value } => AccessProgress::Finished(value),
                DataRequest::Load { .. } => AccessProgress::Finished(outputs[outputs.len() - 1]),
            },
        }
    }
}

/// The access after these replies of the engine, if it has not come to an end by then.
pub open spec fn access_after<V>(access: AccessView<V>, replies: Seq<JsReply<V>>) -> Option<
    AccessView<V>,
>
    decreases replies.len(),
{
    if replies.len() == 0 {
        Some(access)
    } else {
        match access_after(access, replies.drop_last()) {
            Some(access) => match access.resume(replies.last()) {
                AccessOutcome::Running(access) => Some(access),
                _ => None,
            },
            None => None,
        }
    }
}

/// After the first `at` of these replies the access asks for `request` in the storage of the
/// given name. An exception in performing it is a bug with the given message, or is left to the
/// caller if there is none.
pub open spec fn access_asks<V>(
    start: AccessView<V>,
    replies: Seq<JsReply<V>>,
    at: int,
    request: Instruction<V>,
    message: Option<&'static str>,
) -> bool {
    access_after(start, replies.take(at)) matches Some(reached) && reached.script.command()
        == request && reached.storage == start.storage && reached.resume(JsReply::Threw)
        == match message {
        Some(message) => AccessOutcome::<V>::Panicked(message),
        None => AccessOutcome::<V>::Threw,
    }
}

/// The access takes exactly these replies, and finishes with `value`.
pub open spec fn access_finishes<V>(
    start: AccessView<V>,
    replies: Seq<JsReply<V>>,
    value: V,
) -> bool {
    &&& replies.len() > 0
    &&& access_after(start, replies.take(replies.len() - 1)) matches Some(last) && last.resume(
        replies.last(),
    ) == AccessOutcome::Finished(value)
}

proof fn access_goes_on<V>(start: AccessView<V>, replies: Seq<JsReply<V>>, at: int)
    requires
        0 < at <= replies.len(),
    ensures
        access_after(start, replies.take(at)) == match access_after(start, replies.take(at - 1)) {
            Some(access) => match access.resume(replies[at - 1]) {
                AccessOutcome::Running(access) => Some(access),
                _ => None,
            },
            None => None,
        },
{
    assert(replies.take(at).drop_last() =~= replies.take(at - 1));
}

/// What a private storage gives for a bug, a plain one leaves to the caller.
pub open spec fn private_bug(style: StorageStyle, message: &'static str) -> Option<&'static str> {
    match style {
        StorageStyle::PrivateArray => Some(message),
        StorageStyle::PlainObject => None,
    }
}

/// A value is stored in what the global object has in the place of the storage, if there is
/// anything, and under the given index.
pub proof fn store_requests<V>(
    style: StorageStyle,
    storage: Seq<char>,
    raw_key: u32,
    value: V,
    replies: Seq<JsReply<V>>,
)
    requires
        replies.len() == 4,
        all_values(replies),
        !replies[1]->undefined,
    ensures
        ({
            let start = access_start(style, storage, DataRequest::Store { raw_key, value });
            let reply = |i: int| replies[i]->value;
            &&& start.storage == storage
            &&& access_asks(start, replies, 0, Instruction::GlobalObject, None)
            &&& access_asks(
                start,
                replies,
                1,
                Instruction::GetProperty { object: reply(0), key: PropertyKey::ContextData },
                Some("can always get properties on the global object"),
            )
            &&& access_asks(
                start,
                replies,
                2,
                Instruction::Downcast {
                    value: reply(1),
                    kind: match style {
                        StorageStyle::PrivateArray => JsKind::Array,
                        StorageStyle::PlainObject => JsKind::Object,
                    },
                },
                Some("context data accessed improperly somehow"),
            )
            &&& access_asks(
                start,
                replies,
                3,
                Instruction::SetProperty {
                    object: reply(2),
                    key: PropertyKey::Index(raw_key),
                    value,
                },
                private_bug(style, "setting value on private object"),
            )
            &&& access_finishes(start, replies, value)
        }),
{
    let start = access_start(style, storage, DataRequest::Store { raw_key, value });
    access_goes_on(start, replies, 1);
    access_goes_on(start, replies, 2);
    access_goes_on(start, replies, 3);
}

/// If there is nothing in the place of the storage, storing a value first makes a new storage
/// and puts it there.
pub proof fn first_store_requests<V>(
    style: StorageStyle,
    storage: Seq<char>,
    raw_key: u32,
    value: V,
    replies: Seq<JsReply<V>>,
)
    requires
        replies.len() == 6,
        all_values(replies),
        replies[1]->undefined,
    ensures
        ({
            let start = access_start(style, storage, DataRequest::Store { raw_key, value });
            let reply = |i: int| replies[i]->value;
            &&& access_asks(
                start,
                replies,
                2,
                match style {
                    StorageStyle::PrivateArray => Instruction::EmptyArray,
                    StorageStyle::PlainObject => Instruction::EmptyObject,
                },
                None,
            )
            &&& access_asks(start, replies, 3, Instruction::GlobalObject, None)
            &&& access_asks(
                start,
                replies,
                4,
                Instruction::SetProperty {
                    object: reply(3),
                    key: PropertyKey::ContextData,
                    value: reply(2),
                },
                Some("can always set properties on the global object"),
            )
            &&& access_asks(
                start,
                replies,
                5,
                Instruction::SetProperty {
                    object: reply(2),
                    key: PropertyKey::Index(raw_key),
                    value,
                },
                private_bug(style, "setting value on private object"),
            )
            &&& access_finishes(start, replies, value)
        }),
{
    let start = access_start(style, storage, DataRequest::Store { raw_key, value });
    access_goes_on(start, replies, 1);
    access_goes_on(start, replies, 2);
    access_goes_on(start, replies, 3);
    access_goes_on(start, replies, 4);
    access_goes_on(start, replies, 5);
}

/// A value is looked for in what the global object has in the place of the storage, under the
/// given index, and must have the given type. No storage is ever made for it.
pub proof fn load_requests<V>(
    style: StorageStyle,
    storage: Seq<char>,
    raw_key: u32,
    kind: JsKind,
    replies: Seq<JsReply<V>>,
)
    requires
        replies.len() == 5,
        all_values(replies),
    ensures
        ({
            let start = access_start(style, storage, DataRequest::<V>::Load { raw_key, kind });
            let reply = |i: int| replies[i]->value;
            &&& start.storage == storage
            &&& access_asks(start, replies, 0, Instruction::GlobalObject, None)
            &&& access_asks(
                start,
                replies,
                1,
                Instruction::GetProperty { object: reply(0), key: PropertyKey::ContextData },
                Some("can always get properties on the global object"),
            )
            &&& access_asks(
                start,
                replies,
                2,
                Instruction::Downcast {
                    value: reply(1),
                    kind: match style {
                        StorageStyle::PrivateArray => JsKind::Array,
                        StorageStyle::PlainObject => JsKind::Object,
                    },
                },
                Some("context data accessed improperly somehow"),
            )
            &&& access_asks(
                start,
                replies,
                3,
                Instruction::GetProperty { object: reply(2), key: PropertyKey::Index(raw_key) },
                private_bug(style, "invalid key"),
            )
            &&& access_asks(
                start,
                replies,
                4,
                Instruction::Downcast { value: reply(3), kind },
                private_bug(style, "type has not changed"),
            )
            &&& access_finishes(start, replies, reply(4))
        }),
{
    let start = access_start(style, storage, DataRequest::<V>::Load { raw_key, kind });
    access_goes_on(start, replies, 1);
    access_goes_on(start, replies, 2);
    access_goes_on(start, replies, 3);
    access_goes_on(start, replies, 4);
}

/// What a reply leads to is told as it is: the access that goes on, or the value, or the
/// message to panic with.
pub proof fn access_progress_is_told_as_it_is<V>(
    access: ContextDataAccess<V>,
    value: V,
    message: &'static str,
)
    ensures
        AccessProgress::Running(access)@ == AccessOutcome::Running(access@),
        AccessProgress::Finished(value)@ == AccessOutcome::Finished(value),
        AccessProgress::<V>::Threw@ == AccessOutcome::<V>::Threw,
        AccessProgress::<V>::Panicked(message)@ == AccessOutcome::<V>::Panicked(message),
{
}

} // verus!
