//! The state that a future shares with the JavaScript callbacks that advance it.

use futures::executor::LocalPool;
use vstd::prelude::*;
use vstd::string::*;

use crate::context_data::{
    access_start, AccessStage, AccessView, ContextDataAccess, DataRequest, JsAsyncContextKey,
    StorageStyle,
};
use crate::pool::new_pool;
use crate::script::{
    all_values, asks, expecting, finishes, passing, script_finishes_with_its_replies, script_start,
    Instruction, JsKind, JsReply, Operand, PropertyKey, ScriptOutcome, ScriptRun, Step,
};
use crate::util::{
    concatenated, digit_value, hex, hex_injective, hex_reads_back, hex_text, hex_value,
};

verus! {

/// The message for using a context outside of every JavaScript call.
pub const NO_CURRENT_CONTEXT: &'static str = "cannot use the JS context outside of a JS call";

/// The message for using a key with a context that it does not come from.
pub const FOREIGN_KEY: &'static str = "Key used for a different JsAsyncContext";

/// The message for a context that is not in a JavaScript call when it is destroyed.
pub const OUTLIVED: &'static str =
    "must not persist JsAsyncContext beyond the lifetime of the future being run";

/// The message for a context of the [crate::bridge] that is not in a JavaScript call when it
/// is destroyed.
pub const NOT_CLEANED_UP: &'static str =
    "must clean up JsAsyncContext during the fulfillment of the last JS callback invoked";

/// The message for a future that waits for something else than a JavaScript promise.
pub const NOT_BLOCKED_ON_JS: &'static str = "only supports blocking on JavaScript futures";

/// The message for starting a future in a context whose pool is in use.
pub const NOT_AT_TOP_LEVEL: &'static str =
    "should only be called at the top level of an operation";

/// The name under which a context at `address` keeps its data in the global object.
pub open spec fn context_global_key(style: StorageStyle, address: usize) -> Seq<char> {
    match style {
        StorageStyle::PrivateArray => "__signal_neon_futures::JsAsyncContext(0x"@ + hex(
            address as nat,
        ) + ")"@,
        StorageStyle::PlainObject => "__libsignal-client::JsAsyncContext::"@ + hex(address as nat),
    }
}

/// An execution context for futures that wait on JavaScript promises.
///
/// `C` is whatever gives access to the JavaScript call that is running. Everybody who holds
/// the context shares this one state.
pub struct JsAsyncContext<C> {
    /// What the context keeps its data in.
    style: StorageStyle,
    /// A number that no other live context has.
    opaque_id: usize,
    /// The JavaScript call that is running, if there is one.
    current_context: Option<C>,
    /// The executor for the top-level future. It is gone while it is being run.
    pool: Option<LocalPool>,
    /// Guards against awaiting anything but JavaScript promises.
    num_pending_js_futures: i32,
    /// Whether the top-level future has completed.
    complete: bool,
    /// The name under which the context keeps its data in the global object.
    global_key: String,
    /// The index of the next value to be registered.
    next_global_id: u32,
}

/// The state of a context.
#[verifier::ext_equal]
pub struct ContextView<C> {
    pub style: StorageStyle,
    pub id: usize,
    pub current: Option<C>,
    pub pool: Option<LocalPool>,
    pub pending: i32,
    pub complete: bool,
    pub global_key: Seq<char>,
    pub next_id: u32,
}

impl<C> ContextView<C> {
    /// The top-level future has completed, or there is a JavaScript promise to wait for.
    pub open spec fn can_block(self) -> bool {
        self.complete || self.pending > 0
    }

    /// The same state, with another number of pending futures.
    pub open spec fn with_pending(self, pending: int) -> ContextView<C> {
        ContextView { pending: pending as i32, ..self }
    }

    /// The key that the next registered value gets.
    pub open spec fn next_key(self, kind: JsKind) -> JsAsyncContextKey {
        JsAsyncContextKey { context_id: self.id, raw_key: self.next_id, kind }
    }

    /// The state after a value has been registered.
    pub open spec fn registered(self) -> ContextView<C> {
        ContextView { next_id: (self.next_id + 1) as u32, ..self }
    }

    /// The key is one that this context can be asked for.
    pub open spec fn accepts(self, key: JsAsyncContextKey) -> bool {
        self.style == StorageStyle::PrivateArray ==> key.context_id == self.id
    }
}

impl<C> View for JsAsyncContext<C> {
    type V = ContextView<C>;

    closed spec fn view(&self) -> ContextView<C> {
        ContextView {
            style: self.style,
            id: self.opaque_id,
            current: self.current_context,
            pool: self.pool,
            pending: self.num_pending_js_futures,
            complete: self.complete,
            global_key: self.global_key@,
            next_id: self.next_global_id,
        }
    }
}

/// A context in which nothing has happened yet.
pub open spec fn fresh_context<C>(
    style: StorageStyle,
    address: usize,
    pool: Option<LocalPool>,
) -> ContextView<C> {
    ContextView {
        style,
        id: address,
        current: None,
        pool,
        pending: 0,
        complete: false,
        global_key: context_global_key(style, address),
        next_id: 0,
    }
}

/// Removes a context's storage from the global object.
pub open spec fn clear_steps() -> Seq<Step> {
    seq![
        passing(Instruction::Undefined),
        passing(Instruction::GlobalObject),
        expecting(
            Instruction::SetProperty {
                object: Operand::Output(1),
                key: PropertyKey::ContextData,
                value: Operand::Output(0),
            },
            "no one else cleared this",
        ),
    ]
}

/// What is left to do when a context has been destroyed.
pub struct Destruction<V> {
    /// The name in the global object that [PropertyKey::ContextData] stands for in the script.
    pub storage: String,
    pub script: ScriptRun<V>,
}

/// An exception that is being kept in a context.
pub struct StoredException<V> {
    /// The claim check for the exception.
    pub key: JsAsyncContextKey,
    /// What is left to do to store it.
    pub access: ContextDataAccess<V>,
}

/// How the operation of a context begins.
pub enum RunStart<F, V> {
    /// The future is to be spawned on the context's pool.
    Spawn(F),
    /// There is no future, because of this exception. It is to be thrown to the caller when
    /// the run is over.
    Throw(V),
}

impl<C> JsAsyncContext<C> {
    fn create(style: StorageStyle, address: usize, global_key: String) -> (context: Self)
        requires
            global_key@ == context_global_key(style, address),
        ensures
            context@.pool is Some,
            context@ == fresh_context::<C>(style, address, context@.pool),
    {
        JsAsyncContext {
            style,
            opaque_id: address,
            current_context: None,
            pool: Some(new_pool()),
            num_pending_js_futures: 0,
            complete: false,
            global_key,
            next_global_id: 0,
        }
    }

    /// Initializes a fresh context that is kept at `address`.
    pub fn new(address: usize) -> (context: Self)
        ensures
            context@.pool is Some,
            context@ == fresh_context::<C>(StorageStyle::PrivateArray, address, context@.pool),
    {
        let digits: String = hex_text(address);
        let prefix: String = concatenated(
            "__signal_neon_futures::JsAsyncContext(0x",
            digits.as_str(),
        );
        let global_key: String = concatenated(prefix.as_str(), ")");
        Self::create(StorageStyle::PrivateArray, address, global_key)
    }

    /// Initializes a fresh context for the [crate::bridge] that is kept at `address`.
    pub fn new_for_bridge(address: usize) -> (context: Self)
        ensures
            context@.pool is Some,
            context@ == fresh_context::<C>(StorageStyle::PlainObject, address, context@.pool),
    {
        let digits: String = hex_text(address);
        let global_key: String = concatenated(
            "__libsignal-client::JsAsyncContext::",
            digits.as_str(),
        );
        Self::create(StorageStyle::PlainObject, address, global_key)
    }

    /// Returns the unique number associated with this context.
    pub fn opaque_id(&self) -> (id: usize)
        ensures
            id == self@.id,
    {
        self.opaque_id
    }

    /// The name under which this context keeps its data in the global object.
    pub fn global_key(&self) -> (key: &str)
        ensures
            key@ == self@.global_key,
    {
        self.global_key.as_str()
    }

    /// How many JavaScript promises the top-level future is waiting for.
    pub fn num_pending_js_futures(&self) -> (pending: i32)
        ensures
            pending == self@.pending,
    {
        self.num_pending_js_futures
    }

    /// Whether the top-level future has completed.
    pub fn is_complete(&self) -> (complete: bool)
        ensures
            complete == self@.complete,
    {
        self.complete
    }

    /// The executor, unless it is being run.
    pub fn pool(&self) -> (pool: Option<&LocalPool>)
        ensures
            match pool {
                Some(pool) => self@.pool == Some(*pool),
                None => self@.pool is None,
            },
    {
        match &self.pool {
            Some(pool) => Some(pool),
            None => None,
        }
    }

    /// Whether a JavaScript call is running.
    pub fn has_current_context(&self) -> (running: bool)
        ensures
            running == self@.current is Some,
    {
        match &self.current_context {
            Some(_) => true,
            None => false,
        }
    }

    /// Whether there is an index left for another value to be registered.
    pub fn can_register(&self) -> (free: bool)
        ensures
            free == (self@.next_id < u32::MAX),
    {
        self.next_global_id < u32::MAX
    }

    /// Whether the key is one that this context can be asked for.
    pub fn accepts(&self, key: JsAsyncContextKey) -> (accepted: bool)
        ensures
            accepted == self@.accepts(key),
    {
        match self.style {
            StorageStyle::PrivateArray => key.context_id == self.opaque_id,
            StorageStyle::PlainObject => true,
        }
    }

    /// Tracks outstanding futures to make sure there's always something to block on.
    pub fn register_future(&mut self)
        requires
            old(self)@.pending < i32::MAX,
        ensures
            final(self)@ == old(self)@.with_pending(old(self)@.pending + 1),
    {
        self.num_pending_js_futures = self.num_pending_js_futures + 1;
    }

    /// Notes that a future has been fulfilled.
    pub fn fulfill_future(&mut self)
        requires
            old(self)@.pending > i32::MIN,
        ensures
            final(self)@ == old(self)@.with_pending(old(self)@.pending - 1),
    {
        self.num_pending_js_futures = self.num_pending_js_futures - 1;
    }

    /// Notes that the top-level future has completed.
    pub fn complete(&mut self)
        ensures
            final(self)@ == (ContextView { complete: true, ..old(self)@ }),
    {
        self.complete = true;
    }

    /// Gives access to the JavaScript call that is running.
    pub fn with_context(&self) -> (current: &C)
        requires
            self@.current is Some,
        ensures
            self@.current == Some(*current),
    {
        self.current_context.as_ref().unwrap()
    }

    /// Makes `current` the running JavaScript call, and returns the previous one.
    pub(crate) fn enter(&mut self, current: C) -> (previous: Option<C>)
        ensures
            previous == old(self)@.current,
            final(self)@ == (ContextView { current: Some(current), ..old(self)@ }),
    {
        let mut previous: Option<C> = Some(current);
        core::mem::swap(&mut previous, &mut self.current_context);
        previous
    }

    /// Goes back to the previous JavaScript call.
    pub(crate) fn restore(&mut self, previous: Option<C>)
        ensures
            final(self)@ == (ContextView { current: previous, ..old(self)@ }),
    {
        self.current_context = previous;
    }

    /// Takes the pool in order to run it.
    pub(crate) fn take_pool(&mut self) -> (pool: Option<LocalPool>)
        ensures
            pool == old(self)@.pool,
            final(self)@ == (ContextView { pool: None, ..old(self)@ }),
    {
        let mut pool: Option<LocalPool> = None;
        core::mem::swap(&mut pool, &mut self.pool);
        pool
    }

    /// Puts the pool back, now that no task in it can make progress.
    ///
    /// Fails if there is nothing that could ever make progress again.
    pub(crate) fn return_pool(&mut self, pool: LocalPool) -> (ok: bool)
        ensures
            ok == old(self)@.can_block(),
            final(self)@ == if ok {
                ContextView { pool: Some(pool), ..old(self)@ }
            } else {
                old(self)@
            },
    {
        if self.complete || self.num_pending_js_futures > 0 {
            self.pool = Some(pool);
            true
        } else {
            false
        }
    }

    /// Destroys the context, and says how to remove what it left in the global object.
    ///
    /// The script is to be run in the JavaScript call that is running.
    pub fn destroy<V: Copy>(self) -> (destruction: Destruction<V>)
        requires
            self@.current is Some,
        ensures
            destruction.storage@ == self@.global_key,
            destruction.script@ == script_start::<V>(clear_steps(), Seq::empty()),
    {
        let steps: Vec<Step> = vec![
            passing(Instruction::Undefined),
            passing(Instruction::GlobalObject),
            expecting(
                Instruction::SetProperty {
                    object: Operand::Output(1),
                    key: PropertyKey::ContextData,
                    value: Operand::Output(0),
                },
                "no one else cleared this",
            ),
        ];
        Destruction {
            storage: self.global_key,
            script: ScriptRun::start(steps, Vec::new()),
        }
    }

    /// Begins the operation of a fresh context, given what came of making its future.
    ///
    /// If there is no future because of an exception, nothing is left to be waited for, and
    /// the exception goes to the caller.
    pub fn run<F, V>(&mut self, made: Result<F, V>) -> (start: RunStart<F, V>)
        ensures
            match made {
                Ok(future) => start == RunStart::<F, V>::Spawn(future) && final(self)@ == old(
                    self,
                )@,
                Err(exception) => start == RunStart::<F, V>::Throw(exception) && final(self)@ == (
                ContextView { complete: true, ..old(self)@ }),
            },
    {
        match made {
            Ok(future) => RunStart::Spawn(future),
            Err(exception) => {
                self.complete = true;
                RunStart::Throw(exception)
            },
        }
    }

    /// Keeps the exception, if there is one.
    pub fn try_catch<R, V: Copy>(&mut self, result: Result<R, V>) -> (caught: Result<
        R,
        StoredException<V>,
    >)
        requires
            result is Err ==> old(self)@.next_id < u32::MAX,
        ensures
            match (result, caught) {
                (Ok(value), Ok(returned)) => returned == value && final(self)@ == old(self)@,
                (Err(exception), Err(stored)) => {
                    &&& stored.key == old(self)@.next_key(JsKind::Value)
                    &&& stored.access@ == store_access(old(self)@, exception)
                    &&& final(self)@ == old(self)@.registered()
                },
                _ => false,
            },
    {
        match result {
            Ok(value) => Ok(value),
            Err(exception) => {
                let (key, access) = self.register_context_data(exception, JsKind::Value);
                Err(StoredException { key, access })
            },
        }
    }

    /// Stores `value` for the lifetime of this context.
    ///
    /// This allows values to be passed from one JavaScript call to another. The value is in
    /// place once the returned access has finished.
    pub fn register_context_data<V: Copy>(&mut self, value: V, kind: JsKind) -> (registered: (
        JsAsyncContextKey,
        ContextDataAccess<V>,
    ))
        requires
            old(self)@.next_id < u32::MAX,
        ensures
            registered.0 == old(self)@.next_key(kind),
            registered.1@ == store_access(old(self)@, value),
            final(self)@ == old(self)@.registered(),
    {
        let raw_key: u32 = self.next_global_id;
        self.next_global_id = raw_key + 1;
        let key: JsAsyncContextKey = JsAsyncContextKey {
            context_id: self.opaque_id,
            raw_key,
            kind,
        };
        let access: ContextDataAccess<V> = ContextDataAccess::start(
            self.style,
            self.global_key.clone(),
            DataRequest::Store { raw_key, value },
        );
        (key, access)
    }

    /// Retrieves a value previously stored with
    /// [register_context_data](JsAsyncContext::register_context_data).
    pub fn get_context_data<V: Copy>(&self, key: JsAsyncContextKey) -> (access: ContextDataAccess<
        V,
    >)
        requires
            self@.accepts(key),
        ensures
            access@ == load_access::<C, V>(self@, key),
    {
        ContextDataAccess::start(
            self.style,
            self.global_key.clone(),
            DataRequest::Load { raw_key: key.raw_key, kind: key.kind },
        )
    }
}

/// The access that puts the next value to be registered in its place.
pub open spec fn store_access<C, V>(context: ContextView<C>, value: V) -> AccessView<V> {
    access_start(
        context.style,
        context.global_key,
        DataRequest::Store { raw_key: context.next_id, value },
    )
}

/// The access that finds a registered value again.
pub open spec fn load_access<C, V>(context: ContextView<C>, key: JsAsyncContextKey) -> AccessView<
    V,
> {
    access_start(
        context.style,
        context.global_key,
        DataRequest::Load { raw_key: key.raw_key, kind: key.kind },
    )
}

/// A context is known by the address that it was made with: contexts at different addresses
/// have different numbers, and neither counting a future nor registering a value changes the
/// number of a context, its storage, or which keys it accepts.
pub proof fn context_keeps_its_number<C>(
    style_a: StorageStyle,
    a: usize,
    pool_a: Option<LocalPool>,
    style_b: StorageStyle,
    b: usize,
    pool_b: Option<LocalPool>,
    context: ContextView<C>,
    pending: int,
    key: JsAsyncContextKey,
)
    ensures
        fresh_context::<C>(style_a, a, pool_a).id == fresh_context::<C>(style_b, b, pool_b).id
            <==> a == b,
        context.with_pending(pending).id == context.id,
        context.with_pending(pending).global_key == context.global_key,
        context.with_pending(pending).accepts(key) == context.accepts(key),
        context.registered().id == context.id,
        context.registered().global_key == context.global_key,
        context.registered().accepts(key) == context.accepts(key),
{
}

/// Contexts at different addresses keep their data under different names.
pub proof fn context_global_key_unique(
    style_a: StorageStyle,
    a: usize,
    style_b: StorageStyle,
    b: usize,
)
    requires
        context_global_key(style_a, a) == context_global_key(style_b, b),
    ensures
        style_a == style_b,
        a == b,
{
    let new_prefix = "__signal_neon_futures::JsAsyncContext(0x"@;
    let bridge_prefix = "__libsignal-client::JsAsyncContext::"@;
    reveal_strlit("__signal_neon_futures::JsAsyncContext(0x");
    reveal_strlit("__libsignal-client::JsAsyncContext::");
    reveal_strlit(")");
    let key_a = context_global_key(style_a, a);
    let key_b = context_global_key(style_b, b);
    assert(key_a[2] == key_b[2]);
    assert(style_a == style_b);
    match style_a {
        StorageStyle::PrivateArray => {
            let n = new_prefix.len() as int;
            assert(key_a.subrange(n, key_a.len() - 1) =~= hex(a as nat));
            assert(key_b.subrange(n, key_b.len() - 1) =~= hex(b as nat));
        },
        StorageStyle::PlainObject => {
            let n = bridge_prefix.len() as int;
            assert(key_a.skip(n) =~= hex(a as nat));
            assert(key_b.skip(n) =~= hex(b as nat));
        },
    }
    hex_injective(a as nat, b as nat);
}

/// Noting another number of pending futures changes that number, to exactly the one that is
/// noted, and nothing else.
pub proof fn noting_a_number_changes_the_number_only<C>(context: ContextView<C>, pending: int)
    requires
        i32::MIN <= pending <= i32::MAX,
    ensures
        context.with_pending(pending).pending as int == pending,
        context.with_pending(pending).style == context.style,
        context.with_pending(pending).id == context.id,
        context.with_pending(pending).current == context.current,
        context.with_pending(pending).pool == context.pool,
        context.with_pending(pending).complete == context.complete,
        context.with_pending(pending).global_key == context.global_key,
        context.with_pending(pending).next_id == context.next_id,
{
}

/// Registering a value uses up one index, and changes nothing else. The key says which index
/// that was, in which context, and what type the value has.
pub proof fn registering_uses_up_one_index<C>(context: ContextView<C>, kind: JsKind)
    requires
        context.next_id < u32::MAX,
    ensures
        context.registered().next_id == context.next_id + 1,
        context.registered().style == context.style,
        context.registered().id == context.id,
        context.registered().current == context.current,
        context.registered().pool == context.pool,
        context.registered().pending == context.pending,
        context.registered().complete == context.complete,
        context.registered().global_key == context.global_key,
        context.next_key(kind).context_id == context.id,
        context.next_key(kind).raw_key == context.next_id,
        context.next_key(kind).kind == kind,
        context.registered().next_key(kind).raw_key == context.next_key(kind).raw_key + 1,
{
}

/// A context can be blocked exactly if it has completed or has something pending. It can be
/// asked for its own keys; whether also for those of others is a matter of its storage.
pub proof fn context_blocks_and_accepts<C>(context: ContextView<C>, key: JsAsyncContextKey)
    ensures
        context.can_block() <==> context.complete || context.pending as int > 0,
        key.context_id == context.id ==> context.accepts(key),
        key.context_id != context.id ==> (context.accepts(key) <==> context.style
            == StorageStyle::PlainObject),
{
}

/// A fresh context has the pool and the address that it was made with. Nothing runs in it,
/// nothing is pending, nothing is registered, and it has not completed.
pub proof fn fresh_context_is_empty<C>(
    style: StorageStyle,
    address: usize,
    pool: Option<LocalPool>,
)
    ensures
        fresh_context::<C>(style, address, pool).style == style,
        fresh_context::<C>(style, address, pool).id == address,
        fresh_context::<C>(style, address, pool).current is None,
        fresh_context::<C>(style, address, pool).pool == pool,
        fresh_context::<C>(style, address, pool).pending == 0,
        !fresh_context::<C>(style, address, pool).complete,
        fresh_context::<C>(style, address, pool).next_id == 0,
        fresh_context::<C>(style, address, pool).global_key == context_global_key(style, address),
{
}

/// The address of a context can be read back from the name of its storage: the name is the
/// address in hexadecimal digits, with fixed texts around it.
pub proof fn storage_name_tells_the_address(address: usize)
    ensures
        ({
            let name = context_global_key(StorageStyle::PrivateArray, address);
            let digits = name.subrange(40, name.len() - 1);
            &&& name.len() > 41
            &&& name.take(40) == "__signal_neon_futures::JsAsyncContext(0x"@
            &&& name.skip(name.len() - 1) == ")"@
            &&& hex_value(digits) == address
            &&& digit_value(digits[0]) == 0 ==> digits.len() == 1
        }),
        ({
            let name = context_global_key(StorageStyle::PlainObject, address);
            let digits = name.skip(36);
            &&& name.len() > 36
            &&& name.take(36) == "__libsignal-client::JsAsyncContext::"@
            &&& hex_value(digits) == address
            &&& digit_value(digits[0]) == 0 ==> digits.len() == 1
        }),
{
    reveal_strlit("__signal_neon_futures::JsAsyncContext(0x");
    reveal_strlit(")");
    reveal_strlit("__libsignal-client::JsAsyncContext::");
    let digits = hex(address as nat);
    hex_reads_back(address as nat);
    let name = context_global_key(StorageStyle::PrivateArray, address);
    assert(name.take(40) =~= "__signal_neon_futures::JsAsyncContext(0x"@);
    assert(name.skip(name.len() - 1) =~= ")"@);
    assert(name.subrange(40, name.len() - 1) =~= digits);
    let name = context_global_key(StorageStyle::PlainObject, address);
    assert(name.take(36) =~= "__libsignal-client::JsAsyncContext::"@);
    assert(name.skip(36) =~= digits);
}

/// A value is stored under the index that its key has, and looked for under that index and with
/// that type, both in the storage that the context is named after.
pub proof fn accesses_go_by_the_key<C, V>(
    context: ContextView<C>,
    later: ContextView<C>,
    value: V,
    kind: JsKind,
)
    requires
        later.style == context.style,
        later.global_key == context.global_key,
    ensures
        ({
            let key = context.next_key(kind);
            let store = store_access(context, value);
            let load = load_access::<C, V>(later, key);
            &&& store.request == (DataRequest::Store { raw_key: key.raw_key, value })
            &&& load.request == (DataRequest::<V>::Load { raw_key: key.raw_key, kind })
            &&& store.storage == context.global_key && load.storage == context.global_key
            &&& store.style == context.style && load.style == context.style
            &&& store.stage == AccessStage::Lookup && load.stage == AccessStage::Lookup
            &&& store.script == load.script
            &&& store.script.outputs.len() == 0
        }),
{
}

/// Destroying a context puts `undefined` in the place of its storage. That nothing is in the
/// way of it is taken for granted.
pub proof fn clear_requests<V>(replies: Seq<JsReply<V>>)
    requires
        replies.len() == 3,
        all_values(replies),
    ensures
        ({
            let script = script_start::<V>(clear_steps(), Seq::empty());
            &&& asks(script, replies, 0, Instruction::Undefined, ScriptOutcome::Threw)
            &&& asks(script, replies, 1, Instruction::GlobalObject, ScriptOutcome::Threw)
            &&& asks(
                script,
                replies,
                2,
                Instruction::SetProperty {
                    object: replies[1]->value,
                    key: PropertyKey::ContextData,
                    value: replies[0]->value,
                },
                ScriptOutcome::Panicked("no one else cleared this"),
            )
            &&& finishes(script, replies)
        }),
{
    script_finishes_with_its_replies(clear_steps(), Seq::<V>::empty(), replies);
}

} // verus!
