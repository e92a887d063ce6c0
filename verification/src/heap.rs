//! What becomes of a context's data in an engine whose objects just keep what is put there.
//!
//! Nothing in this module is executed. It says what the accesses of
//! [context_data](crate::context_data) do to such an engine, and shows that a value is found
//! again under its key, whatever else is stored in the meantime.

use vstd::prelude::*;

use crate::context::{clear_steps, load_access, store_access, ContextView};
use crate::context_data::{
    access_start, AccessOutcome, AccessStage, AccessView, DataRequest, JsAsyncContextKey,
    StorageStyle,
};
use crate::script::{
    script_start, Instruction, JsKind, JsReply, PropertyKey, ScriptOutcome, ScriptView,
};

verus! {

/// A JavaScript value. Objects are told apart by a number, and the global object is zero.
pub enum HeapValue {
    Undefined,
    Object(nat),
    Array(nat),
    /// Any other value, by its type.
    Other(JsKind, int),
}

/// The name of a property.
pub enum HeapKey {
    Text(Seq<char>),
    Index(u32),
}

/// What the properties of all objects hold, and how many objects there are.
#[verifier::ext_equal]
pub struct Heap {
    pub slots: Map<(nat, HeapKey), HeapValue>,
    pub objects: nat,
}

/// Values of this type are objects, whatever else they are.
pub open spec fn is_object_kind(kind: JsKind) -> bool {
    match kind {
        JsKind::Object | JsKind::Array | JsKind::Function | JsKind::Error | JsKind::Buffer
        | JsKind::ArrayBuffer => true,
        _ => false,
    }
}

/// The property that a script names, in a context with the given name for its storage.
pub open spec fn heap_key(key: PropertyKey, global_key: Seq<char>) -> HeapKey {
    match key {
        PropertyKey::Name(name) => HeapKey::Text(name@),
        PropertyKey::Index(index) => HeapKey::Index(index),
        PropertyKey::ContextData => HeapKey::Text(global_key),
    }
}

impl HeapValue {
    /// The number of an object.
    pub open spec fn number(self) -> Option<nat> {
        match self {
            HeapValue::Object(number) => Some(number),
            HeapValue::Array(number) => Some(number),
            _ => None,
        }
    }

    pub open spec fn has_kind(self, kind: JsKind) -> bool {
        match kind {
            JsKind::Value => true,
            JsKind::Object => self.number() is Some || (self matches HeapValue::Other(own, _)
                && is_object_kind(own)),
            JsKind::Array => self is Array,
            JsKind::Undefined => self is Undefined,
            _ => self matches HeapValue::Other(own, _) && own == kind,
        }
    }
}

impl Heap {
    /// What a property holds.
    pub open spec fn get(self, number: nat, key: HeapKey) -> HeapValue {
        if self.slots.dom().contains((number, key)) {
            self.slots[(number, key)]
        } else {
            HeapValue::Undefined
        }
    }

    pub open spec fn set(self, number: nat, key: HeapKey, value: HeapValue) -> Heap {
        Heap { slots: self.slots.insert((number, key), value), ..self }
    }

    pub open spec fn with_new_object(self) -> Heap {
        Heap { objects: self.objects + 1, ..self }
    }

    /// No property belongs to an object that does not exist yet.
    pub open spec fn is_sound(self) -> bool {
        &&& self.objects > 0
        &&& forall|number: nat, key: HeapKey|
            #[trigger] self.slots.dom().contains((number, key)) ==> number < self.objects
    }

    /// Performs an instruction. `None` stands for an exception.
    pub open spec fn perform(
        self,
        global_key: Seq<char>,
        instruction: Instruction<HeapValue>,
    ) -> Option<(Heap, HeapValue)> {
        match instruction {
            Instruction::Undefined => Some((self, HeapValue::Undefined)),
            Instruction::GlobalObject => Some((self, HeapValue::Object(0))),
            Instruction::EmptyObject => Some(
                (self.with_new_object(), HeapValue::Object(self.objects)),
            ),
            Instruction::EmptyArray => Some(
                (self.with_new_object(), HeapValue::Array(self.objects)),
            ),
            Instruction::GetProperty { object, key } => match object.number() {
                Some(number) => Some((self, self.get(number, heap_key(key, global_key)))),
                None => None,
            },
            Instruction::SetProperty { object, key, value } => match object.number() {
                Some(number) => Some(
                    (self.set(number, heap_key(key, global_key), value), value),
                ),
                None => None,
            },
            Instruction::Downcast { value, kind } => if value.has_kind(kind) {
                Some((self, value))
            } else {
                None
            },
            _ => None,
        }
    }

    /// The engine's answer to an instruction, and the heap afterwards.
    pub open spec fn answer(
        self,
        global_key: Seq<char>,
        instruction: Instruction<HeapValue>,
    ) -> (Heap, JsReply<HeapValue>) {
        match self.perform(global_key, instruction) {
            Some((heap, value)) => (
                heap,
                JsReply::Value { value, undefined: value is Undefined },
            ),
            None => (self, JsReply::Threw),
        }
    }

    /// Performs up to `fuel` instructions of an access. Gives the heap and the value that
    /// the access finished with, if it did.
    pub open spec fn access(
        self,
        access: AccessView<HeapValue>,
        fuel: nat,
    ) -> Option<(Heap, HeapValue)>
        decreases fuel,
    {
        if fuel == 0 {
            None
        } else {
            let (heap, reply) = self.answer(access.storage, access.script.command());
            match access.resume(reply) {
                AccessOutcome::Running(access) => heap.access(access, (fuel - 1) as nat),
                AccessOutcome::Finished(value) => Some((heap, value)),
                _ => None,
            }
        }
    }

    /// Performs up to `fuel` instructions of an access, until the storage is open or the access
    /// has come to an end. Gives the heap and what the access came to.
    pub open spec fn open_storage(
        self,
        access: AccessView<HeapValue>,
        fuel: nat,
    ) -> (Heap, AccessOutcome<HeapValue>)
        decreases fuel,
    {
        if fuel == 0 || access.stage == AccessStage::Access {
            (self, AccessOutcome::Running(access))
        } else {
            let (heap, reply) = self.answer(access.storage, access.script.command());
            match access.resume(reply) {
                AccessOutcome::Running(access) => heap.open_storage(access, (fuel - 1) as nat),
                outcome => (heap, outcome),
            }
        }
    }

    /// Performs up to `fuel` instructions of a script. Gives the heap that the script
    /// finished with, if it did.
    pub open spec fn execute(
        self,
        global_key: Seq<char>,
        script: ScriptView<HeapValue>,
        fuel: nat,
    ) -> Option<Heap>
        decreases fuel,
    {
        if fuel == 0 {
            None
        } else {
            let (heap, reply) = self.answer(global_key, script.command());
            match script.resume(reply) {
                ScriptOutcome::Running(script) => heap.execute(
                    global_key,
                    script,
                    (fuel - 1) as nat,
                ),
                ScriptOutcome::Finished(outputs) => Some(heap),
                _ => None,
            }
        }
    }

    /// What the global object has in the place of a context's storage.
    pub open spec fn found(self, global_key: Seq<char>) -> HeapValue {
        self.get(0, HeapKey::Text(global_key))
    }

    /// The context has no storage, or one that is its own.
    pub open spec fn storage_is_sound(self, style: StorageStyle, global_key: Seq<char>) -> bool {
        match self.found(global_key) {
            HeapValue::Undefined => true,
            HeapValue::Array(number) => 0 < number < self.objects,
            HeapValue::Object(number) => style == StorageStyle::PlainObject && 0 < number
                < self.objects,
            _ => false,
        }
    }

    /// What a context has stored under an index.
    pub open spec fn stored(self, global_key: Seq<char>, raw_key: u32) -> HeapValue {
        match self.found(global_key).number() {
            Some(number) => self.get(number, HeapKey::Index(raw_key)),
            None => HeapValue::Undefined,
        }
    }

    /// Two contexts have different storages, or at least one has none.
    pub open spec fn storages_differ(self, a: Seq<char>, b: Seq<char>) -> bool {
        self.found(a).number() is Some && self.found(b).number() is Some ==> self.found(
            a,
        ).number() != self.found(b).number()
    }
}

/// More instructions than any access to the storage, or the removal of one, consists of.
pub open spec fn enough() -> nat {
    10
}

/// What an access finds in the place of the storage decides what becomes of the storage.
///
/// If nothing is there, a request to store puts a new, empty storage there and uses it. If a
/// storage is there, it is used as it is, whatever is requested. In every other case the access
/// panics, and the heap stays as it is.
pub proof fn storage_is_opened_or_made(
    heap: Heap,
    style: StorageStyle,
    global_key: Seq<char>,
    request: DataRequest<HeapValue>,
)
    ensures
        ({
            let found = heap.found(global_key);
            let kind = match style {
                StorageStyle::PrivateArray => JsKind::Array,
                StorageStyle::PlainObject => JsKind::Object,
            };
            let made = match style {
                StorageStyle::PrivateArray => HeapValue::Array(heap.objects),
                StorageStyle::PlainObject => HeapValue::Object(heap.objects),
            };
            let (after, outcome) = heap.open_storage(
                access_start(style, global_key, request),
                enough(),
            );
            if found is Undefined && request is Store {
                &&& after == heap.with_new_object().set(0, HeapKey::Text(global_key), made)
                &&& heap.is_sound() ==> forall|key: HeapKey| #[trigger]
                    after.get(heap.objects, key) is Undefined
                &&& outcome matches AccessOutcome::Running(access) && access.stage
                    == AccessStage::Access && access.script.inputs[0] == made
            } else if found.has_kind(kind) {
                &&& after == heap
                &&& outcome matches AccessOutcome::Running(access) && access.stage
                    == AccessStage::Access && access.script.inputs[0] == found
            } else {
                &&& after == heap
                &&& outcome == AccessOutcome::<HeapValue>::Panicked(
                    "context data accessed improperly somehow",
                )
            }
        }),
{
    reveal_with_fuel(Heap::open_storage, 7);
}

/// Storing a value makes it the one under its index, and changes nothing else that any
/// context has stored.
pub proof fn store_in_heap(
    heap: Heap,
    style: StorageStyle,
    global_key: Seq<char>,
    raw_key: u32,
    value: HeapValue,
) -> (after: Heap)
    requires
        heap.is_sound(),
        heap.storage_is_sound(style, global_key),
    ensures
        heap.access(
            access_start(style, global_key, DataRequest::Store { raw_key, value }),
            enough(),
        ) == Some((after, value)),
        after.is_sound(),
        after.storage_is_sound(style, global_key),
        after.found(global_key).number() is Some,
        forall|index: u32| #[trigger]
            after.stored(global_key, index) == if index == raw_key {
                value
            } else {
                heap.stored(global_key, index)
            },
        forall|other: Seq<char>, index: u32|
            other != global_key && heap.storages_differ(global_key, other)
                && heap.storage_is_sound(StorageStyle::PlainObject, other) ==> #[trigger]
            after.stored(other, index) == heap.stored(other, index),
        after.objects >= heap.objects,
        forall|other: Seq<char>|
            other != global_key ==> #[trigger] after.found(other) == heap.found(other),
        forall|other: Seq<char>|
            other != global_key && heap.storages_differ(global_key, other)
                && heap.storage_is_sound(StorageStyle::PlainObject, other)
                ==> #[trigger] after.storages_differ(global_key, other),
{
    let start = access_start(style, global_key, DataRequest::Store { raw_key, value });
    reveal_with_fuel(Heap::access, 8);
    let found = heap.found(global_key);
    let opened = if found is Undefined {
        let storage = match style {
            StorageStyle::PrivateArray => HeapValue::Array(heap.objects),
            StorageStyle::PlainObject => HeapValue::Object(heap.objects),
        };
        heap.with_new_object().set(0, HeapKey::Text(global_key), storage)
    } else {
        heap
    };
    let number = opened.found(global_key).number()->0;
    let after = opened.set(number, HeapKey::Index(raw_key), value);
    assert(heap.access(start, enough()) == Some((after, value)));
    after
}

/// Loading gives what is stored under an index, if it has the type that is asked for.
pub proof fn load_from_heap(
    heap: Heap,
    style: StorageStyle,
    global_key: Seq<char>,
    raw_key: u32,
    kind: JsKind,
)
    requires
        heap.storage_is_sound(style, global_key),
    ensures
        heap.access(
            access_start(style, global_key, DataRequest::Load { raw_key, kind }),
            enough(),
        ) == if heap.found(global_key).number() is Some && heap.stored(
            global_key,
            raw_key,
        ).has_kind(kind) {
            Some((heap, heap.stored(global_key, raw_key)))
        } else {
            None
        },
{
    reveal_with_fuel(Heap::access, 8);
}

/// A registered value is found again under its key.
pub proof fn registered_data_is_found_again<C>(
    heap: Heap,
    context: ContextView<C>,
    value: HeapValue,
    kind: JsKind,
) -> (after: Heap)
    requires
        heap.is_sound(),
        heap.storage_is_sound(context.style, context.global_key),
        value.has_kind(kind),
        context.next_id < u32::MAX,
    ensures
        heap.access(store_access(context, value), enough()) == Some(
            (after, value),
        ),
        context.registered().accepts(context.next_key(kind)),
        after.access(
            load_access(context.registered(), context.next_key(kind)),
            enough(),
        ) == Some((after, value)),
{
    let after = store_in_heap(heap, context.style, context.global_key, context.next_id, value);
    load_from_heap(after, context.style, context.global_key, context.next_id, kind);
    assert(after.stored(context.global_key, context.next_id) == value);
    after
}

/// Registering a value leaves everything in place that the context has registered before.
pub proof fn registering_keeps_earlier_data<C>(
    heap: Heap,
    context: ContextView<C>,
    value: HeapValue,
    key: JsAsyncContextKey,
) -> (after: Heap)
    requires
        heap.is_sound(),
        heap.storage_is_sound(context.style, context.global_key),
        heap.found(context.global_key).number() is Some,
        key.raw_key < context.next_id < u32::MAX,
    ensures
        heap.access(store_access(context, value), enough()) == Some(
            (after, value),
        ),
        match heap.access(load_access(context, key), enough()) {
            Some((_, found)) => after.access(
                load_access(context.registered(), key),
                enough(),
            ) == Some((after, found)),
            None => after.access(
                load_access(context.registered(), key),
                enough(),
            ) is None,
        },
{
    let after = store_in_heap(heap, context.style, context.global_key, context.next_id, value);
    load_from_heap(heap, context.style, context.global_key, key.raw_key, key.kind);
    load_from_heap(after, context.style, context.global_key, key.raw_key, key.kind);
    assert(after.stored(context.global_key, key.raw_key) == heap.stored(
        context.global_key,
        key.raw_key,
    ));
    after
}

/// Registering a value leaves everything in place that another context has registered.
pub proof fn registering_keeps_data_of_others<C, D>(
    heap: Heap,
    context: ContextView<C>,
    value: HeapValue,
    other: ContextView<D>,
    key: JsAsyncContextKey,
) -> (after: Heap)
    requires
        heap.is_sound(),
        heap.storage_is_sound(context.style, context.global_key),
        heap.storage_is_sound(other.style, other.global_key),
        context.global_key != other.global_key,
        heap.storages_differ(context.global_key, other.global_key),
    ensures
        heap.access(store_access(context, value), enough()) == Some(
            (after, value),
        ),
        after.storages_differ(context.global_key, other.global_key),
        match heap.access(load_access(other, key), enough()) {
            Some((_, found)) => after.access(
                load_access(other, key),
                enough(),
            ) == Some((after, found)),
            None => after.access(load_access(other, key), enough()) is None,
        },
{
    let after = store_in_heap(heap, context.style, context.global_key, context.next_id, value);
    assert(heap.storage_is_sound(StorageStyle::PlainObject, other.global_key));
    assert(after.found(other.global_key) == heap.found(other.global_key));
    assert(after.storages_differ(context.global_key, other.global_key));
    assert(after.stored(other.global_key, key.raw_key) == heap.stored(
        other.global_key,
        key.raw_key,
    ));
    load_from_heap(heap, other.style, other.global_key, key.raw_key, key.kind);
    load_from_heap(after, other.style, other.global_key, key.raw_key, key.kind);
    after
}

/// Destroying a context removes its storage, and nobody else's.
pub proof fn destroying_removes_storage(heap: Heap, global_key: Seq<char>) -> (after: Heap)
    ensures
        heap.execute(
            global_key,
            script_start(clear_steps(), Seq::empty()),
            enough(),
        ) == Some(after),
        after.found(global_key) is Undefined,
        forall|raw_key: u32, kind: JsKind, style: StorageStyle| #[trigger]
            after.access(
                access_start(style, global_key, DataRequest::Load { raw_key, kind }),
                enough(),
            ) is None,
        forall|other: Seq<char>| other != global_key ==> #[trigger] after.found(other)
            == heap.found(other),
        forall|number: nat, index: u32| #[trigger]
            after.get(number, HeapKey::Index(index)) == heap.get(number, HeapKey::Index(index)),
{
    reveal_with_fuel(Heap::execute, 5);
    let after = heap.set(0, HeapKey::Text(global_key), HeapValue::Undefined);
    assert forall|raw_key: u32, kind: JsKind, style: StorageStyle| #[trigger]
        after.access(
            access_start(style, global_key, DataRequest::Load { raw_key, kind }),
            enough(),
        ) is None by {
        load_from_heap(after, style, global_key, raw_key, kind);
    }
    after
}

/// The state of a context after `count` values have been registered.
pub open spec fn registered_times<C>(context: ContextView<C>, count: nat) -> ContextView<C>
    decreases count,
{
    if count == 0 {
        context
    } else {
        registered_times(context, (count - 1) as nat).registered()
    }
}

/// Each value gets the next index.
proof fn registered_times_counts<C>(context: ContextView<C>, count: nat)
    requires
        context.next_id + count <= u32::MAX,
    ensures
        registered_times(context, count) == (ContextView {
            next_id: (context.next_id + count) as u32,
            ..context
        }),
    decreases count,
{
    if count > 0 {
        registered_times_counts(context, (count - 1) as nat);
    }
}

/// No two values that are registered with a context get the same key.
pub proof fn keys_are_unique<C>(
    context: ContextView<C>,
    first: nat,
    second: nat,
    first_kind: JsKind,
    second_kind: JsKind,
)
    requires
        first < second,
        context.next_id + second <= u32::MAX,
    ensures
        registered_times(context, first).next_key(first_kind).raw_key != registered_times(
            context,
            second,
        ).next_key(second_kind).raw_key,
{
    registered_times_counts(context, first);
    registered_times_counts(context, second);
}

/// The heap after a context has registered these values, one after the other, if none of
/// the accesses failed.
pub open spec fn register_all<C>(
    heap: Heap,
    context: ContextView<C>,
    values: Seq<HeapValue>,
) -> Option<Heap>
    decreases values.len(),
{
    if values.len() == 0 {
        Some(heap)
    } else {
        match register_all(heap, context, values.drop_last()) {
            Some(earlier) => match earlier.access(
                store_access(
                    registered_times(context, (values.len() - 1) as nat),
                    values.last(),
                ),
                enough(),
            ) {
                Some((after, _)) => Some(after),
                None => None,
            },
            None => None,
        }
    }
}

proof fn registered_values_are_stored<C>(
    heap: Heap,
    context: ContextView<C>,
    values: Seq<HeapValue>,
) -> (after: Heap)
    requires
        heap.is_sound(),
        heap.storage_is_sound(context.style, context.global_key),
        context.next_id + values.len() <= u32::MAX,
    ensures
        register_all(heap, context, values) == Some(after),
        after.is_sound(),
        after.storage_is_sound(context.style, context.global_key),
        values.len() > 0 ==> after.found(context.global_key).number() is Some,
        forall|i: int|
            0 <= i < values.len() ==> after.stored(context.global_key, (context.next_id + i) as u32)
                == #[trigger] values[i],
    decreases values.len(),
{
    if values.len() == 0 {
        heap
    } else {
        let last = values.len() - 1;
        let earlier = registered_values_are_stored(heap, context, values.drop_last());
        registered_times_counts(context, last as nat);
        let raw_key = (context.next_id + last) as u32;
        let after = store_in_heap(
            earlier,
            context.style,
            context.global_key,
            raw_key,
            values.last(),
        );
        assert forall|i: int| 0 <= i < values.len() implies after.stored(
            context.global_key,
            (context.next_id + i) as u32,
        ) == #[trigger] values[i] by {
            if i < last {
                assert(values.drop_last()[i] == values[i]);
            }
        }
        after
    }
}

/// However many values are registered with a context, each of them is found again under its
/// key when all of them are in place.
pub proof fn all_registered_data_is_found_again<C>(
    heap: Heap,
    context: ContextView<C>,
    values: Seq<HeapValue>,
    kinds: Seq<JsKind>,
) -> (after: Heap)
    requires
        heap.is_sound(),
        heap.storage_is_sound(context.style, context.global_key),
        context.next_id + values.len() <= u32::MAX,
        kinds.len() == values.len(),
        forall|i: int| 0 <= i < values.len() ==> (#[trigger] values[i]).has_kind(kinds[i]),
    ensures
        register_all(heap, context, values) == Some(after),
        forall|i: int|
            0 <= i < values.len() ==> after.access(
                load_access(
                    registered_times(context, values.len()),
                    registered_times(context, i as nat).next_key(kinds[i]),
                ),
                enough(),
            ) == Some((after, #[trigger] values[i])),
{
    let after = registered_values_are_stored(heap, context, values);
    registered_times_counts(context, values.len());
    assert forall|i: int| 0 <= i < values.len() implies after.access(
        load_access(
            registered_times(context, values.len()),
            registered_times(context, i as nat).next_key(kinds[i]),
        ),
        enough(),
    ) == Some((after, #[trigger] values[i])) by {
        registered_times_counts(context, i as nat);
        load_from_heap(
            after,
            context.style,
            context.global_key,
            (context.next_id + i) as u32,
            kinds[i],
        );
    }
    after
}

} // verus!
