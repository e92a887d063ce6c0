//! Runs the library against a small JavaScript engine.

use std::cell::RefCell;
use std::collections::HashMap;
use std::collections::VecDeque;
use std::future::Future;
use std::pin::Pin;
use std::rc::Rc;
use std::task::Poll;
use std::task::Waker;

use futures::task::LocalSpawnExt;

use signal_neon_futures::context::{JsAsyncContext, RunStart};
use signal_neon_futures::context_data::{AccessProgress, ContextDataAccess, JsAsyncContextKey};
use signal_neon_futures::future::{fulfill_arguments, registration, JsFuture, PollStep};
use signal_neon_futures::future_builder::{JsFutureBuilder, Then};
use signal_neon_futures::promise;
use signal_neon_futures::promise::{
    FulfillOutcome, FutureOutcome, NewPromise, PromiseSettlement, SettleAction, SettleEvent,
};
use signal_neon_futures::result::{JsFulfilledResult, JsPromiseResult, JsRejectedResult};
use signal_neon_futures::run::{
    Conclusion, RunAction, RunEvent, RunMode, RunOutcome, RunWithContext,
};
use signal_neon_futures::samples;
use signal_neon_futures::samples::{BodyStep, FulfillStep, Sample, TransformStep};
use signal_neon_futures::script::{
    Arguments, Instruction, JsKind, JsReply, NativeFunction, Progress, PropertyKey, ScriptRun,
    Settlement,
};
use signal_neon_futures::util::PanicPayload;

#[derive(Clone, Copy, Debug, PartialEq)]
enum Js {
    Undefined,
    Null,
    Number(f64),
    Ref(usize),
}

#[derive(Clone, Debug, PartialEq, Eq, Hash)]
enum Key {
    Name(String),
    Index(u32),
}

#[derive(Clone)]
enum Function {
    Native(NativeFunction),
    Bind,
    Bound { target: Js, this: Js, args: Vec<Js> },
    NewPromise,
    Then,
    Settle { promise: usize, settlement: Settlement },
}

#[derive(Clone)]
enum Body {
    Object,
    Array,
    Error(String),
    Function(Function),
    Promise { settled: Option<(Settlement, Js)>, waiting: Vec<(Js, Js)> },
}

struct Object {
    body: Body,
    properties: HashMap<Key, Js>,
}

type Settle = Rc<dyn Fn(&World, &Call, Settlement, Js)>;

#[derive(Default)]
struct Engine {
    objects: Vec<Object>,
    jobs: VecDeque<(Js, Js)>,
    futures: HashMap<u64, Settle>,
    conclusions: Vec<Option<String>>,
    panics: Vec<&'static str>,
}

#[derive(Clone)]
struct World(Rc<RefCell<Engine>>);

struct Frame {
    this: Js,
    args: Vec<Js>,
}

type Call = Rc<Frame>;

#[derive(Debug, PartialEq)]
enum Failure {
    Threw(Js),
    Panicked(&'static str),
}

type Ctx = Rc<RefCell<JsAsyncContext<Call>>>;

type Transform<T> = Box<dyn FnOnce(&World, &Call, JsPromiseResult<Js>) -> Result<T, PanicPayload>>;

type Shared<T> = Rc<RefCell<JsFuture<Ctx, Transform<T>, Waker, T, PanicPayload>>>;

type Fulfill = Box<dyn FnOnce(&World) -> FulfillOutcome<Js>>;

/// A future whose panics are values.
struct Awaited<T>(Shared<T>);

impl<T> Future for Awaited<T> {
    type Output = Result<T, PanicPayload>;

    fn poll(self: Pin<&mut Self>, cx: &mut std::task::Context) -> Poll<Self::Output> {
        let mut future = self.0.borrow_mut();
        assert!(!future.is_consumed(), "already consumed");
        let context: Option<Ctx> = future.context().cloned();
        let waker = cx.waker().clone();
        let step = match context {
            Some(context) => future.poll(Some(&mut *context.borrow_mut()), waker),
            None => future.poll::<Call>(None, waker),
        };
        match step {
            PollStep::Ready(result) => Poll::Ready(Ok(result)),
            PollStep::Resume(payload) => Poll::Ready(Err(payload)),
            PollStep::Pending => Poll::Pending,
        }
    }
}

impl World {
    fn new() -> World {
        let world = World(Rc::new(RefCell::new(Engine::default())));
        let global = world.object(Body::Object);
        assert_eq!(global, Js::Ref(0));
        let constructor = world.object(Body::Function(Function::NewPromise));
        world.set(0, Key::Name("Promise".to_string()), constructor);
        world
    }

    fn object(&self, body: Body) -> Js {
        let mut engine = self.0.borrow_mut();
        engine.objects.push(Object { body, properties: HashMap::new() });
        Js::Ref(engine.objects.len() - 1)
    }

    fn function(&self, function: Function) -> Js {
        self.object(Body::Function(function))
    }

    fn body(&self, value: Js) -> Option<Body> {
        match value {
            Js::Ref(number) => Some(self.0.borrow().objects[number].body.clone()),
            _ => None,
        }
    }

    fn set(&self, number: usize, key: Key, value: Js) {
        self.0.borrow_mut().objects[number].properties.insert(key, value);
    }

    fn get(&self, number: usize, key: &Key) -> Js {
        if let Some(value) = self.0.borrow().objects[number].properties.get(key) {
            return *value;
        }
        match (self.body(Js::Ref(number)), key) {
            (Some(Body::Function(_)), Key::Name(name)) if name == "bind" => {
                self.function(Function::Bind)
            }
            (Some(Body::Promise { .. }), Key::Name(name)) if name == "then" => {
                self.function(Function::Then)
            }
            _ => Js::Undefined,
        }
    }

    fn error(&self, message: &str) -> Js {
        self.object(Body::Error(message.to_string()))
    }

    fn message(&self, value: Js) -> String {
        match self.body(value) {
            Some(Body::Error(message)) => message,
            _ => panic!("not an error: {:?}", value),
        }
    }

    fn pending_promise(&self) -> usize {
        match self.object(Body::Promise { settled: None, waiting: Vec::new() }) {
            Js::Ref(number) => number,
            _ => unreachable!(),
        }
    }

    fn settle(&self, promise: usize, settlement: Settlement, value: Js) {
        let mut engine = self.0.borrow_mut();
        let engine = &mut *engine;
        if let Body::Promise { settled, waiting } = &mut engine.objects[promise].body {
            if settled.is_some() {
                return;
            }
            *settled = Some((settlement, value));
            for (resolve, reject) in waiting.drain(..) {
                let callback = match settlement {
                    Settlement::Fulfilled => resolve,
                    Settlement::Rejected => reject,
                };
                engine.jobs.push_back((callback, value));
            }
        }
    }

    fn settled(&self, promise: Js) -> Option<(Settlement, Js)> {
        match self.body(promise) {
            Some(Body::Promise { settled, .. }) => settled,
            _ => panic!("not a promise"),
        }
    }

    fn run_jobs(&self) {
        loop {
            let job = self.0.borrow_mut().jobs.pop_front();
            match job {
                Some((callback, value)) => {
                    self.call(callback, Js::Undefined, vec![value]).expect("callbacks never throw");
                }
                None => return,
            }
        }
    }

    fn call(&self, function: Js, this: Js, args: Vec<Js>) -> Result<Js, Js> {
        let Some(Body::Function(function)) = self.body(function) else {
            return Err(self.error("not a function"));
        };
        match function {
            Function::Native(native) => self.native(native, Rc::new(Frame { this, args })),
            Function::Bind => Ok(self.function(Function::Bound {
                target: this,
                this: args[0],
                args: args[1..].to_vec(),
            })),
            Function::Bound { target, this, args: bound } => {
                let mut all = bound;
                all.extend(args);
                self.call(target, this, all)
            }
            Function::NewPromise => Err(self.error("not called with new")),
            Function::Then => {
                let Js::Ref(promise) = this else { panic!("not a promise") };
                let settled = self.settled(this);
                let mut engine = self.0.borrow_mut();
                let engine = &mut *engine;
                match (settled, &mut engine.objects[promise].body) {
                    (Some((Settlement::Fulfilled, value)), _) => {
                        engine.jobs.push_back((args[0], value))
                    }
                    (Some((Settlement::Rejected, value)), _) => {
                        engine.jobs.push_back((args[1], value))
                    }
                    (None, Body::Promise { waiting, .. }) => waiting.push((args[0], args[1])),
                    _ => unreachable!(),
                }
                Ok(Js::Undefined)
            }
            Function::Settle { promise, settlement } => {
                self.settle(promise, settlement, args[0]);
                Ok(Js::Undefined)
            }
        }
    }

    fn construct(&self, function: Js, args: Vec<Js>) -> Result<Js, Js> {
        assert!(matches!(self.body(function), Some(Body::Function(Function::NewPromise))));
        let promise = self.pending_promise();
        let resolve =
            self.function(Function::Settle { promise, settlement: Settlement::Fulfilled });
        let reject = self.function(Function::Settle { promise, settlement: Settlement::Rejected });
        self.call(args[0], Js::Undefined, vec![resolve, reject])?;
        Ok(Js::Ref(promise))
    }

    fn has_kind(&self, value: Js, kind: JsKind) -> bool {
        match kind {
            JsKind::Value => true,
            JsKind::Object => self.body(value).is_some(),
            JsKind::Array => matches!(self.body(value), Some(Body::Array)),
            JsKind::Function => matches!(self.body(value), Some(Body::Function(_))),
            JsKind::Number => matches!(value, Js::Number(_)),
            JsKind::Null => value == Js::Null,
            JsKind::Undefined => value == Js::Undefined,
            JsKind::Error => matches!(self.body(value), Some(Body::Error(_))),
            JsKind::String | JsKind::Boolean | JsKind::Buffer | JsKind::ArrayBuffer => false,
        }
    }

    fn checked(&self, value: Js, kind: JsKind) -> Result<Js, Js> {
        if self.has_kind(value, kind) {
            Ok(value)
        } else {
            Err(self.error("wrong type"))
        }
    }

    fn key(&self, key: PropertyKey, storage: &str) -> Key {
        match key {
            PropertyKey::Name(name) => Key::Name(name.to_string()),
            PropertyKey::Index(index) => Key::Index(index),
            PropertyKey::ContextData => Key::Name(storage.to_string()),
        }
    }

    fn perform(&self, call: &Call, storage: &str, command: Instruction<Js>) -> Result<Js, Js> {
        let arguments = |arguments: Arguments<Js>| match arguments {
            Arguments::Empty => vec![],
            Arguments::One(a) => vec![a],
            Arguments::Two(a, b) => vec![a, b],
        };
        match command {
            Instruction::Undefined => Ok(Js::Undefined),
            Instruction::Null => Ok(Js::Null),
            Instruction::GlobalObject => Ok(Js::Ref(0)),
            Instruction::This => Ok(call.this),
            Instruction::EmptyObject => Ok(self.object(Body::Object)),
            Instruction::EmptyArray => Ok(self.object(Body::Array)),
            Instruction::Argument { index, kind } => match call.args.get(index as usize) {
                Some(value) => self.checked(*value, kind),
                None => Err(self.error("not enough arguments")),
            },
            Instruction::NumberFromBits(bits) => Ok(Js::Number(f64::from_bits(bits))),
            Instruction::NumberFromInteger(integer) => Ok(Js::Number(integer as f64)),
            Instruction::Function(native) => Ok(self.function(Function::Native(native))),
            Instruction::GetProperty { object, key } => match object {
                Js::Ref(number) => Ok(self.get(number, &self.key(key, storage))),
                _ => Err(self.error("not an object")),
            },
            Instruction::SetProperty { object, key, value } => match object {
                Js::Ref(number) => {
                    self.set(number, self.key(key, storage), value);
                    Ok(value)
                }
                _ => Err(self.error("not an object")),
            },
            Instruction::Downcast { value, kind } => self.checked(value, kind),
            Instruction::Call { function, this, arguments: args } => {
                self.call(function, this, arguments(args))
            }
            Instruction::Construct { function, arguments: args } => {
                self.construct(function, arguments(args))
            }
        }
    }

    fn script(&self, call: &Call, storage: &str, script: ScriptRun<Js>) -> Result<Vec<Js>, Failure> {
        let mut script = script;
        loop {
            let answer = self.perform(call, storage, script.command());
            let reply = match answer {
                Ok(value) => JsReply::Value { value, undefined: value == Js::Undefined },
                Err(_) => JsReply::Threw,
            };
            script = match script.resume(reply) {
                Progress::Running(script) => script,
                Progress::Finished(values) => return Ok(values),
                Progress::Threw => return Err(Failure::Threw(answer.unwrap_err())),
                Progress::Panicked(message) => return Err(Failure::Panicked(message)),
            };
        }
    }

    fn data(&self, call: &Call, context: &Ctx, access: ContextDataAccess<Js>) -> Result<Js, Failure> {
        assert_eq!(access.storage(), context.borrow().global_key());
        let mut access = access;
        loop {
            let answer = self.perform(call, access.storage(), access.command());
            let reply = match answer {
                Ok(value) => JsReply::Value { value, undefined: value == Js::Undefined },
                Err(_) => JsReply::Threw,
            };
            access = match access.resume(reply) {
                AccessProgress::Running(access) => access,
                AccessProgress::Finished(value) => return Ok(value),
                AccessProgress::Threw => return Err(Failure::Threw(answer.unwrap_err())),
                AccessProgress::Panicked(message) => return Err(Failure::Panicked(message)),
            };
        }
    }

    fn native(&self, native: NativeFunction, call: Call) -> Result<Js, Js> {
        let run = |script: ScriptRun<Js>| match self.script(&call, "", script) {
            Ok(values) => Ok(values),
            Err(Failure::Threw(exception)) => Err(exception),
            Err(Failure::Panicked(message)) => panic!("{}", message),
        };
        match native {
            NativeFunction::SavePromiseCallbacks => {
                let values = run(promise::save_promise_callbacks())?;
                Ok(values[5])
            }
            NativeFunction::FulfillPromise(settlement) => {
                let values = run(fulfill_arguments())?;
                let Js::Number(number) = values[1] else { unreachable!() };
                let settle = self.0.borrow().futures[&number.to_bits()].clone();
                settle(self, &call, settlement, values[0]);
                Ok(Js::Undefined)
            }
            NativeFunction::ResolvePromise(_) => panic!("not used here"),
        }
    }

    fn register(&self, call: &Call, context: &Ctx, value: Js, kind: JsKind) -> JsAsyncContextKey {
        let (key, access) = context.borrow_mut().register_context_data(value, kind);
        assert_eq!(self.data(call, context, access), Ok(value));
        key
    }

    fn load(&self, call: &Call, context: &Ctx, key: JsAsyncContextKey) -> Result<Js, Failure> {
        let access = context.borrow().get_context_data(key);
        self.data(call, context, access)
    }

    fn keep(&self, call: &Call, context: &Ctx, exception: Js) -> JsAsyncContextKey {
        let caught = context.borrow_mut().try_catch::<(), Js>(Err(exception));
        match caught {
            Ok(()) => unreachable!(),
            Err(stored) => {
                self.data(call, context, stored.access).expect("can store");
                stored.key
            }
        }
    }

    fn wait_for<T: 'static>(
        &self,
        call: &Call,
        promise: Js,
        context: Ctx,
        transform: Transform<T>,
    ) -> Result<Awaited<T>, Js> {
        let shared: Shared<T> = Rc::new(RefCell::new(JsFuture::new(context, transform)));
        let weak = Rc::downgrade(&shared);
        let address = (self.0.borrow().futures.len() + 1) as u64 * 8;
        let settle: Settle = Rc::new(move |world, call, settlement, js_result| {
            let Some(shared) = weak.upgrade() else { return };
            let context: Ctx = shared.borrow().context().cloned().expect("already fulfilled");
            let fulfillment = match settlement {
                Settlement::Fulfilled => shared
                    .borrow_mut()
                    .fulfill::<JsFulfilledResult, _, _>(&mut *context.borrow_mut(), js_result),
                Settlement::Rejected => shared
                    .borrow_mut()
                    .fulfill::<JsRejectedResult, _, _>(&mut *context.borrow_mut(), js_result),
            };
            drop(context);
            let transform = fulfillment.transform;
            let argument = fulfillment.argument;
            let waker = fulfillment.waker;
            world.run_with_context(fulfillment.context, call, move |world, call| {
                let result = transform(world, call, argument);
                let wake = shared.borrow_mut().complete(result, waker);
                if let Some(waker) = wake {
                    waker.wake()
                }
            });
        });
        self.0.borrow_mut().futures.insert(address, settle);
        match self.script(call, "", registration(promise, address)) {
            Ok(_) => Ok(Awaited(shared)),
            Err(Failure::Threw(exception)) => Err(exception),
            Err(Failure::Panicked(message)) => panic!("{}", message),
        }
    }

    fn run_with_context(&self, context: Ctx, call: &Call, action: impl FnOnce(&World, &Call)) {
        let (mut run, mut next) = RunWithContext::start(RunMode::Guarded);
        let mut action = Some(action);
        let mut context = Some(context);
        let mut outcome = RunOutcome::Returned;
        loop {
            let event = match next {
                RunAction::PerformAction => {
                    let action = action.take().expect("performed once");
                    action(self, call);
                    RunEvent::ActionReturned
                }
                RunAction::Enter => RunEvent::Entered(call.clone()),
                RunAction::RunPool(mut pool) => {
                    pool.run_until_stalled();
                    RunEvent::PoolStalled(pool)
                }
                RunAction::Panic(message) => {
                    self.0.borrow_mut().panics.push(message);
                    outcome = RunOutcome::Panicked(PanicPayload::Literal(message));
                    RunEvent::Unwound
                }
                RunAction::TryUnwrap => match Rc::try_unwrap(context.take().expect("held")) {
                    Ok(cell) => {
                        let mut last = cell.into_inner();
                        let (finished, action) = run.step(&mut last, RunEvent::LastReference);
                        assert!(matches!(action, RunAction::Destroy));
                        let call = last.with_context().clone();
                        let destruction = last.destroy();
                        self.script(&call, &destruction.storage, destruction.script)
                            .expect("can clear");
                        run = finished;
                        next = RunAction::Conclude;
                        continue;
                    }
                    Err(shared) => {
                        context = Some(shared);
                        RunEvent::OtherReferences
                    }
                },
                RunAction::Destroy => unreachable!(),
                RunAction::Conclude => break,
            };
            let held = context.as_ref().expect("held");
            let (later, action) = run.step(&mut *held.borrow_mut(), event);
            run = later;
            next = action;
        }
        let message = match run.conclude(outcome) {
            Conclusion::Return => None,
            Conclusion::Abort(message) => Some(message),
            Conclusion::Resume => panic!("not guarded"),
        };
        self.0.borrow_mut().conclusions.push(message);
    }

    fn new_context(&self) -> Ctx {
        Rc::new_cyclic(|weak| RefCell::new(JsAsyncContext::new(weak.as_ptr() as usize)))
    }

    fn run<F: Future<Output = ()> + 'static>(
        &self,
        call: &Call,
        make: impl FnOnce(&World, &Call, &Ctx) -> Result<F, Js>,
    ) -> Result<(), Js> {
        let context = self.new_context();
        let spawner = context.borrow().pool().expect("at the top level").spawner();
        let mut error = None;
        let inner = context.clone();
        self.run_with_context(context, call, |world, call| {
            let made = make(world, call, &inner);
            let start = inner.borrow_mut().run(made);
            match start {
                RunStart::Spawn(future) => spawner
                    .spawn_local(async move {
                        future.await;
                        inner.borrow_mut().complete();
                    })
                    .expect("can spawn"),
                RunStart::Throw(exception) => {
                    drop(inner);
                    error = Some(exception)
                }
            }
        });
        match error {
            Some(exception) => Err(exception),
            None => Ok(()),
        }
    }

    fn promise<F: Future<Output = FutureOutcome<Fulfill>> + 'static>(
        &self,
        call: &Call,
        callback: impl FnOnce(&World, &Call, &Ctx) -> Result<F, Js>,
    ) -> Result<Js, Js> {
        let mut result = Js::Undefined;
        let world = self.clone();
        self.run(call, |_, call, context| {
            let future = callback(&world, call, context)?;
            let values = match world.script(call, "", promise::promise()) {
                Ok(values) => values,
                Err(Failure::Threw(exception)) => return Err(exception),
                Err(Failure::Panicked(message)) => panic!("{}", message),
            };
            let NewPromise { promise, key, access } =
                promise::keep_promise(&mut *context.borrow_mut(), values);
            world.data(call, context, access).expect("can store");
            result = promise;
            let world = world.clone();
            let context = context.clone();
            Ok(async move {
                let outcome = future.await;
                world.settle_promise(&context, key, outcome);
            })
        })?;
        Ok(result)
    }

    fn settle_promise(&self, context: &Ctx, key: JsAsyncContextKey, outcome: FutureOutcome<Fulfill>) {
        let call = context.borrow().with_context().clone();
        let (mut settlement, mut action) = PromiseSettlement::start(key, outcome);
        loop {
            let event = match action {
                SettleAction::Fulfill(make) => SettleEvent::Made(make(self)),
                SettleAction::Load(key) => {
                    SettleEvent::Obtained(self.load(&call, context, key).expect("can load"))
                }
                SettleAction::MakeError(message) => SettleEvent::Obtained(self.error(&message)),
                SettleAction::Run(script) => {
                    self.script(&call, "", script).expect("can deliver");
                    return;
                }
            };
            let (later, next) = settlement.step(event);
            settlement = later;
            action = next;
        }
    }

    /// A call from JavaScript with one argument.
    fn frame(&self, argument: Js) -> Call {
        Rc::new(Frame { this: Js::Undefined, args: vec![argument] })
    }

    /// Whether the global object still holds data of any context.
    fn holds_context_data(&self) -> bool {
        self.0.borrow().objects[0].properties.iter().any(|(key, value)| match key {
            Key::Name(name) => name.starts_with("__signal") && *value != Js::Undefined,
            Key::Index(_) => false,
        })
    }

    fn run_sample(&self, sample: Sample, promise: Js) -> Result<Js, Js> {
        let call = self.frame(promise);
        self.promise(&call, move |world, call, context| {
            let kept_in = context.clone();
            let transform: Transform<Result<f64, JsAsyncContextKey>> =
                Box::new(move |world, call, result| {
                    let exception = match sample.transform(result) {
                        TransformStep::Panic(message) => {
                            return Err(PanicPayload::Literal(message))
                        }
                        TransformStep::ThrowError(message) => world.error(message),
                        TransformStep::Throw(exception) => exception,
                        TransformStep::ReadNumber(Js::Number(number)) => return Ok(Ok(number)),
                        TransformStep::ReadNumber(_) => world.error("not a number"),
                    };
                    Ok(Err(world.keep(call, &kept_in, exception)))
                });
            let awaited = world.wait_for(call, promise, context.clone(), transform)?;
            let world = world.clone();
            let context = context.clone();
            Ok(async move {
                let mut awaited = Some(awaited);
                let mut step: BodyStep<f64> = sample.begin();
                loop {
                    step = match step {
                        BodyStep::Await => {
                            match awaited.take().expect("awaited once").await {
                                Ok(result) => sample.awaited(result),
                                Err(payload) => return FutureOutcome::Panicked(payload),
                            }
                        }
                        BodyStep::Panic(message) => {
                            return FutureOutcome::Panicked(PanicPayload::Literal(message))
                        }
                        BodyStep::ThrowError(message) => {
                            let call = context.borrow().with_context().clone();
                            BodyStep::Fail(world.keep(&call, &context, world.error(message)))
                        }
                        BodyStep::Fail(key) => return FutureOutcome::Failed(key),
                        BodyStep::Fulfill(number) => {
                            let fulfill: Fulfill = Box::new(move |world| match sample.fulfill() {
                                FulfillStep::Panic(message) => {
                                    FulfillOutcome::Panicked(PanicPayload::Literal(message))
                                }
                                FulfillStep::ThrowError(message) => {
                                    FulfillOutcome::Threw(world.error(message))
                                }
                                FulfillStep::Make => {
                                    FulfillOutcome::Returned(Js::Number(number + 1.0))
                                }
                            });
                            return FutureOutcome::Returned(fulfill);
                        }
                    }
                }
            })
        })
    }
}

#[test]
fn promise_of_a_number_is_incremented() {
    let world = World::new();
    let input = world.pending_promise();
    let output = world.run_sample(samples::increment_promise(), Js::Ref(input)).expect("a promise");
    world.run_jobs();
    assert_eq!(world.settled(output), None);
    assert!(world.holds_context_data());
    world.settle(input, Settlement::Fulfilled, Js::Number(5.0));
    world.run_jobs();
    assert_eq!(world.settled(output), Some((Settlement::Fulfilled, Js::Number(6.0))));
    // The context is gone, and so is what it kept.
    assert!(!world.holds_context_data());
    assert!(world.0.borrow().conclusions.iter().all(|message| message.is_none()));
}

#[test]
fn promise_that_was_settled_before_is_incremented_too() {
    let world = World::new();
    let input = world.pending_promise();
    world.settle(input, Settlement::Fulfilled, Js::Number(-1.5));
    let output = world.run_sample(samples::increment_promise(), Js::Ref(input)).expect("a promise");
    world.run_jobs();
    assert_eq!(world.settled(output), Some((Settlement::Fulfilled, Js::Number(-0.5))));
}

#[test]
fn rejection_is_passed_on() {
    let world = World::new();
    let input = world.pending_promise();
    let reason = world.error("badness");
    let output = world.run_sample(samples::increment_promise(), Js::Ref(input)).expect("a promise");
    world.settle(input, Settlement::Rejected, reason);
    world.run_jobs();
    assert_eq!(world.settled(output), Some((Settlement::Rejected, reason)));
}

#[test]
fn wrong_type_rejects_the_promise() {
    let world = World::new();
    let input = world.pending_promise();
    let output = world.run_sample(samples::increment_promise(), Js::Ref(input)).expect("a promise");
    world.settle(input, Settlement::Fulfilled, Js::Null);
    world.run_jobs();
    let Some((Settlement::Rejected, reason)) = world.settled(output) else { panic!("fulfilled") };
    assert_eq!(world.message(reason), "not a number");
}

fn assert_rejects(sample: Sample, expected: &str) {
    let world = World::new();
    let input = world.pending_promise();
    let output = world.run_sample(sample, Js::Ref(input)).expect("a promise");
    world.settle(input, Settlement::Fulfilled, Js::Number(5.0));
    world.run_jobs();
    let Some((Settlement::Rejected, reason)) = world.settled(output) else { panic!("fulfilled") };
    assert_eq!(world.message(reason), expected);
    assert!(!world.holds_context_data());
    assert!(world.0.borrow().panics.is_empty());
}

#[test]
fn panic_pre_await_rejects() {
    assert_rejects(samples::panic_pre_await(), "unexpected panic: check for this");
}

#[test]
fn panic_during_callback_rejects() {
    assert_rejects(samples::panic_during_callback(), "unexpected panic: check for this");
}

#[test]
fn panic_post_await_rejects() {
    assert_rejects(samples::panic_post_await(), "unexpected panic: check for this");
}

#[test]
fn panic_during_fulfill_rejects() {
    assert_rejects(samples::panic_during_fulfill(), "unexpected panic: check for this");
}

#[test]
fn throw_pre_await_rejects() {
    assert_rejects(samples::throw_pre_await(), "check for this");
}

#[test]
fn throw_during_callback_rejects() {
    assert_rejects(samples::throw_during_callback(), "check for this");
}

#[test]
fn throw_post_await_rejects() {
    assert_rejects(samples::throw_post_await(), "check for this");
}

#[test]
fn throw_during_fulfill_rejects() {
    assert_rejects(samples::throw_during_fulfill(), "check for this");
}

#[test]
fn rejection_comes_before_later_faults() {
    let samples = [samples::panic_post_await(), samples::throw_during_fulfill()];
    for sample in samples {
        let world = World::new();
        let input = world.pending_promise();
        let reason = world.error("badness");
        let output = world.run_sample(sample, Js::Ref(input)).expect("a promise");
        world.settle(input, Settlement::Rejected, reason);
        world.run_jobs();
        assert_eq!(world.settled(output), Some((Settlement::Rejected, reason)));
    }
}

#[test]
fn exception_in_making_the_future_reaches_the_caller() {
    let world = World::new();
    let call = world.frame(Js::Undefined);
    let exception = world.error("no future");
    let result = world.run(&call, |_, _, _| -> Result<std::future::Ready<()>, Js> {
        Err(exception)
    });
    assert_eq!(result, Err(exception));
    assert_eq!(world.0.borrow().conclusions, vec![None]);
    assert!(world.0.borrow().panics.is_empty());
}

#[test]
fn object_without_then_is_no_promise() {
    let world = World::new();
    let exception = world.run_sample(samples::increment_promise(), Js::Ref(0)).unwrap_err();
    assert_eq!(world.message(exception), "wrong type");
}

#[test]
fn waiting_for_anything_else_aborts() {
    let world = World::new();
    let call = world.frame(Js::Undefined);
    world
        .run(&call, |_, _, _| Ok(std::future::pending::<()>()))
        .expect("makes a future");
    assert_eq!(
        world.0.borrow().panics,
        vec!["only supports blocking on JavaScript futures"]
    );
    assert_eq!(
        world.0.borrow().conclusions,
        vec![Some(
            "\n!! Panics must be handled during async execution !!\n\
             only supports blocking on JavaScript futures\n"
                .to_string()
        )]
    );
}

#[test]
fn data_is_found_again_across_calls() {
    let world = World::new();
    let call = world.frame(Js::Undefined);
    let one = world.new_context();
    let two = world.new_context();
    let values = [Js::Number(1.0), Js::Null, world.object(Body::Object)];
    let mut keys = Vec::new();
    for value in values {
        keys.push(world.register(&call, &one, value, JsKind::Value));
        world.register(&call, &two, Js::Number(100.0), JsKind::Value);
    }
    let later = world.frame(Js::Null);
    for (key, value) in keys.iter().zip(values) {
        assert_eq!(world.load(&later, &one, *key), Ok(value));
    }
    // The other context has values of its own under the same indices.
    let foreign = JsAsyncContextKey { context_id: two.borrow().opaque_id(), ..keys[0] };
    assert_eq!(world.load(&later, &two, foreign), Ok(Js::Number(100.0)));
    // A value of another type than the one that was registered is not accepted.
    let wrong = JsAsyncContextKey { kind: JsKind::Function, ..keys[0] };
    assert_eq!(world.load(&later, &one, wrong), Err(Failure::Panicked("type has not changed")));
}

#[test]
fn data_is_gone_with_its_context() {
    let world = World::new();
    let call = world.frame(Js::Undefined);
    let context = world.new_context();
    let key = world.register(&call, &context, Js::Null, JsKind::Value);
    assert!(world.holds_context_data());
    context.borrow_mut().complete();
    world.run_with_context(context, &call, |_, _| {});
    assert!(!world.holds_context_data());
    let other = world.new_context();
    let key = JsAsyncContextKey { context_id: other.borrow().opaque_id(), ..key };
    assert_eq!(
        world.load(&call, &other, key),
        Err(Failure::Panicked("context data accessed improperly somehow"))
    );
}

#[test]
fn builder_without_a_promise_calls_the_handler_at_once() {
    let world = World::new();
    let call = world.frame(Js::Undefined);
    let context = world.new_context();
    let exception = world.error("no promise");
    let awaited = context
        .borrow_mut()
        .await_promise::<Ctx, Transform<String>, Waker, String, PanicPayload, Js>(Err(exception));
    world.data(&call, &context, awaited.store.expect("kept")).expect("can store");
    let build = JsFutureBuilder::then;
    let handler: Transform<String> = Box::new(|world, _, result| match result {
        Ok(_) => panic!("fulfilled"),
        Err(exception) => Ok(world.message(exception)),
    });
    match build(awaited.builder, handler) {
        Then::Future(_) => panic!("there is no promise"),
        Then::CallNow { transform, key } => {
            let exception = world.load(&call, &context, key).expect("kept");
            let result = transform(&world, &call, Err(exception)).expect("no panic");
            assert_eq!(result, "no promise");
        }
    }
}

#[test]
fn dropped_future_is_not_settled() {
    let world = World::new();
    let call = world.frame(Js::Undefined);
    let context = world.new_context();
    let input = world.pending_promise();
    let transform: Transform<()> = Box::new(|_, _, _| panic!("settled"));
    let awaited = world
        .wait_for(&call, Js::Ref(input), context.clone(), transform)
        .expect("registered");
    drop(awaited);
    world.settle(input, Settlement::Fulfilled, Js::Null);
    world.run_jobs();
    assert_eq!(context.borrow().num_pending_js_futures(), 0);
    assert!(world.0.borrow().conclusions.is_empty());
}

#[test]
fn promise_of_another_future_may_settle_first() {
    let world = World::new();
    let call = world.frame(Js::Undefined);
    let first = world.pending_promise();
    let second = world.pending_promise();
    let seen = Rc::new(RefCell::new(Vec::new()));
    let log = seen.clone();
    world
        .run(&call, |world, call, context| {
            let read = |_: &World, _: &Call, result: JsPromiseResult<Js>| Ok(result);
            let a: Awaited<JsPromiseResult<Js>> =
                world.wait_for(call, Js::Ref(first), context.clone(), Box::new(read))?;
            let b: Awaited<JsPromiseResult<Js>> =
                world.wait_for(call, Js::Ref(second), context.clone(), Box::new(read))?;
            Ok(async move {
                let result = a.await;
                log.borrow_mut().push(result);
                let result = b.await;
                log.borrow_mut().push(result);
            })
        })
        .expect("makes a future");
    world.settle(second, Settlement::Fulfilled, Js::Number(2.0));
    world.run_jobs();
    // The main future is still blocked on the first promise, and nothing complains.
    assert!(seen.borrow().is_empty());
    assert!(world.0.borrow().panics.is_empty());
    world.settle(first, Settlement::Rejected, Js::Number(1.0));
    world.run_jobs();
    assert_eq!(
        *seen.borrow(),
        vec![Ok(Err(Js::Number(1.0))), Ok(Ok(Js::Number(2.0)))]
    );
    assert!(world.0.borrow().panics.is_empty());
    assert!(world.0.borrow().conclusions.iter().all(|message| message.is_none()));
}

#[test]
fn function_is_kept_as_an_object() {
    let world = World::new();
    let call = world.frame(Js::Undefined);
    let context = world.new_context();
    let function = world.function(Function::Bind);
    let key = world.register(&call, &context, function, JsKind::Object);
    assert_eq!(world.load(&call, &context, key), Ok(function));
    let error = world.error("kept");
    let key = world.register(&call, &context, error, JsKind::Error);
    assert_eq!(world.load(&call, &context, key), Ok(error));
    let null = world.register(&call, &context, Js::Null, JsKind::Null);
    assert_eq!(world.load(&call, &context, null), Ok(Js::Null));
}

#[test]
fn promise_of_no_number_is_rejected_before_later_faults() {
    let world = World::new();
    let input = world.pending_promise();
    let output = world.run_sample(samples::throw_post_await(), Js::Ref(input)).expect("a promise");
    world.settle(input, Settlement::Fulfilled, Js::Null);
    world.run_jobs();
    let Some((Settlement::Rejected, reason)) = world.settled(output) else { panic!("fulfilled") };
    assert_eq!(world.message(reason), "not a number");
}
