use signal_neon_futures::bridge::future as bridge_future;
use signal_neon_futures::bridge::module;
use signal_neon_futures::context::JsAsyncContext;
use signal_neon_futures::context::RunStart;
use signal_neon_futures::context_data::{
    AccessProgress, ContextDataAccess, DataRequest, JsAsyncContextKey, StorageStyle,
};
use signal_neon_futures::future::{
    fulfill_arguments, fulfill_if_alive, registration, JsFuture, PollStep,
};
use signal_neon_futures::future_builder::{catch_handler, Caught, JsFutureBuilder, Then};
use signal_neon_futures::promise;
use signal_neon_futures::promise::{
    Delivery, FulfillOutcome, FutureOutcome, PromiseSettlement, SettleAction, SettleEvent,
    SettleStep,
};
use signal_neon_futures::result::{JsFulfilledResult, JsPromiseResultConstructor, JsRejectedResult};
use signal_neon_futures::run::{
    Conclusion, RunAction, RunEvent, RunMode, RunOutcome, RunStage, RunWithContext,
};
use signal_neon_futures::samples;
use signal_neon_futures::samples::{BodyStep, Completion, FulfillStep, TransformStep};
use signal_neon_futures::script::{
    expecting, passing, Arguments, Instruction, JsKind, JsReply, NativeFunction, Operand, Progress,
    PropertyKey, ScriptRun, Settlement,
};
use signal_neon_futures::util::{describe_any, hex_text, PanicPayload, UnwindSafetyRefCell};

type Future = JsFuture<&'static str, &'static str, u8, i32, &'static str>;
type Builder = JsFutureBuilder<&'static str, &'static str, u8, i32, &'static str>;

fn value(value: u32) -> JsReply<u32> {
    JsReply::Value { value, undefined: false }
}

fn running(progress: Progress<u32>) -> ScriptRun<u32> {
    match progress {
        Progress::Running(run) => run,
        Progress::Finished(_) => panic!("finished"),
        Progress::Threw => panic!("threw"),
        Progress::Panicked(message) => panic!("{}", message),
    }
}

/// Answers every instruction with a number, counting from 100.
fn commands(script: ScriptRun<u32>) -> Vec<Instruction<u32>> {
    let mut commands = vec![script.command()];
    let mut script = script;
    let mut answer = 100;
    loop {
        match script.resume(value(answer)) {
            Progress::Running(next) => {
                commands.push(next.command());
                script = next;
            }
            Progress::Finished(answers) => {
                assert_eq!(answers.len(), commands.len());
                assert_eq!(answers[0], 100);
                return commands;
            }
            Progress::Threw => panic!("threw"),
            Progress::Panicked(message) => panic!("{}", message),
        }
        answer += 1;
    }
}

/// What happens if each instruction in turn throws: `None` if the exception is left to the
/// caller, the message if it is a bug.
fn failures(make: impl Fn() -> ScriptRun<u32>) -> Vec<Option<&'static str>> {
    let count = commands(make()).len();
    let mut failures = Vec::new();
    for at in 0..count {
        let mut script = make();
        for _ in 0..at {
            script = running(script.resume(value(7)));
        }
        failures.push(match script.resume(JsReply::Threw) {
            Progress::Threw => None,
            Progress::Panicked(message) => Some(message),
            _ => panic!("went on"),
        });
    }
    failures
}

fn get(object: u32, name: &'static str) -> Instruction<u32> {
    Instruction::GetProperty { object, key: PropertyKey::Name(name) }
}

fn function(value: u32) -> Instruction<u32> {
    Instruction::Downcast { value, kind: JsKind::Function }
}

#[test]
fn panics_are_described_by_their_message() {
    assert_eq!(describe_any(&PanicPayload::Literal("a")), "a");
    assert_eq!(describe_any(&PanicPayload::Formatted(format!("b{}", 1))), "b1");
    assert_eq!(describe_any(&PanicPayload::Opaque), "(break on rust_panic to debug)");
}

#[test]
fn numbers_are_written_in_hexadecimal() {
    for number in [0usize, 9, 10, 15, 16, 255, 256, 0xdead_beef, usize::MAX] {
        assert_eq!(hex_text(number), format!("{:x}", number));
    }
}

#[test]
fn cell_keeps_and_updates_its_value() {
    let mut cell = UnwindSafetyRefCell::new(vec![1]);
    assert_eq!(cell.borrow(), &vec![1]);
    let length = cell.update(|value| {
        value.push(2);
        value.len()
    });
    assert_eq!(length, 2);
    assert_eq!(cell.borrow(), &vec![1, 2]);
}

#[test]
fn cells_have_addresses_of_their_own() {
    let cells = [UnwindSafetyRefCell::new(5u8), UnwindSafetyRefCell::new(5u8)];
    assert_ne!(cells[0].as_address(), 0);
    assert_eq!(cells[0].as_address(), cells[0].as_address());
    assert_eq!(cells[1].as_address(), cells[0].as_address() + 1);
    let aligned: UnwindSafetyRefCell<u64> = UnwindSafetyRefCell::new(1);
    assert_eq!(aligned.as_address() % std::mem::align_of::<u64>(), 0);
}

#[test]
fn results_follow_the_settlement() {
    assert_eq!(JsFulfilledResult::make(1), Ok(1));
    assert_eq!(JsRejectedResult::make(1), Err(1));
}

#[test]
fn script_fills_in_operands() {
    let script = ScriptRun::start(
        vec![
            passing(Instruction::GlobalObject),
            expecting(
                Instruction::SetProperty {
                    object: Operand::Output(0),
                    key: PropertyKey::Index(4),
                    value: Operand::Input(1),
                },
                "sets",
            ),
            passing(Instruction::Construct {
                function: Operand::Input(0),
                arguments: Arguments::One(Operand::Output(1)),
            }),
        ],
        vec![11, 12],
    );
    assert_eq!(
        commands(script),
        vec![
            Instruction::GlobalObject,
            Instruction::SetProperty { object: 100, key: PropertyKey::Index(4), value: 12 },
            Instruction::Construct { function: 11, arguments: Arguments::One(101) },
        ]
    );
}

#[test]
fn script_stops_at_the_first_exception() {
    let start = || {
        ScriptRun::start(
            vec![passing(Instruction::Null), expecting(Instruction::Undefined, "never throws")],
            Vec::<u32>::new(),
        )
    };
    assert_eq!(failures(start), vec![None, Some("never throws")]);
}

fn advance(access: ContextDataAccess<u32>, reply: JsReply<u32>) -> ContextDataAccess<u32> {
    match access.resume(reply) {
        AccessProgress::Running(access) => access,
        _ => panic!("did not go on"),
    }
}

#[test]
fn first_value_makes_the_storage() {
    let mut context: JsAsyncContext<u8> = JsAsyncContext::new(0x7f00);
    let (key, access) = context.register_context_data(55, JsKind::Object);
    assert_eq!(key, JsAsyncContextKey { context_id: 0x7f00, raw_key: 0, kind: JsKind::Object });
    assert_eq!(access.command(), Instruction::GlobalObject);
    let access = advance(access, value(1));
    assert_eq!(
        access.command(),
        Instruction::GetProperty { object: 1, key: PropertyKey::ContextData }
    );
    let access = advance(access, JsReply::Value { value: 2, undefined: true });
    assert_eq!(access.command(), Instruction::EmptyArray);
    let access = advance(access, value(3));
    assert_eq!(access.command(), Instruction::GlobalObject);
    let access = advance(access, value(4));
    assert_eq!(
        access.command(),
        Instruction::SetProperty { object: 4, key: PropertyKey::ContextData, value: 3 }
    );
    let access = advance(access, value(3));
    assert_eq!(
        access.command(),
        Instruction::SetProperty { object: 3, key: PropertyKey::Index(0), value: 55 }
    );
    assert!(matches!(access.resume(value(9)), AccessProgress::Finished(55)));
}

#[test]
fn later_values_use_the_storage_and_new_indices() {
    let mut context: JsAsyncContext<u8> = JsAsyncContext::new(16);
    let (first, _) = context.register_context_data(1u32, JsKind::Value);
    let (second, access) = context.register_context_data(2u32, JsKind::Value);
    assert_eq!((first.raw_key, second.raw_key), (0, 1));
    let access = advance(access, value(1));
    let access = advance(access, value(30));
    assert_eq!(access.command(), Instruction::Downcast { value: 30, kind: JsKind::Array });
    let access = advance(access, value(30));
    assert_eq!(
        access.command(),
        Instruction::SetProperty { object: 30, key: PropertyKey::Index(1), value: 2 }
    );
}

#[test]
fn values_are_loaded_by_their_index_and_type() {
    let context: JsAsyncContext<u8> = JsAsyncContext::new(16);
    let key = JsAsyncContextKey { context_id: 16, raw_key: 8, kind: JsKind::Function };
    let access = context.get_context_data::<u32>(key);
    let access = advance(access, value(1));
    let access = advance(access, value(30));
    assert_eq!(access.command(), Instruction::Downcast { value: 30, kind: JsKind::Array });
    let access = advance(access, value(30));
    assert_eq!(
        access.command(),
        Instruction::GetProperty { object: 30, key: PropertyKey::Index(8) }
    );
    let access = advance(access, value(77));
    assert_eq!(access.command(), function(77));
    assert!(matches!(access.resume(value(77)), AccessProgress::Finished(77)));
}

fn access_failures(style: StorageStyle, request: DataRequest<u32>) -> Vec<Option<&'static str>> {
    let mut failures = Vec::new();
    for at in 0.. {
        let mut access = ContextDataAccess::start(style, "name".to_string(), request);
        for _ in 0..at {
            access = match access.resume(value(3)) {
                AccessProgress::Running(access) => access,
                AccessProgress::Finished(_) => return failures,
                _ => panic!("stopped"),
            };
        }
        failures.push(match access.resume(JsReply::Threw) {
            AccessProgress::Threw => None,
            AccessProgress::Panicked(message) => Some(message),
            _ => panic!("went on"),
        });
    }
    failures
}

#[test]
fn failures_of_the_private_storage_are_bugs() {
    let store = DataRequest::Store { raw_key: 0, value: 1 };
    assert_eq!(
        access_failures(StorageStyle::PrivateArray, store),
        vec![
            None,
            Some("can always get properties on the global object"),
            Some("context data accessed improperly somehow"),
            Some("setting value on private object"),
        ]
    );
    let load = DataRequest::Load { raw_key: 0, kind: JsKind::Object };
    assert_eq!(
        access_failures(StorageStyle::PrivateArray, load),
        vec![
            None,
            Some("can always get properties on the global object"),
            Some("context data accessed improperly somehow"),
            Some("invalid key"),
            Some("type has not changed"),
        ]
    );
}

#[test]
fn failures_of_the_plain_storage_are_exceptions() {
    let store = DataRequest::Store { raw_key: 0, value: 1 };
    assert_eq!(
        access_failures(StorageStyle::PlainObject, store),
        vec![
            None,
            Some("can always get properties on the global object"),
            Some("context data accessed improperly somehow"),
            None,
        ]
    );
    let load = DataRequest::Load { raw_key: 0, kind: JsKind::Object };
    assert_eq!(
        access_failures(StorageStyle::PlainObject, load),
        vec![
            None,
            Some("can always get properties on the global object"),
            Some("context data accessed improperly somehow"),
            None,
            None,
        ]
    );
    let access = ContextDataAccess::start(StorageStyle::PlainObject, "name".to_string(), store);
    let access = advance(access, value(1));
    let access = advance(access, JsReply::Value { value: 2, undefined: true });
    assert_eq!(access.command(), Instruction::EmptyObject);
}

#[test]
fn loading_never_makes_a_storage() {
    let load = DataRequest::Load { raw_key: 0, kind: JsKind::Object };
    let access = ContextDataAccess::start(StorageStyle::PrivateArray, "name".to_string(), load);
    assert_eq!(access.storage(), "name");
    let access = advance(access, value(1));
    let access = advance(access, JsReply::Value { value: 2, undefined: true });
    assert_eq!(access.command(), Instruction::Downcast { value: 2, kind: JsKind::Array });
}

#[test]
fn fresh_context_is_named_after_its_address() {
    let context: JsAsyncContext<u8> = JsAsyncContext::new(0x7ffd_1234);
    assert_eq!(context.global_key(), "__signal_neon_futures::JsAsyncContext(0x7ffd1234)");
    assert_eq!(context.opaque_id(), 0x7ffd_1234);
    assert!(context.pool().is_some());
    assert!(!context.has_current_context());
    assert!(!context.is_complete());
    assert_eq!(context.num_pending_js_futures(), 0);
    let context: JsAsyncContext<u8> = JsAsyncContext::new_for_bridge(0xff);
    assert_eq!(context.global_key(), "__libsignal-client::JsAsyncContext::ff");
}

#[test]
fn context_key_matches_pointer_formatting() {
    let cell = UnwindSafetyRefCell::new(5u64);
    let context: JsAsyncContext<u8> = JsAsyncContext::new(cell.as_address());
    assert_eq!(
        context.global_key(),
        format!("__signal_neon_futures::JsAsyncContext({:p})", &cell)
    );
}

#[test]
fn context_counts_futures() {
    let mut context: JsAsyncContext<u8> = JsAsyncContext::new(1);
    context.register_future();
    context.register_future();
    context.fulfill_future();
    assert_eq!(context.num_pending_js_futures(), 1);
    context.fulfill_future();
    context.fulfill_future();
    assert_eq!(context.num_pending_js_futures(), -1);
}

#[test]
fn exceptions_are_kept_and_results_passed_on() {
    let mut context: JsAsyncContext<u8> = JsAsyncContext::new(3);
    match context.try_catch::<&str, u32>(Ok("fine")) {
        Ok(result) => assert_eq!(result, "fine"),
        Err(_) => panic!("kept"),
    }
    match context.try_catch::<&str, u32>(Err(42)) {
        Ok(_) => panic!("not kept"),
        Err(stored) => {
            assert_eq!(
                stored.key,
                JsAsyncContextKey { context_id: 3, raw_key: 0, kind: JsKind::Value }
            );
            let access = advance(stored.access, value(1));
            let access = advance(access, value(2));
            let access = advance(access, value(2));
            assert_eq!(
                access.command(),
                Instruction::SetProperty { object: 2, key: PropertyKey::Index(0), value: 42 }
            );
        }
    }
}

#[test]
fn destroying_clears_the_storage() {
    let mut context: JsAsyncContext<u8> = JsAsyncContext::new(3);
    let (run, _) = RunWithContext::start(RunMode::Bare);
    let (_, _) = run.step(&mut context, RunEvent::Entered(1));
    assert!(context.has_current_context());
    let destruction = context.destroy();
    assert_eq!(destruction.storage, "__signal_neon_futures::JsAsyncContext(0x3)");
    assert_eq!(
        commands(destruction.script),
        vec![
            Instruction::Undefined,
            Instruction::GlobalObject,
            Instruction::SetProperty { object: 101, key: PropertyKey::ContextData, value: 100 },
        ]
    );
}

#[test]
fn start_spawns_the_future_or_throws() {
    let mut context: JsAsyncContext<u8> = JsAsyncContext::new(3);
    assert!(matches!(context.run::<_, u32>(Ok("future")), RunStart::Spawn("future")));
    assert!(!context.is_complete());
    assert!(matches!(context.run::<&str, u32>(Err(5)), RunStart::Throw(5)));
    assert!(context.is_complete());
}

#[test]
fn guarded_run_enters_after_the_action_and_restores() {
    let mut context: JsAsyncContext<u8> = JsAsyncContext::new(3);
    context.complete();
    let (run, action) = RunWithContext::start(RunMode::Guarded);
    assert!(matches!(action, RunAction::PerformAction));
    let (run, action) = run.step(&mut context, RunEvent::ActionReturned);
    assert!(matches!(action, RunAction::Enter));
    assert!(!context.has_current_context());
    let (run, action) = run.step(&mut context, RunEvent::Entered(8));
    assert_eq!(context.with_context(), &8);
    assert!(context.pool().is_none());
    let RunAction::RunPool(pool) = action else { panic!("no pool") };
    // Another run of the same context, while the pool is being run.
    {
        let (nested, _) = RunWithContext::start(RunMode::Guarded);
        let (nested, _) = nested.step(&mut context, RunEvent::ActionReturned);
        let (nested, action) = nested.step(&mut context, RunEvent::Entered(9));
        assert!(matches!(action, RunAction::TryUnwrap));
        assert_eq!(context.with_context(), &9);
        let (nested, action) = nested.step(&mut context, RunEvent::OtherReferences);
        assert!(matches!(action, RunAction::Conclude));
        assert!(matches!(nested.conclude(RunOutcome::Returned), Conclusion::Return));
        assert_eq!(context.with_context(), &8);
        assert!(context.pool().is_none());
    }
    let (run, action) = run.step(&mut context, RunEvent::PoolStalled(pool));
    assert!(matches!(action, RunAction::TryUnwrap));
    assert!(context.pool().is_some());
    let (run, action) = run.step(&mut context, RunEvent::OtherReferences);
    assert!(matches!(action, RunAction::Conclude));
    assert!(!context.has_current_context());
    assert!(matches!(run.conclude(RunOutcome::Returned), Conclusion::Return));
}

#[test]
fn last_reference_is_destroyed_inside_the_call() {
    let mut context: JsAsyncContext<u8> = JsAsyncContext::new(3);
    context.register_future();
    let (run, _) = RunWithContext::start(RunMode::Guarded);
    let (run, _) = run.step(&mut context, RunEvent::ActionReturned);
    let (run, action) = run.step(&mut context, RunEvent::Entered(8));
    let RunAction::RunPool(pool) = action else { panic!("no pool") };
    let (run, _) = run.step(&mut context, RunEvent::PoolStalled(pool));
    let (_, action) = run.step(&mut context, RunEvent::LastReference);
    assert!(matches!(action, RunAction::Destroy));
    assert_eq!(context.with_context(), &8);
}

#[test]
fn stalling_on_nothing_is_refused() {
    let mut context: JsAsyncContext<u8> = JsAsyncContext::new(3);
    let (run, _) = RunWithContext::start(RunMode::Guarded);
    let (run, _) = run.step(&mut context, RunEvent::ActionReturned);
    let (run, action) = run.step(&mut context, RunEvent::Entered(8));
    let RunAction::RunPool(pool) = action else { panic!("no pool") };
    let (run, action) = run.step(&mut context, RunEvent::PoolStalled(pool));
    assert!(matches!(
        action,
        RunAction::Panic("only supports blocking on JavaScript futures")
    ));
    let (run, action) = run.step(&mut context, RunEvent::Unwound);
    assert!(matches!(action, RunAction::TryUnwrap));
    let (run, _) = run.step(&mut context, RunEvent::OtherReferences);
    assert!(!context.has_current_context());
    let payload = PanicPayload::Literal("only supports blocking on JavaScript futures");
    match run.conclude(RunOutcome::Panicked(payload)) {
        Conclusion::Abort(message) => assert_eq!(
            message,
            "\n!! Panics must be handled during async execution !!\n\
             only supports blocking on JavaScript futures\n"
        ),
        _ => panic!("not aborted"),
    }
}

#[test]
fn context_without_a_call_cannot_be_destroyed() {
    let mut context: JsAsyncContext<u8> = JsAsyncContext::new(3);
    context.complete();
    let (run, _) = RunWithContext::start(RunMode::Guarded);
    let (run, _) = run.step(&mut context, RunEvent::ActionReturned);
    let (run, action) = run.step(&mut context, RunEvent::Entered(8));
    let RunAction::RunPool(pool) = action else { panic!("no pool") };
    let (run, _) = run.step(&mut context, RunEvent::PoolStalled(pool));
    let mut other: JsAsyncContext<u8> = JsAsyncContext::new(4);
    let (_, action) = run.step(&mut other, RunEvent::LastReference);
    assert!(matches!(
        action,
        RunAction::Panic(
            "must not persist JsAsyncContext beyond the lifetime of the future being run"
        )
    ));
}

#[test]
fn guarded_run_aborts_on_exceptions_and_action_panics() {
    let mut context: JsAsyncContext<u8> = JsAsyncContext::new(3);
    let (run, _) = RunWithContext::start(RunMode::Guarded);
    let (run, action) = run.step(&mut context, RunEvent::Unwound);
    assert!(matches!(action, RunAction::Conclude));
    match run.conclude(RunOutcome::Threw("Error: x".to_string())) {
        Conclusion::Abort(message) => assert_eq!(
            message,
            "\n!! Thrown errors must be handled during async execution !!\nError: x\n"
        ),
        _ => panic!("not aborted"),
    }
}

#[test]
fn bare_run_enters_before_the_action_and_lets_panics_through() {
    let mut context: JsAsyncContext<u8> = JsAsyncContext::new_for_bridge(3);
    context.register_future();
    let (run, action) = RunWithContext::start(RunMode::Bare);
    assert!(matches!(action, RunAction::Enter));
    let (run, action) = run.step(&mut context, RunEvent::Entered(5));
    assert!(matches!(action, RunAction::PerformAction));
    assert_eq!(context.with_context(), &5);
    let (run, action) = run.step(&mut context, RunEvent::ActionReturned);
    assert!(matches!(action, RunAction::RunPool(_)));
    let (run, action) = run.step(&mut context, RunEvent::Unwound);
    assert!(matches!(action, RunAction::TryUnwrap));
    assert_eq!(context.with_context(), &5);
    let (run, action) = run.step(&mut context, RunEvent::OtherReferences);
    assert!(matches!(action, RunAction::Conclude));
    assert!(!context.has_current_context());
    assert!(matches!(
        run.conclude(RunOutcome::Panicked(PanicPayload::Opaque)),
        Conclusion::Resume
    ));
}

#[test]
fn bare_run_lets_go_of_its_call_when_the_action_panics() {
    let mut context: JsAsyncContext<u8> = JsAsyncContext::new_for_bridge(3);
    let (run, _) = RunWithContext::start(RunMode::Bare);
    let (run, _) = run.step(&mut context, RunEvent::Entered(5));
    let (run, action) = run.step(&mut context, RunEvent::Unwound);
    assert!(matches!(action, RunAction::TryUnwrap));
    let (_, action) = run.step(&mut context, RunEvent::LastReference);
    assert!(matches!(action, RunAction::Destroy));
    assert_eq!(context.with_context(), &5);
}

#[test]
fn promise_is_told_whom_to_call() {
    let expected = |first: u32, settlement: Settlement, bits: u64| {
        vec![
            Instruction::Function(NativeFunction::FulfillPromise(settlement)),
            get(100 + first, "bind"),
            function(101 + first),
            Instruction::Undefined,
            Instruction::NumberFromBits(bits),
            Instruction::Call {
                function: 102 + first,
                this: 100 + first,
                arguments: Arguments::Two(103 + first, 104 + first),
            },
        ]
    };
    let mut all = expected(0, Settlement::Fulfilled, 0xabc);
    all.extend(expected(6, Settlement::Rejected, 0xabc));
    all.push(get(9, "then"));
    all.push(function(112));
    all.push(Instruction::Call {
        function: 113,
        this: 9,
        arguments: Arguments::Two(105, 111),
    });
    assert_eq!(commands(registration(9, 0xabc)), all);
    assert_eq!(failures(|| registration(9, 0xabc)), vec![None; 15]);
}

#[test]
fn settled_promise_passes_its_value_and_the_address() {
    assert_eq!(
        commands(fulfill_arguments()),
        vec![
            Instruction::Argument { index: 1, kind: JsKind::Value },
            Instruction::Argument { index: 0, kind: JsKind::Number },
        ]
    );
}

#[test]
fn future_is_counted_once_and_keeps_the_last_waker() {
    let mut context: JsAsyncContext<u8> = JsAsyncContext::new(3);
    let mut future: Future = JsFuture::new("context", "transform");
    assert!(future.is_waiting() && !future.is_awaited());
    assert!(matches!(future.poll(Some(&mut context), 1), PollStep::Pending));
    assert!(future.is_awaited());
    assert_eq!(context.num_pending_js_futures(), 1);
    assert!(matches!(future.poll(Some(&mut context), 2), PollStep::Pending));
    assert_eq!(context.num_pending_js_futures(), 1);
    assert_eq!(future.context(), Some(&"context"));
    let fulfillment = future.fulfill::<JsFulfilledResult, _, _>(&mut context, "value");
    assert_eq!(context.num_pending_js_futures(), 0);
    assert_eq!(fulfillment.context, "context");
    assert_eq!(fulfillment.transform, "transform");
    assert_eq!(fulfillment.argument, Ok("value"));
    assert_eq!(fulfillment.waker, Some(2));
    assert!(future.is_consumed());
    assert_eq!(future.complete(Ok(7), fulfillment.waker), Some(2));
    assert!(!future.is_waiting() && !future.is_consumed());
    assert!(matches!(future.poll::<u8>(None, 3), PollStep::Ready(7)));
    assert!(future.is_consumed());
}

#[test]
fn panics_go_on_where_the_future_is_awaited() {
    let mut context: JsAsyncContext<u8> = JsAsyncContext::new(3);
    let mut future: Future = JsFuture::new("context", "transform");
    let fulfillment = future.fulfill::<JsRejectedResult, _, _>(&mut context, "reason");
    assert_eq!(fulfillment.argument, Err("reason"));
    assert_eq!(fulfillment.waker, None);
    // A promise that is settled before anybody asked for its result is not counted.
    assert_eq!(context.num_pending_js_futures(), 0);
    assert_eq!(future.complete(Err("hello"), None), None);
    assert!(matches!(future.poll::<u8>(None, 3), PollStep::Resume("hello")));
}

#[test]
fn futures_that_are_gone_are_not_settled() {
    let mut context: JsAsyncContext<u8> = JsAsyncContext::new(3);
    let mut future: Future = JsFuture::new("context", "transform");
    let gone = fulfill_if_alive::<JsFulfilledResult, &str, &str, u8, i32, &str, u32, u8>(None, 1);
    assert!(gone.is_none());
    let alive =
        fulfill_if_alive::<JsFulfilledResult, _, _, _, _, _, _, _>(
            Some((&mut future, &mut context)),
            1,
        );
    assert_eq!(alive.map(|fulfillment| fulfillment.argument), Some(Ok(1)));
    assert!(future.is_consumed());
    assert_eq!(context.num_pending_js_futures(), 0);
}

#[test]
fn transform_can_be_replaced_while_waiting() {
    let mut context: JsAsyncContext<u8> = JsAsyncContext::new(3);
    let mut future: Future = JsFuture::new("context", "first");
    future.set_transform("second");
    let mut future = future.with_transform("third");
    let fulfillment = future.fulfill::<JsFulfilledResult, _, _>(&mut context, 0);
    assert_eq!(fulfillment.transform, "third");
}

#[test]
fn ready_future_has_its_result() {
    let mut future: Future = JsFuture::ready(4);
    assert!(future.context().is_none());
    assert!(matches!(future.poll::<u8>(None, 0), PollStep::Ready(4)));
}

#[test]
fn builder_gives_the_future_its_transform() {
    let mut context: JsAsyncContext<u8> = JsAsyncContext::new(3);
    let future: Future = JsFuture::new("context", "none yet");
    let awaited = context.await_promise::<_, _, _, _, _, u32>(Ok(future));
    assert!(awaited.store.is_none());
    let build = Builder::then;
    match build(awaited.builder, "handler") {
        Then::Future(mut future) => {
            let fulfillment = future.fulfill::<JsFulfilledResult, _, _>(&mut context, 0);
            assert_eq!(fulfillment.transform, "handler");
            assert_eq!(fulfillment.context, "context");
        }
        Then::CallNow { .. } => panic!("called now"),
    }
}

#[test]
fn builder_treats_exceptions_as_rejections() {
    let mut context: JsAsyncContext<u8> = JsAsyncContext::new(3);
    let awaited = context.await_promise::<&'static str, &'static str, u8, i32, &'static str, u32>(
        Err(66),
    );
    let store = awaited.store.expect("has something to store");
    let store = advance(store, value(1));
    let store = advance(store, value(2));
    let store = advance(store, value(2));
    assert_eq!(
        store.command(),
        Instruction::SetProperty { object: 2, key: PropertyKey::Index(0), value: 66 }
    );
    let build = Builder::then;
    match build(awaited.builder, "handler") {
        Then::Future(_) => panic!("no promise"),
        Then::CallNow { transform, key } => {
            assert_eq!(transform, "handler");
            assert_eq!((key.context_id, key.raw_key), (3, 0));
        }
    }
}

#[test]
fn builder_can_catch_exceptions_of_the_handler() {
    let mut context: JsAsyncContext<u8> = JsAsyncContext::new(3);
    let future: JsFuture<&str, (), u8, Result<i32, JsAsyncContextKey>, &str> =
        JsFuture::new("context", ());
    let awaited = context.await_promise::<_, _, _, _, _, u32>(Ok(future));
    match awaited.builder.then_try("handler") {
        Then::Future(mut future) => {
            let fulfillment = future.fulfill::<JsFulfilledResult, _, _>(&mut context, 0);
            let Caught(handler) = fulfillment.transform;
            assert_eq!(handler, "handler");
        }
        Then::CallNow { .. } => panic!("called now"),
    }
}

#[test]
fn promise_is_made_with_its_callbacks_saved() {
    assert_eq!(
        commands(promise::promise()),
        vec![
            Instruction::EmptyObject,
            Instruction::Function(NativeFunction::SavePromiseCallbacks),
            get(101, "bind"),
            function(102),
            Instruction::Call { function: 103, this: 101, arguments: Arguments::One(100) },
            Instruction::GlobalObject,
            get(105, "Promise"),
            function(106),
            Instruction::Construct { function: 107, arguments: Arguments::One(104) },
        ]
    );
    assert_eq!(
        commands(promise::save_promise_callbacks()),
        vec![
            Instruction::This,
            Instruction::Argument { index: 0, kind: JsKind::Function },
            Instruction::SetProperty {
                object: 100,
                key: PropertyKey::Name("_resolve"),
                value: 101,
            },
            Instruction::Argument { index: 1, kind: JsKind::Function },
            Instruction::SetProperty {
                object: 100,
                key: PropertyKey::Name("_reject"),
                value: 103,
            },
            Instruction::Undefined,
        ]
    );
}

#[test]
fn promise_is_settled_through_the_right_slot() {
    let key = JsAsyncContextKey { context_id: 1, raw_key: 2, kind: JsKind::Value };
    let step: SettleStep<&str, u32> = promise::settle_future(FutureOutcome::Returned("make"));
    assert!(matches!(step, SettleStep::Fulfill("make")));
    let step: SettleStep<&str, u32> = promise::settle_future(FutureOutcome::Failed(key));
    assert!(matches!(step, SettleStep::Load(found) if found == key));
    let payload = PanicPayload::Literal("check for this");
    let step: SettleStep<&str, u32> = promise::settle_future(FutureOutcome::Panicked(payload));
    match step {
        SettleStep::MakeError(message) => {
            assert_eq!(message, "unexpected panic: check for this")
        }
        _ => panic!("no error"),
    }
    let step: SettleStep<&str, u32> = promise::settle_value(FulfillOutcome::Returned(1));
    assert!(matches!(step, SettleStep::Deliver(Delivery { slot: "_resolve", value: 1 })));
    let step: SettleStep<&str, u32> = promise::settle_value(FulfillOutcome::Threw(2));
    assert!(matches!(step, SettleStep::Deliver(Delivery { slot: "_reject", value: 2 })));
    let step: SettleStep<&str, u32> =
        promise::settle_value(FulfillOutcome::Panicked(PanicPayload::Opaque));
    match step {
        SettleStep::MakeError(message) => {
            assert_eq!(message, "unexpected panic: (break on rust_panic to debug)")
        }
        _ => panic!("no error"),
    }
    assert_eq!(
        commands(promise::deliver(5, promise::reject(6))),
        vec![
            get(5, "_reject"),
            function(100),
            Instruction::Call { function: 101, this: 5, arguments: Arguments::One(6) },
        ]
    );
}

#[test]
fn fulfill_function_is_returned_as_it_is() {
    let result: Result<&str, u8> = promise::fulfill_promise("function");
    assert_eq!(result, Ok("function"));
}

#[test]
fn bridge_registration_never_fails() {
    let commands = commands(bridge_future::registration(9, 77));
    assert_eq!(
        commands[6],
        Instruction::Function(NativeFunction::ResolvePromise(Settlement::Rejected))
    );
    assert_eq!(commands[4], Instruction::NumberFromInteger(77));
    assert_eq!(
        commands[14],
        Instruction::Call { function: 113, this: 9, arguments: Arguments::Two(105, 111) }
    );
    let bound = [
        Some("can create function"),
        Some("bind() exists"),
        Some("bind() is a function"),
        None,
        None,
        Some("can call bind()"),
    ];
    let mut expected = bound.to_vec();
    expected.extend(bound);
    expected.extend([
        Some("then() exists"),
        Some("then() is a function"),
        Some("can call then()"),
    ]);
    assert_eq!(failures(|| bridge_future::registration(9, 77)), expected);
}

#[test]
fn bridge_counts_down_after_the_transformation() {
    let mut context: JsAsyncContext<u8> = JsAsyncContext::new_for_bridge(3);
    let mut future: Future = JsFuture::new("context", "transform");
    future.poll(Some(&mut context), 6);
    let fulfillment =
        bridge_future::resolve_promise::<JsFulfilledResult, _, _, _, _, _, _>(&mut future, 5u32);
    assert_eq!(fulfillment.argument, Ok(5));
    assert_eq!(context.num_pending_js_futures(), 1);
    let wake = bridge_future::resolved(&mut future, &mut context, 8, fulfillment.waker);
    assert_eq!(wake, Some(6));
    assert_eq!(context.num_pending_js_futures(), 0);
    assert!(matches!(future.poll::<u8>(None, 3), PollStep::Ready(8)));
}

#[test]
fn bridge_builder_is_open_until_the_first_poll() {
    let mut context: JsAsyncContext<u8> = JsAsyncContext::new_for_bridge(3);
    let future: Future = JsFuture::new("context", "none yet");
    let builder = bridge_future::JsFutureBuilder::await_promise(future);
    assert!(builder.is_open());
    let build = bridge_future::JsFutureBuilder::then;
    let mut future = build(builder, "handler");
    future.poll(Some(&mut context), 6);
    assert!(!bridge_future::JsFutureBuilder::await_promise(future).is_open());
}

#[test]
fn key_bytes_are_copied() {
    let bytes = [5u8, 6, 7];
    assert_eq!(module::key_buffer_length(&bytes), 3);
    let mut buffer = [0u8; 3];
    module::fill_key_buffer(&mut buffer, &bytes);
    assert_eq!(buffer, bytes);
}

#[test]
fn callback_result_is_printed_twice() {
    assert_eq!(module::callback_text("abc"), "abc abc");
    assert_eq!(module::callback_output(Ok(3)), Ok(3));
    assert_eq!(module::callback_output(Err(3)), Err("unexpected JS error"));
    assert_eq!(
        commands(module::print_callback_result()),
        vec![
            Instruction::Argument { index: 0, kind: JsKind::Value },
            Instruction::Argument { index: 1, kind: JsKind::Value },
            Instruction::GlobalObject,
            Instruction::SetProperty {
                object: 102,
                key: PropertyKey::Name("__state"),
                value: 100,
            },
            Instruction::SetProperty {
                object: 102,
                key: PropertyKey::Name("__done"),
                value: 101,
            },
        ]
    );
    assert_eq!(
        commands(module::saved_promise()),
        vec![
            Instruction::GlobalObject,
            get(100, "__state"),
            Instruction::Downcast { value: 101, kind: JsKind::Object },
        ]
    );
    assert_eq!(
        commands(module::call_done(4)),
        vec![
            Instruction::GlobalObject,
            get(100, "__done"),
            function(101),
            Instruction::Null,
            Instruction::Call { function: 102, this: 103, arguments: Arguments::One(4) },
        ]
    );
    assert_eq!(
        failures(|| module::call_done(4)),
        vec![None, Some("bleh"), Some("bleeeh"), None, Some("ok")]
    );
}

#[test]
fn session_store_calls_its_object() {
    let mut context: JsAsyncContext<u8> = JsAsyncContext::new_for_bridge(3);
    let created = module::JsSessionStore::new(&mut context, 50u32, "holder");
    assert_eq!(
        created.store.key,
        JsAsyncContextKey { context_id: 3, raw_key: 0, kind: JsKind::Object }
    );
    assert_eq!(created.store.context, "holder");
    assert_eq!(created.access.command(), Instruction::GlobalObject);
    assert_eq!(
        commands(created.store.perform_a(50)),
        vec![
            get(50, "a"),
            function(100),
            Instruction::Call { function: 101, this: 50, arguments: Arguments::Empty },
            Instruction::Downcast { value: 102, kind: JsKind::Object },
        ]
    );
    assert_eq!(
        failures(|| created.store.perform_a(50)),
        vec![Some("exists"), Some("is function"), Some("success"), Some("is object")]
    );
    for result in [Ok(8), Err(8)] {
        assert_eq!(
            commands(module::operation_text(result)),
            vec![Instruction::Downcast { value: 8, kind: JsKind::String }]
        );
    }
    assert_eq!(module::operation_result(Ok("x".to_string())), "x");
    assert_eq!(module::operation_result(Err("x".to_string())), "error: x");
}

#[test]
fn samples_go_wrong_where_they_say() {
    let message = "check for this";
    assert!(matches!(samples::panic_pre_await().begin::<u8>(), BodyStep::Panic(m) if m == message));
    assert!(matches!(
        samples::throw_pre_await().begin::<u8>(),
        BodyStep::ThrowError(m) if m == message
    ));
    assert!(matches!(samples::panic_post_await().begin::<u8>(), BodyStep::Await));
    assert!(matches!(
        samples::panic_post_await().awaited(Ok(1)),
        BodyStep::Panic(m) if m == message
    ));
    assert!(matches!(
        samples::throw_post_await().awaited(Ok(1)),
        BodyStep::ThrowError(m) if m == message
    ));
    let key = JsAsyncContextKey { context_id: 1, raw_key: 2, kind: JsKind::Value };
    assert!(matches!(
        samples::panic_post_await().awaited::<u8>(Err(key)),
        BodyStep::Fail(found) if found == key
    ));
    assert!(matches!(
        samples::panic_during_callback().transform(Ok(1)),
        TransformStep::Panic(m) if m == message
    ));
    assert!(matches!(
        samples::throw_during_callback().transform(Err(1)),
        TransformStep::ThrowError(m) if m == message
    ));
    assert!(matches!(
        samples::panic_during_fulfill().fulfill(),
        FulfillStep::Panic(m) if m == message
    ));
    assert!(matches!(
        samples::throw_during_fulfill().fulfill(),
        FulfillStep::ThrowError(m) if m == message
    ));
    let increment = samples::increment_promise();
    assert!(matches!(increment.begin::<u8>(), BodyStep::Await));
    assert!(matches!(increment.transform(Ok(1)), TransformStep::ReadNumber(1)));
    assert!(matches!(increment.transform(Err(1)), TransformStep::Throw(1)));
    assert!(matches!(increment.awaited(Ok(4)), BodyStep::Fulfill(4)));
    assert!(matches!(increment.fulfill(), FulfillStep::Make));
}

#[test]
fn increment_async_reports_numbers_and_errors() {
    assert!(matches!(samples::increment_async(Ok(2)), Completion::Increment(2)));
    match samples::increment_async::<u8>(Err("bad".to_string())) {
        Completion::Text(text) => assert_eq!(text, "error: bad"),
        Completion::Increment(_) => panic!("a number"),
    }
    assert_eq!(
        commands(samples::call_completion(1, 2)),
        vec![
            Instruction::Undefined,
            Instruction::Call { function: 1, this: 100, arguments: Arguments::One(2) },
        ]
    );
    assert_eq!(
        failures(|| samples::call_completion(1, 2)),
        vec![None, Some("call succeeds")]
    );
    assert_eq!(failures(|| samples::number(1)), vec![Some("is number")]);
    assert!(matches!(samples::panic_on_resolve(Ok(1)), TransformStep::Panic("hello")));
}

#[test]
fn context_of_the_bridge_must_be_cleaned_up_in_a_call() {
    let mut context: JsAsyncContext<u8> = JsAsyncContext::new_for_bridge(3);
    let run = RunWithContext { mode: RunMode::Bare, stage: RunStage::Leaving { previous: None } };
    let (_, action) = run.step(&mut context, RunEvent::LastReference);
    assert!(matches!(
        action,
        RunAction::Panic(
            "must clean up JsAsyncContext during the fulfillment of the last JS callback invoked"
        )
    ));
}

#[test]
fn nested_run_leaves_the_pool_and_the_call_alone() {
    let mut context: JsAsyncContext<u8> = JsAsyncContext::new(3);
    let (outer, _) = RunWithContext::start(RunMode::Guarded);
    let (outer, _) = outer.step(&mut context, RunEvent::ActionReturned);
    let (outer, action) = outer.step(&mut context, RunEvent::Entered(1));
    let RunAction::RunPool(pool) = action else { panic!("no pool") };

    let (inner, _) = RunWithContext::start(RunMode::Guarded);
    let (inner, _) = inner.step(&mut context, RunEvent::ActionReturned);
    let (inner, action) = inner.step(&mut context, RunEvent::Entered(2));
    assert!(matches!(action, RunAction::TryUnwrap));
    assert_eq!(context.with_context(), &2);
    let (_, action) = inner.step(&mut context, RunEvent::OtherReferences);
    assert!(matches!(action, RunAction::Conclude));
    assert_eq!(context.with_context(), &1);
    assert!(context.pool().is_none());

    context.complete();
    let (outer, _) = outer.step(&mut context, RunEvent::PoolStalled(pool));
    let _ = outer.step(&mut context, RunEvent::OtherReferences);
    assert!(context.pool().is_some());
    assert!(!context.has_current_context());
}

#[test]
fn fresh_context_has_indices_left() {
    let context: JsAsyncContext<u8> = JsAsyncContext::new(3);
    assert!(context.can_register());
}

#[test]
fn settlement_looks_for_the_callbacks_last() {
    let kept = JsAsyncContextKey { context_id: 1, raw_key: 2, kind: JsKind::Object };
    let outcome: FutureOutcome<u8> = FutureOutcome::Returned(9);
    let (settlement, action) = PromiseSettlement::<u32>::start(kept, outcome);
    assert!(matches!(action, SettleAction::Fulfill(9)));
    let panicked = FulfillOutcome::Panicked(PanicPayload::Literal("oh"));
    let (settlement, action) = settlement.step::<u8>(SettleEvent::Made(panicked));
    match action {
        SettleAction::MakeError(message) => assert_eq!(message, "unexpected panic: oh"),
        _ => panic!("no error"),
    }
    let (settlement, action) = settlement.step::<u8>(SettleEvent::Obtained(50));
    match action {
        SettleAction::Load(key) => assert_eq!(key, kept),
        _ => panic!("callbacks not looked for"),
    }
    let (_, action) = settlement.step::<u8>(SettleEvent::Obtained(60));
    let SettleAction::Run(script) = action else { panic!("not delivered") };
    assert_eq!(script.command(), get(60, "_reject"));
}

#[test]
fn handler_that_may_throw_gives_a_value_or_a_key() {
    let mut context: JsAsyncContext<u8> = JsAsyncContext::new(3);
    let returned = catch_handler::<u8, i32, u32>(&mut context, Ok(5));
    assert_eq!(returned.result, Ok(5));
    assert!(returned.store.is_none());
    let threw = catch_handler::<u8, i32, u32>(&mut context, Err(66));
    let key = JsAsyncContextKey { context_id: 3, raw_key: 0, kind: JsKind::Value };
    assert_eq!(threw.result, Err(key));
    let store = advance(threw.store.expect("has something to store"), value(1));
    let store = advance(store, value(2));
    let store = advance(store, value(2));
    assert_eq!(
        store.command(),
        Instruction::SetProperty { object: 2, key: PropertyKey::Index(0), value: 66 }
    );
}

#[test]
fn settling_an_unpolled_future_leaves_the_count_of_others() {
    let mut context: JsAsyncContext<u8> = JsAsyncContext::new(3);
    let mut first: Future = JsFuture::new("context", "first");
    let mut second: Future = JsFuture::new("context", "second");
    assert!(matches!(first.poll(Some(&mut context), 1), PollStep::Pending));
    let fulfillment = second.fulfill::<JsFulfilledResult, _, _>(&mut context, 0);
    assert_eq!(context.num_pending_js_futures(), 1);
    assert_eq!(second.complete(Ok(8), fulfillment.waker), None);
    assert!(matches!(second.poll(Some(&mut context), 1), PollStep::Ready(8)));
    assert_eq!(context.num_pending_js_futures(), 1);
}

#[test]
fn bridge_counts_off_an_unpolled_future_too() {
    let mut context: JsAsyncContext<u8> = JsAsyncContext::new_for_bridge(3);
    context.register_future();
    let mut future: Future = JsFuture::new("context", "transform");
    let fulfillment = bridge_future::resolve_promise::<JsFulfilledResult, _, _, _, _, _, _>(
        &mut future,
        "value",
    );
    let wake = bridge_future::resolved(&mut future, &mut context, 8, fulfillment.waker);
    assert_eq!(wake, None);
    assert_eq!(context.num_pending_js_futures(), 0);
}

#[test]
fn keys_of_other_contexts_are_not_accepted() {
    let context: JsAsyncContext<u8> = JsAsyncContext::new(3);
    let bridge: JsAsyncContext<u8> = JsAsyncContext::new_for_bridge(3);
    let own = JsAsyncContextKey { context_id: 3, raw_key: 0, kind: JsKind::Value };
    let foreign = JsAsyncContextKey { context_id: 4, ..own };
    assert!(context.accepts(own) && !context.accepts(foreign));
    assert!(bridge.accepts(own) && bridge.accepts(foreign));
}

#[test]
fn storage_is_made_only_if_needed_and_missing() {
    let style = StorageStyle::PrivateArray;
    for create_if_needed in [false, true] {
        let script = ContextDataAccess::context_data_object(style, create_if_needed, 9u32, false);
        assert_eq!(
            commands(script),
            vec![Instruction::Downcast { value: 9, kind: JsKind::Array }]
        );
    }
    let missing = ContextDataAccess::context_data_object(style, false, 9u32, true);
    assert_eq!(missing.command(), Instruction::Downcast { value: 9, kind: JsKind::Array });
    assert!(matches!(
        missing.resume(JsReply::Threw),
        Progress::Panicked("context data accessed improperly somehow")
    ));
    let made = ContextDataAccess::context_data_object(style, true, 9u32, true);
    assert_eq!(
        commands(made),
        vec![
            Instruction::EmptyArray,
            Instruction::GlobalObject,
            Instruction::SetProperty { object: 101, key: PropertyKey::ContextData, value: 100 },
        ]
    );
}

#[test]
fn builder_is_closed_once_its_promise_has_called_back() {
    let mut context: JsAsyncContext<u8> = JsAsyncContext::new(3);
    let future: Future = JsFuture::new("context", "none yet");
    let awaited = context.await_promise::<_, _, _, _, _, u32>(Ok(future));
    assert!(awaited.builder.is_open());
    let mut future: Future = JsFuture::new("context", "none yet");
    let fulfillment = future.fulfill::<JsFulfilledResult, _, _>(&mut context, 0);
    future.complete(Err("no transform set yet"), fulfillment.waker);
    let awaited = context.await_promise::<_, _, _, _, _, u32>(Ok(future));
    assert!(!awaited.builder.is_open());
    let failed = context
        .await_promise::<&'static str, &'static str, u8, i32, &'static str, u32>(Err(66));
    assert!(failed.builder.is_open());
}
