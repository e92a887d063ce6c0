//! A convenient way to wait for a promise and to handle its result.

use vstd::prelude::*;

use crate::context::{store_access, ContextView, JsAsyncContext, StoredException};
use crate::context_data::{ContextDataAccess, JsAsyncContextKey};
use crate::future::{JsFuture, JsFutureState, PollStep};
use crate::pending::{polled_by, polling_counts_once};
use crate::result::{promise_result, JsPromiseResult};
use crate::script::{JsKind, Settlement};

verus! {

/// Builds a [JsFuture] in a particular context.
///
/// `P` stands in for the transformation until there is one.
pub struct JsFutureBuilder<X, P, W, T, E> {
    state: Result<JsFuture<X, P, W, T, E>, JsAsyncContextKey>,
}

impl<X, P, W, T, E> View for JsFutureBuilder<X, P, W, T, E> {
    type V = Result<JsFutureState<X, P, W, T, E>, JsAsyncContextKey>;

    closed spec fn view(&self) -> Result<JsFutureState<X, P, W, T, E>, JsAsyncContextKey> {
        match self.state {
            Ok(future) => Ok(future@),
            Err(key) => Err(key),
        }
    }
}

/// A builder, and what is left to do before it is used.
pub struct AwaitedPromise<X, P, W, T, E, V> {
    pub builder: JsFutureBuilder<X, P, W, T, E>,
    /// Stores the exception that was thrown instead of making a promise.
    pub store: Option<ContextDataAccess<V>>,
}

/// What a builder makes of a transformation.
pub enum Then<X, F, W, T, E> {
    /// The future will apply the transformation.
    Future(JsFuture<X, F, W, T, E>),
    /// There is no promise, because of an exception that is kept under this key.
    ///
    /// The transformation is to be applied immediately, to a rejection with the exception,
    /// and the future is [ready](JsFuture::ready) with its result.
    CallNow { transform: F, key: JsAsyncContextKey },
}

/// What a builder makes of a transformation: the builder's future with the transformation
/// in place of its own, or the application of the transformation to the kept exception.
pub open spec fn then_result<X, P, F, W, T, E>(
    builder: Result<JsFutureState<X, P, W, T, E>, JsAsyncContextKey>,
    transform: F,
    then: Then<X, F, W, T, E>,
) -> bool {
    match builder {
        Ok(state) => then matches Then::Future(future) && future@ == (JsFutureState::<
            X,
            F,
            W,
            T,
            E,
        >::Waiting { context: state->context, transform, waker: state->waker }),
        Err(key) => then == (Then::<X, F, W, T, E>::CallNow { transform, key }),
    }
}

/// A transformation that may throw. Its result is [what is caught](catch_handler) of it.
pub struct Caught<F>(pub F);

/// The result of a future whose transformation may throw, and what is left to do before the
/// future is complete.
pub struct CaughtResult<T, V> {
    pub result: Result<T, JsAsyncContextKey>,
    /// Stores the exception that was thrown instead of making a result.
    pub store: Option<ContextDataAccess<V>>,
}

/// What is caught of a transformation that came to `handled` in the given context: the value
/// that it returned, or the key of the exception that it threw.
pub open spec fn caught<C, T, V>(context: ContextView<C>, handled: Result<T, V>) -> Result<
    T,
    JsAsyncContextKey,
> {
    match handled {
        Ok(value) => Ok(value),
        Err(exception) => Err(context.next_key(JsKind::Value)),
    }
}

/// Makes the result of a future out of what its [transformation that may throw](Caught) came
/// to. An exception is [kept](JsAsyncContext::try_catch) in the context.
pub fn catch_handler<C, T, V: Copy>(
    context: &mut JsAsyncContext<C>,
    handled: Result<T, V>,
) -> (finished: CaughtResult<T, V>)
    requires
        handled is Err ==> old(context)@.next_id < u32::MAX,
    ensures
        finished.result == caught(old(context)@, handled),
        match handled {
            Ok(value) => finished.store is None && final(context)@ == old(context)@,
            Err(exception) => {
                &&& finished.store matches Some(access) && access@ == store_access(
                    old(context)@,
                    exception,
                )
                &&& final(context)@ == old(context)@.registered()
            },
        },
{
    match context.try_catch(handled) {
        Ok(value) => CaughtResult { result: Ok(value), store: None },
        Err(StoredException { key, access }) => CaughtResult {
            result: Err(key),
            store: Some(access),
        },
    }
}

impl<C> JsAsyncContext<C> {
    /// Prepares to wait on a promise, given what came of making it and registering a future
    /// for it.
    ///
    /// A failure will be treated as a rejection of the promise.
    pub fn await_promise<X, P, W, T, E, V: Copy>(
        &mut self,
        made: Result<JsFuture<X, P, W, T, E>, V>,
    ) -> (awaited: AwaitedPromise<X, P, W, T, E, V>)
        requires
            made is Err ==> old(self)@.next_id < u32::MAX,
        ensures
            match made {
                Ok(future) => {
                    &&& awaited.builder@ == Ok::<_, JsAsyncContextKey>(future@)
                    &&& awaited.store is None
                    &&& final(self)@ == old(self)@
                },
                Err(exception) => {
                    &&& awaited.builder@ == Err::<JsFutureState<X, P, W, T, E>, _>(
                        old(self)@.next_key(JsKind::Value),
                    )
                    &&& awaited.store matches Some(access) && access@ == store_access(
                        old(self)@,
                        exception,
                    )
                    &&& final(self)@ == old(self)@.registered()
                },
            },
    {
        match self.try_catch(made) {
            Ok(future) => AwaitedPromise {
                builder: JsFutureBuilder { state: Ok(future) },
                store: None,
            },
            Err(StoredException { key, access }) => AwaitedPromise {
                builder: JsFutureBuilder { state: Err(key) },
                store: Some(access),
            },
        }
    }
}

impl<X, P, W, T, E> JsFutureBuilder<X, P, W, T, E> {
    fn transformed_by<F>(self, transform: F) -> (then: Then<X, F, W, T, E>)
        requires
            self@ matches Ok(state) ==> state is Waiting,
        ensures
            then_result(self@, transform, then),
    {
        match self.state {
            Ok(future) => Then::Future(future.with_transform(transform)),
            Err(key) => Then::CallNow { transform, key },
        }
    }

    /// Whether the builder can be given a result handler. It cannot when its promise has
    /// called back already, while it was being asked to.
    pub fn is_open(&self) -> (open: bool)
        ensures
            open == (self@ matches Ok(state) ==> state is Waiting),
    {
        match &self.state {
            Ok(future) => future.is_waiting(),
            Err(_) => true,
        }
    }

    /// Produces a future using the given result handler.
    ///
    /// Note that if there was an exception during the creation of this builder, the
    /// transformation is to be applied **immediately**.
    pub fn then<F>(self, transform: F) -> (then: Then<X, F, W, T, E>)
        requires
            self@ matches Ok(state) ==> state is Waiting,
        ensures
            then_result(self@, transform, then),
    {
        self.transformed_by(transform)
    }
}

impl<X, P, W, T, E> JsFutureBuilder<X, P, W, Result<T, JsAsyncContextKey>, E> {
    /// Produces a future that keeps the exceptions of the result handler in the context.
    ///
    /// Note that this does *not* automatically treat incoming rejections as failures.
    pub fn then_try<G>(self, transform: G) -> (then: Then<
        X,
        Caught<G>,
        W,
        Result<T, JsAsyncContextKey>,
        E,
    >)
        requires
            self@ matches Ok(state) ==> state is Waiting,
        ensures
            then_result(self@, Caught(transform), then),
    {
        self.transformed_by(Caught(transform))
    }
}

/// A future that was built from an unsettled promise yields what its handler makes of the
/// promise's result, however often it was polled before.
///
/// Building the future does not call the handler. When the promise is settled, the handler,
/// and not what stood in for it, is to be applied to the promise's result. That happens once:
/// the future is never waiting again. `handle` is what applying a handler comes to, a result
/// or a panic.
pub proof fn built_future_yields_what_its_handler_makes<X, P, F, W, T, E, V>(
    context: X,
    placeholder: P,
    handler: F,
    then: Then<X, F, W, T, E>,
    wakers: Seq<W>,
    settlement: Settlement,
    value: V,
    handle: spec_fn(F, JsPromiseResult<V>) -> Result<T, E>,
    waker: W,
)
    requires
        then_result(Ok(JsFutureState::<X, P, W, T, E>::fresh(context, placeholder)), handler, then),
    ensures
        then is Future,
        ({
            let waiting = polled_by(then->Future_0@, wakers);
            let fulfillment = waiting.fulfillment(settlement, value);
            let complete = JsFutureState::<X, F, W, T, E>::Complete(
                handle(fulfillment.transform, fulfillment.argument),
            );
            &&& waiting is Waiting
            &&& waiting.poll_step() == PollStep::<T, E>::Pending
            &&& fulfillment.context == context
            &&& fulfillment.transform == handler
            &&& fulfillment.argument == promise_result(settlement, value)
            &&& complete.poll_step() == match handle(handler, promise_result(settlement, value)) {
                Ok(result) => PollStep::<T, E>::Ready(result),
                Err(panic) => PollStep::<T, E>::Resume(panic),
            }
            &&& !(complete is Waiting)
            &&& complete.polled(waker) is Consumed
        }),
{
    polling_counts_once::<X, F, W, T, E>(context, handler, wakers);
}

/// If making the promise threw, the handler is to be applied immediately, to a rejection with
/// the exception that was kept, and the future yields what it makes of that at its first poll.
pub proof fn failed_promise_is_handled_at_once<X, P, F, W, T, E, V>(
    key: JsAsyncContextKey,
    handler: F,
    then: Then<X, F, W, T, E>,
    kept: spec_fn(JsAsyncContextKey) -> V,
    handle: spec_fn(F, JsPromiseResult<V>) -> T,
)
    requires
        then_result(Err::<JsFutureState<X, P, W, T, E>, _>(key), handler, then),
    ensures
        then is CallNow,
        ({
            let result = handle(then->transform, Err(kept(then->key)));
            &&& result == handle(handler, Err(kept(key)))
            &&& JsFutureState::<X, F, W, T, E>::Complete(Ok(result)).poll_step() == PollStep::<
                T,
                E,
            >::Ready(result)
        }),
{
}

/// A future that was built with a handler that may throw yields what is caught of the handler:
/// the value that it returned, or the key of the exception that it threw.
///
/// `handle` is what applying a handler comes to, and `settled` is the context that it is
/// applied in.
pub proof fn caught_handler_gives_value_or_key<X, P, G, W, T, E, V, C>(
    context: X,
    placeholder: P,
    handler: G,
    then: Then<X, Caught<G>, W, Result<T, JsAsyncContextKey>, E>,
    wakers: Seq<W>,
    settlement: Settlement,
    value: V,
    handle: spec_fn(G, JsPromiseResult<V>) -> Result<T, V>,
    settled: ContextView<C>,
)
    requires
        then_result(
            Ok(
                JsFutureState::<X, P, W, Result<T, JsAsyncContextKey>, E>::fresh(
                    context,
                    placeholder,
                ),
            ),
            Caught(handler),
            then,
        ),
    ensures
        then is Future,
        ({
            let fulfillment = polled_by(then->Future_0@, wakers).fulfillment(settlement, value);
            let handled = handle(fulfillment.transform.0, fulfillment.argument);
            let complete = JsFutureState::<
                X,
                Caught<G>,
                W,
                Result<T, JsAsyncContextKey>,
                E,
            >::Complete(Ok(caught(settled, handled)));
            complete.poll_step() == PollStep::<Result<T, JsAsyncContextKey>, E>::Ready(
                match handle(handler, promise_result(settlement, value)) {
                    Ok(value) => Ok(value),
                    Err(exception) => Err(settled.next_key(JsKind::Value)),
                },
            )
        }),
{
    polling_counts_once::<X, Caught<G>, W, Result<T, JsAsyncContextKey>, E>(
        context,
        Caught(handler),
        wakers,
    );
}

/// A builder whose promise is still waited for passes on everything but what stood in for the
/// transformation: the context, and the task that is to be woken.
pub proof fn builder_passes_on_what_it_has<X, P, F, W, T, E>(
    context: X,
    placeholder: P,
    waker: Option<W>,
    transform: F,
    then: Then<X, F, W, T, E>,
)
    requires
        then_result(
            Ok(JsFutureState::<X, P, W, T, E>::Waiting { context, transform: placeholder, waker }),
            transform,
            then,
        ),
    ensures
        then matches Then::Future(future) && future@ == (JsFutureState::<X, F, W, T, E>::Waiting {
            context,
            transform,
            waker,
        }),
{
}

/// A builder without a promise gives the transformation back, to be applied to the exception
/// that is kept under the builder's key.
pub proof fn builder_without_promise_gives_the_key<X, P, F, W, T, E>(
    key: JsAsyncContextKey,
    transform: F,
    then: Then<X, F, W, T, E>,
)
    requires
        then_result(Err::<JsFutureState<X, P, W, T, E>, _>(key), transform, then),
    ensures
        then == (Then::<X, F, W, T, E>::CallNow { transform, key }),
{
}

/// What is caught of a handler is the value that it returned, untouched, or the key under which
/// its exception is about to be kept.
pub proof fn caught_is_the_value_or_the_key<C, T, V>(
    context: ContextView<C>,
    value: T,
    exception: V,
)
    ensures
        caught::<C, T, V>(context, Ok(value)) == Ok::<T, JsAsyncContextKey>(value),
        caught::<C, T, V>(context, Err(exception)) == Err::<T, JsAsyncContextKey>(
            JsAsyncContextKey {
                context_id: context.id,
                raw_key: context.next_id,
                kind: JsKind::Value,
            },
        ),
{
}

} // verus!
