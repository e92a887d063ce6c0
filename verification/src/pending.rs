//! Why a context knows whether there is anything left to wait for.
//!
//! Nothing in this module is executed. It follows the [futures](crate::future) of one context,
//! and the number that the context keeps of them, from one event to the next.

use futures::executor::LocalPool;
use vstd::prelude::*;

use crate::context::ContextView;
use crate::future::{JsFutureState, PollStep};
use crate::run::{RunEvent, RunWithContext};

verus! {

/// The futures of a context, and how many of them the context counts as pending.
#[verifier::ext_equal]
pub struct Operation<X, F, W, T, E> {
    pub pending: int,
    pub futures: Seq<JsFutureState<X, F, W, T, E>>,
}

/// What happens to the futures of a context.
pub enum FutureEvent<X, F, W, T, E> {
    /// A future is registered with a promise.
    Create { context: X, transform: F },
    /// A task asks for the result of a future.
    Poll { index: int, waker: W },
    /// The promise of a future is settled, and the transformation is applied.
    Settle { index: int, result: Result<T, E> },
    /// A future is dropped.
    Drop { index: int },
}

/// How many futures tasks are waiting for.
pub open spec fn awaited_count<X, F, W, T, E>(futures: Seq<JsFutureState<X, F, W, T, E>>) -> int
    decreases futures.len(),
{
    if futures.len() == 0 {
        0
    } else {
        awaited_count(futures.drop_last()) + awaited(futures.last())
    }
}

/// One for a future that a task is waiting for.
pub open spec fn awaited<X, F, W, T, E>(future: JsFutureState<X, F, W, T, E>) -> int {
    if future.is_awaited() {
        1
    } else {
        0
    }
}

impl<X, F, W, T, E> Operation<X, F, W, T, E> {
    /// The event can happen.
    pub open spec fn allows(self, event: FutureEvent<X, F, W, T, E>) -> bool {
        match event {
            FutureEvent::Create { .. } => true,
            FutureEvent::Poll { index, waker } => 0 <= index < self.futures.len() && !(
            self.futures[index] is Consumed),
            FutureEvent::Settle { index, result } => 0 <= index < self.futures.len()
                && self.futures[index] is Waiting,
            FutureEvent::Drop { index } => 0 <= index < self.futures.len(),
        }
    }

    /// The event is that a future is dropped while a task is waiting for it.
    pub open spec fn drops_awaited(self, event: FutureEvent<X, F, W, T, E>) -> bool {
        event matches FutureEvent::Drop { index } && self.futures[index].is_awaited()
    }

    /// What an event leads to.
    ///
    /// A future is counted from its first poll on, and no longer when its promise is settled.
    /// A future that was never polled was never counted, and settling it changes no count.
    /// Nothing can be had any more of a future that was dropped.
    pub open spec fn after(self, event: FutureEvent<X, F, W, T, E>) -> Self {
        match event {
            FutureEvent::Create { context, transform } => Operation {
                pending: self.pending,
                futures: self.futures.push(JsFutureState::fresh(context, transform)),
            },
            FutureEvent::Poll { index, waker } => Operation {
                pending: if self.futures[index].is_first_poll() {
                    self.pending + 1
                } else {
                    self.pending
                },
                futures: self.futures.update(index, self.futures[index].polled(waker)),
            },
            FutureEvent::Settle { index, result } => Operation {
                pending: self.pending - awaited(self.futures[index]),
                futures: self.futures.update(index, JsFutureState::Complete(result)),
            },
            FutureEvent::Drop { index } => Operation {
                pending: self.pending,
                futures: self.futures.update(index, JsFutureState::Consumed),
            },
        }
    }

    /// Each event can happen once those before it have.
    pub open spec fn allows_all(self, events: Seq<FutureEvent<X, F, W, T, E>>) -> bool
        decreases events.len(),
    {
        events.len() > 0 ==> self.allows_all(events.drop_last()) && self.after_all(
            events.drop_last(),
        ).allows(events.last())
    }

    /// None of the events drops a future while a task is waiting for it.
    pub open spec fn drops_none_awaited(self, events: Seq<FutureEvent<X, F, W, T, E>>) -> bool
        decreases events.len(),
    {
        events.len() > 0 ==> self.drops_none_awaited(events.drop_last()) && !self.after_all(
            events.drop_last(),
        ).drops_awaited(events.last())
    }

    /// What several events, one after the other, lead to.
    pub open spec fn after_all(self, events: Seq<FutureEvent<X, F, W, T, E>>) -> Self
        decreases events.len(),
    {
        if events.len() == 0 {
            self
        } else {
            self.after_all(events.drop_last()).after(events.last())
        }
    }
}

proof fn awaited_count_update<X, F, W, T, E>(
    futures: Seq<JsFutureState<X, F, W, T, E>>,
    index: int,
    future: JsFutureState<X, F, W, T, E>,
)
    requires
        0 <= index < futures.len(),
    ensures
        awaited_count(futures.update(index, future)) == awaited_count(futures) - awaited(
            futures[index],
        ) + awaited(future),
    decreases futures.len(),
{
    let updated = futures.update(index, future);
    if index == futures.len() - 1 {
        assert(updated.drop_last() =~= futures.drop_last());
    } else {
        assert(updated.drop_last() =~= futures.drop_last().update(index, future));
        awaited_count_update(futures.drop_last(), index, future);
    }
}

proof fn awaited_count_positive<X, F, W, T, E>(futures: Seq<JsFutureState<X, F, W, T, E>>)
    ensures
        awaited_count(futures) >= 0,
        awaited_count(futures) > 0 <==> exists|index: int|
            0 <= index < futures.len() && (#[trigger] futures[index]).is_awaited(),
    decreases futures.len(),
{
    if futures.len() > 0 {
        let rest = futures.drop_last();
        awaited_count_positive(rest);
        if awaited_count(rest) > 0 {
            let index = choose|index: int|
                0 <= index < rest.len() && (#[trigger] rest[index]).is_awaited();
            assert(futures[index].is_awaited());
        }
        if futures.last().is_awaited() {
            assert(futures[futures.len() - 1].is_awaited());
        }
        if exists|index: int|
            0 <= index < futures.len() && (#[trigger] futures[index]).is_awaited() {
            let index = choose|index: int|
                0 <= index < futures.len() && (#[trigger] futures[index]).is_awaited();
            if index < rest.len() {
                assert(rest[index].is_awaited());
            }
        }
    }
}

/// A context counts at least the futures that tasks are waiting for. It counts no others, as
/// long as no future is dropped while a task is waiting for it.
pub proof fn pending_counts_awaited_futures<X, F, W, T, E>(
    operation: Operation<X, F, W, T, E>,
    events: Seq<FutureEvent<X, F, W, T, E>>,
)
    requires
        operation.pending == awaited_count(operation.futures),
        operation.allows_all(events),
    ensures
        operation.after_all(events).pending >= awaited_count(
            operation.after_all(events).futures,
        ),
        operation.drops_none_awaited(events) ==> operation.after_all(events).pending
            == awaited_count(operation.after_all(events).futures),
    decreases events.len(),
{
    if events.len() > 0 {
        pending_counts_awaited_futures(operation, events.drop_last());
        let before = operation.after_all(events.drop_last());
        let after = before.after(events.last());
        match events.last() {
            FutureEvent::Create { context, transform } => {
                assert(after.futures.drop_last() =~= before.futures);
            },
            FutureEvent::Poll { index, waker } => {
                awaited_count_update(
                    before.futures,
                    index,
                    before.futures[index].polled(waker),
                );
            },
            FutureEvent::Settle { index, result } => {
                awaited_count_update(
                    before.futures,
                    index,
                    JsFutureState::Complete(result),
                );
            },
            FutureEvent::Drop { index } => {
                awaited_count_update(before.futures, index, JsFutureState::Consumed);
            },
        }
    }
}

/// A context that starts without futures has something pending if a task is waiting for one
/// of its futures, and only then, as long as no future is dropped while a task is waiting for
/// it.
pub proof fn pending_means_awaiting<X, F, W, T, E>(events: Seq<FutureEvent<X, F, W, T, E>>)
    requires
        (Operation { pending: 0, futures: Seq::empty() }).allows_all(events),
    ensures
        ({
            let operation = (Operation { pending: 0, futures: Seq::empty() }).after_all(events);
            let awaiting = exists|index: int|
                0 <= index < operation.futures.len() && (
                #[trigger] operation.futures[index]).is_awaited();
            &&& awaiting ==> operation.pending > 0
            &&& (Operation { pending: 0, futures: Seq::empty() }).drops_none_awaited(events) ==> (
            operation.pending > 0 ==> awaiting)
        }),
{
    let start = Operation { pending: 0, futures: Seq::empty() };
    pending_counts_awaited_futures(start, events);
    awaited_count_positive(start.after_all(events).futures);
}

/// Every `await` that comes down to a future for a promise is supported: as long as a task is
/// waiting for one of a context's futures, a run in which the pool stalls comes to its end
/// without complaint, whatever has happened to the futures before.
pub proof fn awaiting_a_promise_is_supported<X, F, W, T, E, C>(
    events: Seq<FutureEvent<X, F, W, T, E>>,
    index: int,
    run: RunWithContext<C>,
    stalled: ContextView<C>,
    pool: LocalPool,
)
    requires
        (Operation { pending: 0, futures: Seq::empty() }).allows_all(events),
        ({
            let operation = (Operation { pending: 0, futures: Seq::empty() }).after_all(events);
            &&& 0 <= index < operation.futures.len()
            &&& operation.futures[index].is_awaited()
            &&& stalled.pending == operation.pending
        }),
        run.stage is Advancing,
    ensures
        stalled.can_block(),
        run.next(stalled, RunEvent::PoolStalled(pool)).action is TryUnwrap,
        run.next(stalled, RunEvent::PoolStalled(pool)).context.pool == Some(pool),
{
    pending_means_awaiting(events);
}

/// Settling a future takes it from the number that its context keeps exactly if it was
/// counted. A future that nobody has polled was not, and its context stays as it is.
pub proof fn settling_takes_what_was_counted<X, F, W, T, E, C>(
    operation: Operation<X, F, W, T, E>,
    index: int,
    result: Result<T, E>,
    context: ContextView<C>,
)
    requires
        operation.allows(FutureEvent::Settle { index, result }),
        context.pending == operation.pending,
        operation.futures[index].is_awaited() ==> context.pending > i32::MIN,
    ensures
        operation.futures[index].uncounted(context).pending == operation.after(
            FutureEvent::Settle { index, result },
        ).pending,
        operation.futures[index].is_first_poll() ==> operation.futures[index].uncounted(context)
            == context,
{
}

/// The state of a future after polls by these tasks, one after the other.
pub open spec fn polled_by<X, F, W, T, E>(
    future: JsFutureState<X, F, W, T, E>,
    wakers: Seq<W>,
) -> JsFutureState<X, F, W, T, E>
    decreases wakers.len(),
{
    if wakers.len() == 0 {
        future
    } else {
        polled_by(future, wakers.drop_last()).polled(wakers.last())
    }
}

/// However often a future is polled while it waits, its context counts it the first
/// time only, and the last task to ask is the one that will be woken.
pub proof fn polling_counts_once<X, F, W, T, E>(context: X, transform: F, wakers: Seq<W>)
    ensures
        ({
            let future = polled_by(
                JsFutureState::<X, F, W, T, E>::fresh(context, transform),
                wakers,
            );
            &&& future == (JsFutureState::<X, F, W, T, E>::Waiting {
                context,
                transform,
                waker: if wakers.len() == 0 {
                    None
                } else {
                    Some(wakers.last())
                },
            })
            &&& future.poll_step() == PollStep::<T, E>::Pending
            &&& future.is_first_poll() <==> wakers.len() == 0
        }),
    decreases wakers.len(),
{
    if wakers.len() > 0 {
        polling_counts_once::<X, F, W, T, E>(context, transform, wakers.drop_last());
    }
}

/// What the transformation of a settled promise comes to, a result or a panic, is what the
/// next poll comes to; and there is no other result after it.
pub proof fn settled_result_is_polled_once<X, F, W, T, E>(result: Result<T, E>, waker: W)
    ensures
        ({
            let future = JsFutureState::<X, F, W, T, E>::Complete(result);
            &&& future.poll_step() == match result {
                Ok(value) => PollStep::<T, E>::Ready(value),
                Err(panic) => PollStep::<T, E>::Resume(panic),
            }
            &&& future.polled(waker) is Consumed
        }),
{
}

/// The context after `count` futures of it have been polled for the first time.
pub open spec fn context_after_first_polls<C>(context: ContextView<C>, count: nat) -> ContextView<C>
    decreases count,
{
    if count == 0 {
        context
    } else {
        let earlier = context_after_first_polls(context, (count - 1) as nat);
        earlier.with_pending(earlier.pending + 1)
    }
}

/// The context after `count` futures of it that tasks were waiting for have been settled.
pub open spec fn context_after_settlements<C>(context: ContextView<C>, count: nat) -> ContextView<C>
    decreases count,
{
    if count == 0 {
        context
    } else {
        let earlier = context_after_settlements(context, (count - 1) as nat);
        earlier.with_pending(earlier.pending - 1)
    }
}

/// Each first poll raises the number that a context keeps by exactly one, and each settlement
/// of an awaited future lowers it by exactly one, whatever the number was before.
pub proof fn polls_add_up_and_settlements_take_off<C>(
    context: ContextView<C>,
    polled: nat,
    settled: nat,
)
    requires
        context.pending + polled <= i32::MAX,
        context.pending + polled - settled >= i32::MIN,
    ensures
        context_after_first_polls(context, polled).pending as int == context.pending + polled,
        context_after_settlements(
            context_after_first_polls(context, polled),
            settled,
        ).pending as int == context.pending + polled - settled,
    decreases polled + settled,
{
    if settled > 0 {
        polls_add_up_and_settlements_take_off(context, polled, (settled - 1) as nat);
    } else if polled > 0 {
        polls_add_up_and_settlements_take_off(context, (polled - 1) as nat, 0);
    }
}

/// Polling a future adds it to the number that its context keeps exactly if it is the first
/// poll, and changes nothing else about the context.
pub proof fn polling_adds_what_is_counted<X, F, W, T, E, C>(
    operation: Operation<X, F, W, T, E>,
    index: int,
    waker: W,
    context: ContextView<C>,
)
    requires
        operation.allows(FutureEvent::Poll { index, waker }),
        context.pending == operation.pending,
        context.pending < i32::MAX,
    ensures
        ({
            let future = operation.futures[index];
            let polled = if future.is_first_poll() {
                context.with_pending(context.pending + 1)
            } else {
                context
            };
            let first = future matches JsFutureState::Waiting { waker, .. } && waker is None;
            &&& polled.pending == operation.after(FutureEvent::Poll { index, waker }).pending
            &&& polled.pending as int == context.pending + if first {
                1int
            } else {
                0int
            }
            &&& polled == (ContextView { pending: polled.pending, ..context })
        }),
{
}

} // verus!
