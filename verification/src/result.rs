//! How a promise was settled.

use vstd::prelude::*;

use crate::script::Settlement;

verus! {

/// What a promise was settled with: `Ok` if it was fulfilled, `Err` if it was rejected.
pub type JsPromiseResult<V> = Result<V, V>;

/// The result of a promise that was settled with `value` in the given way.
pub open spec fn promise_result<V>(settlement: Settlement, value: V) -> JsPromiseResult<V> {
    match settlement {
        Settlement::Fulfilled => Ok(value),
        Settlement::Rejected => Err(value),
    }
}

/// Turns the value that a promise was settled with into the promise's result.
pub trait JsPromiseResultConstructor {
    /// The way of settling that this constructor is for.
    spec fn settlement() -> Settlement;

    fn make<V>(value: V) -> (result: JsPromiseResult<V>)
        ensures
            result == promise_result(Self::settlement(), value),
    ;
}

/// Makes the results of promises that were fulfilled.
pub struct JsFulfilledResult;

impl JsPromiseResultConstructor for JsFulfilledResult {
    open spec fn settlement() -> Settlement {
        Settlement::Fulfilled
    }

    fn make<V>(value: V) -> (result: JsPromiseResult<V>) {
        Ok(value)
    }
}

/// Makes the results of promises that were rejected.
pub struct JsRejectedResult;

impl JsPromiseResultConstructor for JsRejectedResult {
    open spec fn settlement() -> Settlement {
        Settlement::Rejected
    }

    fn make<V>(value: V) -> (result: JsPromiseResult<V>) {
        Err(value)
    }
}

/// The result of a fulfilled promise is `Ok` of its value, and that of a rejected one is `Err`
/// of it. The two constructors make one of them each.
pub proof fn results_tell_fulfilled_from_rejected<V>(value: V)
    ensures
        promise_result(Settlement::Fulfilled, value) == Ok::<V, V>(value),
        promise_result(Settlement::Rejected, value) == Err::<V, V>(value),
        promise_result(JsFulfilledResult::settlement(), value) == Ok::<V, V>(value),
        promise_result(JsRejectedResult::settlement(), value) == Err::<V, V>(value),
{
}

} // verus!
