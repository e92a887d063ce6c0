//! The executor that a context runs its future on.

use futures::executor::LocalPool;
use vstd::prelude::*;

verus! {

/// Declares `futures::executor::LocalPool`, a single-threaded pool of tasks.
///
/// Nothing is claimed of it: a pool is only ever carried from one place to another here,
/// and is run by whoever performs the actions that this library decides on.
#[verifier::external_type_specification]
#[verifier::external_body]
pub struct ExLocalPool(LocalPool);

/// Wraps `LocalPool::new`, which creates an empty pool of tasks.
///
/// Nothing is claimed of the pool, whose tasks are out of sight here.
#[verifier::external_body]
pub(crate) fn new_pool() -> (pool: LocalPool) {
    LocalPool::new()
}

} // verus!
