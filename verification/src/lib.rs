//! Allows `async` blocks to be used to wait on JavaScript promises.
//!
//! A native module exposes *synchronous* functions to JavaScript. If such a function wants to
//! wait for the result of a promise, it can at best return, and go on when the promise calls
//! back. This library decides how (1) a promise is wrapped so that a Rust future can wait for
//! it, and (2) the result of a Rust future is handed to JavaScript as a promise. It does so by
//! synchronously resuming the future whenever a promise it waits for is settled.
//!
//! - Values do not outlive the JavaScript call they come from, so what is needed across an
//!   `await` is explicitly [registered](context::JsAsyncContext::register_context_data).
//! - Because the future is resumed synchronously, nothing but promises can be waited for; a
//!   [run] refuses everything else.
//!
//! The JavaScript engine is not called from here. What it is asked to do is written as
//! [scripts](script), whose instructions are performed by whoever uses the library, and the
//! operations that take several JavaScript calls are written as steps from one event to the
//! next. What all of this amounts to on a well-behaved engine is said in [heap] and [pending].

use vstd::prelude::*;

pub mod bridge;
pub mod context;
pub mod context_data;
pub mod future;
pub mod future_builder;
pub mod heap;
pub mod pending;
mod pool;
pub mod promise;
pub mod result;
pub mod run;
pub mod samples;
pub mod script;
pub mod util;

verus! {

} // verus!
