//! The native module that exposes a protocol library to JavaScript.
//!
//! Its futures differ from those of [crate::future] in that every failure to register one is
//! a bug, in that a transformation is applied before the context is entered, and in that a
//! promise that is settled before its future was polled is counted off all the same.

pub mod future;
pub mod module;
