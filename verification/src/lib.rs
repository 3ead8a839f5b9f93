//! Support for a real-time sanitizer whose runtime is native code behind
//! six entry points.
//!
//! - [`standalone_macros`], [`rtsan_macros`] and [`sys_macros`] say how the
//!   sanitizer's attributes rewrite the function they stand on. They work
//!   on text: the text of an item goes in, the text of the rewritten item
//!   comes out. [`syntax`] reads the item, [`rewrite`] writes the new one.
//! - [`run`] says what a rewritten function does when it runs: which calls
//!   reach the runtime, in which order, on every way out of the body. Its
//!   laws state that these calls are paired and nested.
//! - [`acquisition`] holds the rules by which a build decides whether
//!   detection is compiled in, finds the runtime's library for a target,
//!   and tells the build tool how to link it.
//! - [`sync`] is a mutex with the operations that return at once; waiting
//!   for the lock is left to the program, which reports it first.
//!
//! Calling the runtime is left to the program around this library: nothing
//! here enters or leaves a real-time context.

pub mod acquisition;
pub mod rewrite;
pub mod rtsan_macros;
pub mod run;
pub mod standalone_macros;
pub mod sync;
pub mod syntax;
pub mod sys_macros;
