//! Idiomatic function namespacing: callers import the module, not the
//! function, so call sites read `frobincators::frobnicate()`.
pub mod frobincators;
