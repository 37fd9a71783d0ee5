//! A last-in-first-out stack of `i32` values, kept as a singly linked chain
//! of nodes in which every node owns the rest of the chain.
//!
//! A stack is read in contracts through its view, a `Seq<i32>` whose first
//! entry is the value pushed most recently.

pub mod laws;
pub mod model;
pub mod stack;

pub use stack::{empty_stack, pop, push, top, Stack};
