//! Verified core of a C-callable control surface over an asynchronous
//! network engine.
//!
//! - [`room`]: room codes, generated from a random 64-bit seed and checked
//!   for shape.
//! - [`registry`]: the slot of the one active session; start and stop.
//! - [`bridge`]: what a callback registration needs, and the steps of the
//!   worker that turns status events into callback invocations.
//! - [`running_info`]: the snapshot of a running session, put together
//!   from the engine's replies.
//! - [`channel`]: status codes and what is written into the caller's
//!   output slots.
//! - [`error`]: the error kinds and their texts.
//!
//! The engine itself, threads and raw pointers stay outside: this crate
//! takes what the engine answered as plain values and decides what follows.

pub mod bridge;
pub mod channel;
pub mod error;
pub mod registry;
pub mod room;
pub mod running_info;
