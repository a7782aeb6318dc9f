//! A bridge between an interrupt-driven producer of keyboard scancodes and a
//! cooperatively scheduled consumer.
//!
//! The producer hands bytes to [`add_scancode`]; the consumer holds a
//! [`ScancodeStream`] and polls it. Both work on one [`EventSource`], which
//! owns a bounded queue that is created exactly once and a single-slot wake
//! handle.
//!
//! Every operation takes the event source by exclusive reference and is
//! specified as a transition of its abstract state, [`SourceState`]; the laws
//! that follow from those transitions are proved in [`laws`]. A poll is made
//! of two phases, [`ScancodeStream::fast_path`] and
//! [`ScancodeStream::register_and_recheck`], so that a submission that falls
//! between them is covered by the same contracts. Whoever shares one event
//! source between an interrupt handler and a task hands each of them the
//! exclusive reference for the length of one call.

pub mod keyboard;
pub mod laws;
pub mod model;
pub mod queue;
pub mod wake;

pub use keyboard::{add_scancode, EventSource, ScancodeStream, SCANCODE_QUEUE_LENGTH};
pub use model::{InitError, QueueState, SourceState, SubmitOutcome, Uninitialized};
pub use queue::MAX_QUEUE_CAPACITY;
