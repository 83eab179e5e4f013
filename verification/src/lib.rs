//! Core of a minimal preemptive micro-kernel for a single-core
//! microcontroller, modeled as explicitly owned state.
//!
//! The crate verifies the bookkeeping that the kernel performs around a
//! hardware timer interrupt: a fixed task table driven round-robin, a
//! register file saved and restored across context switches, a shared
//! mailbox polled for short messages, and the one-time boot sequence.
//! The instruction-level mechanism (register moves, exception entry) and
//! the memory-mapped peripheral writes live outside the verified core,
//! behind the plain-value interfaces defined here.

pub mod kernel;
pub mod mailbox;
pub mod priority_queue;
pub mod register_file;
pub mod task_table;
pub mod tasks;
pub mod tick;

use vstd::prelude::*;

verus! {

/// An unrecoverable condition. The kernel recovers nothing locally:
/// on any fault the surrounding runtime halts the whole process.
#[derive(Debug, PartialEq, Eq, Structural, Clone, Copy)]
pub enum Fault {
    /// A required peripheral was unavailable: it had already been
    /// claimed earlier in the same process run.
    PeripheralUnavailable,
    /// The mailbox held a message outside the recognized set, which
    /// signals protocol desynchronization between producer and consumer.
    UnrecognizedMessage { value: u8 },
}

} // verus!
