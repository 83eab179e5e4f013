//! A unit of work for the run-to-completion executor: an entry function,
//! a signed priority, and a recurring flag.
//!
//! This executor is the simple userspace design alternative to the
//! preemptive core: its tasks run once (or forever, if recurring) when an
//! executor decides to call them, and are never interrupted. The entry is
//! any argument-less callable; a task with a negative priority is never
//! executed.

use vstd::prelude::*;

verus! {

/// One schedulable unit of work for the run-to-completion executor.
#[derive(Clone, Copy)]
pub struct Task<F> {
    /// Execution rank: higher runs first; negative is never run.
    pub priority: i8,
    function: F,
    recurring: bool,
}

impl<F> Task<F> {
    /// The task's priority.
    pub closed spec fn spec_priority(&self) -> i8 {
        self.priority
    }

    /// The task's entry function.
    pub closed spec fn spec_function(&self) -> F {
        self.function
    }

    /// Whether the task stays queued after it runs.
    pub closed spec fn spec_recurring(&self) -> bool {
        self.recurring
    }
}

impl<F: Fn() + Copy> Task<F> {
    /// The task's entry may be called with no arguments. An executor only
    /// holds tasks for which this is known.
    pub open spec fn callable(&self) -> bool {
        call_requires(self.spec_function(), ())
    }

    /// A new one-shot task with the given priority and entry function.
    pub fn new(priority: i8, function: F) -> (t: Task<F>)
        ensures
            t.spec_priority() == priority,
            t.spec_function() == function,
            !t.spec_recurring(),
    {
        Task { priority, function, recurring: false }
    }

    /// The task's entry function.
    pub fn get_function(&self) -> (f: F)
        ensures
            f == self.spec_function(),
    {
        self.function
    }

    /// The task's priority.
    pub fn get_priority(&self) -> (p: i8)
        ensures
            p == self.spec_priority(),
    {
        self.priority
    }

    /// Mark or unmark the task as recurring. Priority and entry are
    /// untouched.
    pub fn set_recurring(&mut self, recurring: bool)
        ensures
            final(self).spec_recurring() == recurring,
            final(self).spec_priority() == old(self).spec_priority(),
            final(self).spec_function() == old(self).spec_function(),
    {
        self.recurring = recurring;
    }

    /// Whether the task stays queued after it runs.
    pub fn is_recurring(&self) -> (r: bool)
        ensures
            r == self.spec_recurring(),
    {
        self.recurring
    }
}

} // verus!
