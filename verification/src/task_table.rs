//! The fixed universe of schedulable tasks and the index of the one
//! executing.
//!
//! A task entry point is identified by a plain machine word: the verified
//! core schedules identities, and the surrounding runtime maps each
//! identity to the actual non-returning task body. The table is built
//! once during boot from a fixed task list, is never resized, and its
//! current index moves strictly round-robin: no task is skipped and no
//! task runs twice before every other task has run once.

use vstd::prelude::*;
use vstd::arithmetic::div_mod::{lemma_add_mod_noop, lemma_small_mod};

verus! {

/// Entry identity of the first reference task (the main task body).
pub const MAIN_TASK_ENTRY: usize = 1;

/// Entry identity of the second reference task (the engine task body).
pub const ENGINE_TASK_ENTRY: usize = 2;

/// One schedulable task: its position in the table and the identity of
/// its non-returning entry point.
#[derive(Debug, Clone, Copy, PartialEq, Eq, Structural)]
pub struct TaskSlot {
    /// Position of this slot in the table.
    pub index: usize,
    /// Identity of the task's entry point.
    pub entry: usize,
}

/// The fixed-size table of task slots plus the index of the task that is
/// currently running.
pub struct TaskQueue {
    tasks: Vec<TaskSlot>,
    curr: usize,
}

/// The index that follows `cur` in round-robin order over `n` tasks.
pub open spec fn advance_idx(cur: int, n: int) -> int
    recommends
        n >= 1,
{
    (cur + 1) % n
}

/// The index reached after `k` round-robin steps from `start` over `n`
/// tasks.
pub open spec fn nth_index(start: int, k: nat, n: int) -> int
    recommends
        n >= 1,
    decreases k,
{
    if k == 0 {
        start
    } else {
        advance_idx(nth_index(start, (k - 1) as nat, n), n)
    }
}

impl TaskQueue {
    /// The table's slots, in order.
    pub closed spec fn view(&self) -> Seq<TaskSlot> {
        self.tasks@
    }

    /// The index of the currently running task.
    pub closed spec fn spec_current(&self) -> usize {
        self.curr
    }

    /// The table always holds at least one slot, the current index always
    /// designates a valid slot, and each slot records its own position.
    pub open spec fn wf(&self) -> bool {
        &&& self@.len() >= 1
        &&& (self.spec_current() as int) < self@.len()
        &&& forall|i: int| 0 <= i < self@.len() ==> (#[trigger] self@[i].index) == i
    }

    /// Build the reference two-task configuration, with the main task
    /// marked as the one that runs first.
    pub fn new() -> (r: TaskQueue)
        ensures
            r.wf(),
            r@.len() == 2,
            r@[0] == (TaskSlot { index: 0, entry: MAIN_TASK_ENTRY }),
            r@[1] == (TaskSlot { index: 1, entry: ENGINE_TASK_ENTRY }),
            r.spec_current() == 0,
    {
        let mut tasks: Vec<TaskSlot> = Vec::new();
        tasks.push(TaskSlot { index: 0, entry: MAIN_TASK_ENTRY });
        tasks.push(TaskSlot { index: 1, entry: ENGINE_TASK_ENTRY });
        TaskQueue { tasks, curr: 0 }
    }

    /// Build a table over any fixed list of task entry identities, with
    /// task 0 marked as the one that runs first.
    pub fn with_tasks(entries: &Vec<usize>) -> (r: TaskQueue)
        requires
            entries@.len() >= 1,
        ensures
            r.wf(),
            r@.len() == entries@.len(),
            forall|i: int| 0 <= i < entries@.len() ==> (#[trigger] r@[i].entry) == entries@[i],
            r.spec_current() == 0,
    {
        let mut tasks: Vec<TaskSlot> = Vec::new();
        let mut i: usize = 0;
        while i < entries.len()
            invariant
                i <= entries@.len(),
                tasks@.len() == i,
                forall|j: int| 0 <= j < i ==> (#[trigger] tasks@[j].index) == j,
                forall|j: int| 0 <= j < i ==> (#[trigger] tasks@[j].entry) == entries@[j],
            decreases entries@.len() - i,
        {
            let e = entries[i];
            tasks.push(TaskSlot { index: i, entry: e });
            i += 1;
        }
        TaskQueue { tasks, curr: 0 }
    }

    /// All slots of the table, in order.
    pub fn get_tasks(&self) -> (r: &Vec<TaskSlot>)
        ensures
            r@ == self@,
    {
        &self.tasks
    }

    /// The number of tasks in the table.
    pub fn len(&self) -> (n: usize)
        ensures
            n == self@.len(),
    {
        self.tasks.len()
    }

    /// The index of the currently running task.
    pub fn current_task(&self) -> (i: usize)
        ensures
            i == self.spec_current(),
    {
        self.curr
    }

    /// The slot of the currently running task.
    pub fn current_slot(&self) -> (s: TaskSlot)
        requires
            self.wf(),
        ensures
            s == self@[self.spec_current() as int],
    {
        self.tasks[self.curr]
    }

    /// Move to the next task in round-robin order and return its index.
    /// The slots themselves never change.
    pub fn advance(&mut self) -> (next: usize)
        requires
            old(self).wf(),
        ensures
            final(self).wf(),
            final(self)@ == old(self)@,
            next as int == advance_idx(old(self).spec_current() as int, old(self)@.len() as int),
            final(self).spec_current() == next,
    {
        let n = self.tasks.len();
        let next = (self.curr + 1) % n;
        self.curr = next;
        next
    }
}

/// Round-robin order is the exact cyclic sequence `0, 1, ..., n-1, 0, 1,
/// ...`: for any number `n >= 2` of statically configured tasks, the
/// index reached after `k` steps from task 0 is `k % n`.
pub proof fn lemma_round_robin_cycle(k: nat, n: int)
    requires
        n >= 2,
    ensures
        nth_index(0, k, n) == k as int % n,
    decreases k,
{
    if k == 0 {
        lemma_small_mod(0, n as nat);
    } else {
        lemma_round_robin_cycle((k - 1) as nat, n);
        lemma_small_mod(1, n as nat);
        lemma_add_mod_noop(k as int - 1, 1, n);
    }
}

/// In the cycle that starts at task 0, no task repeats and none is
/// skipped: within the first `n` steps, distinct step counts reach
/// distinct tasks, and step `k` reaches exactly task `k`.
pub proof fn lemma_round_robin_no_repeats_or_skips(i: nat, j: nat, n: int)
    requires
        n >= 2,
        i < j < n,
    ensures
        nth_index(0, i, n) == i as int,
        nth_index(0, j, n) == j as int,
        nth_index(0, i, n) != nth_index(0, j, n),
{
    lemma_round_robin_cycle(i, n);
    lemma_round_robin_cycle(j, n);
    lemma_small_mod(i, n as nat);
    lemma_small_mod(j, n as nat);
}

} // verus!
