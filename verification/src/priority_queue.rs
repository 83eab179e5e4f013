//! The run-to-completion executor's queue: tasks sorted by priority,
//! highest first, executed from the front.
//!
//! This is the simple userspace design alternative to the preemptive
//! core: nothing here runs under interrupt preemption. A queue is either
//! one-shot or recurring; tasks of equal priority keep their arrival
//! order; tasks with a negative priority are never executed and can be
//! swept out.

use vstd::prelude::*;
use crate::tasks::Task;

verus! {

/// Tasks ordered by priority, highest first.
pub open spec fn sorted_by_priority<F>(s: Seq<Task<F>>) -> bool {
    forall|i: int, j: int|
        0 <= i < j < s.len() ==> (#[trigger] s[i]).spec_priority() >= (#[trigger] s[j]).spec_priority()
}

/// Where a task of priority `p` lands in `s`: the first position whose
/// task has a strictly lower priority, so that an arriving task queues
/// behind every task of equal or higher priority.
pub open spec fn insertion_point<F>(s: Seq<Task<F>>, p: i8) -> int
    decreases s.len(),
{
    if s.len() == 0 {
        0
    } else if s[0].spec_priority() < p {
        0
    } else {
        1 + insertion_point(s.drop_first(), p)
    }
}

/// How many tasks from the front of `s` have a non-negative priority.
pub open spec fn nonnegative_prefix_len<F>(s: Seq<Task<F>>) -> int
    decreases s.len(),
{
    if s.len() == 0 {
        0
    } else if s[0].spec_priority() < 0 {
        0
    } else {
        1 + nonnegative_prefix_len(s.drop_first())
    }
}

/// An insertion point always lies within the sequence, ends included.
proof fn lemma_insertion_point_bounds<F>(s: Seq<Task<F>>, p: i8)
    ensures
        0 <= insertion_point(s, p) <= s.len(),
    decreases s.len(),
{
    if s.len() > 0 && !(s[0].spec_priority() < p) {
        lemma_insertion_point_bounds(s.drop_first(), p);
    }
}

/// `insertion_point` is exactly the position `k` that splits `s` into a
/// front of priorities at least `p` and a back of priorities below `p`.
proof fn lemma_insertion_point_char<F>(s: Seq<Task<F>>, p: i8, k: int)
    requires
        0 <= k <= s.len(),
        forall|j: int| 0 <= j < k ==> (#[trigger] s[j]).spec_priority() >= p,
        k == s.len() || s[k].spec_priority() < p,
    ensures
        insertion_point(s, p) == k,
    decreases s.len(),
{
    if k == 0 {
    } else {
        assert(s[0].spec_priority() >= p);
        lemma_insertion_point_char(s.drop_first(), p, k - 1);
    }
}

/// `nonnegative_prefix_len` is exactly the position `k` that splits `s`
/// into a front of non-negative priorities and a back that starts
/// negative.
proof fn lemma_nonnegative_prefix_char<F>(s: Seq<Task<F>>, k: int)
    requires
        0 <= k <= s.len(),
        forall|j: int| 0 <= j < k ==> (#[trigger] s[j]).spec_priority() >= 0,
        k == s.len() || s[k].spec_priority() < 0,
    ensures
        nonnegative_prefix_len(s) == k,
    decreases s.len(),
{
    if k == 0 {
    } else {
        assert(s[0].spec_priority() >= 0);
        lemma_nonnegative_prefix_char(s.drop_first(), k - 1);
    }
}

/// The executor's queue: tasks sorted by priority, highest first, with
/// equal priorities in arrival order.
pub struct PriorityQueue<F> {
    queue: Vec<Task<F>>,
    recurring_type: bool,
}

impl<F: Fn() + Copy> PriorityQueue<F> {
    /// The queued tasks, front first.
    pub closed spec fn view(&self) -> Seq<Task<F>> {
        self.queue@
    }

    /// Whether this queue holds recurring tasks.
    pub closed spec fn spec_recurring_type(&self) -> bool {
        self.recurring_type
    }

    /// The queue's invariant: sorted by priority, highest first, and
    /// every queued task's entry may be called.
    pub open spec fn wf(&self) -> bool {
        &&& sorted_by_priority(self@)
        &&& forall|i: int| 0 <= i < self@.len() ==> (#[trigger] self@[i]).callable()
    }

    /// An empty queue of one-shot tasks.
    pub fn new() -> (q: PriorityQueue<F>)
        ensures
            q.wf(),
            q@.len() == 0,
            !q.spec_recurring_type(),
    {
        PriorityQueue { queue: Vec::new(), recurring_type: false }
    }

    /// An empty queue of recurring tasks.
    pub fn new_recurring() -> (q: PriorityQueue<F>)
        ensures
            q.wf(),
            q@.len() == 0,
            q.spec_recurring_type(),
    {
        PriorityQueue { queue: Vec::new(), recurring_type: true }
    }

    /// Drop every queued task.
    pub fn clear(&mut self)
        ensures
            final(self).wf(),
            final(self)@.len() == 0,
            final(self).spec_recurring_type() == old(self).spec_recurring_type(),
    {
        self.queue.clear();
    }

    /// Sweep out the tasks that can never run: every task with a negative
    /// priority — the back of the sorted queue — is dropped, and the rest
    /// stay in order.
    pub fn sanitize(&mut self)
        requires
            old(self).wf(),
        ensures
            final(self).wf(),
            final(self).spec_recurring_type() == old(self).spec_recurring_type(),
            final(self)@ == old(self)@.subrange(0, nonnegative_prefix_len(old(self)@)),
            forall|j: int|
                nonnegative_prefix_len(old(self)@) <= j < old(self)@.len() ==> (#[trigger] old(
                    self,
                )@[j]).spec_priority() < 0,
    {
        let ghost s = self.queue@;
        let mut k: usize = 0;
        #[verifier::loop_isolation(false)]
        while k < self.queue.len() && self.queue[k].get_priority() >= 0
            invariant
                k <= s.len(),
                forall|j: int| 0 <= j < k ==> (#[trigger] s[j]).spec_priority() >= 0,
            decreases s.len() - k,
        {
            k += 1;
        }
        proof {
            lemma_nonnegative_prefix_char(s, k as int);
            // past the split, sortedness keeps every priority negative
            assert forall|j: int| k <= j < s.len() implies (#[trigger] s[j]).spec_priority() < 0 by {
                assert(s[k as int].spec_priority() < 0);
                assert(sorted_by_priority(s));
            }
        }
        self.queue.truncate(k);
        proof {
            assert(self@ =~= s.subrange(0, k as int));
        }
    }

    /// Queue a task at its priority position: behind every task of equal
    /// or higher priority, ahead of every strictly lower one.
    pub fn add_to_queue(&mut self, task: Task<F>)
        requires
            old(self).wf(),
            task.callable(),
        ensures
            final(self).wf(),
            final(self).spec_recurring_type() == old(self).spec_recurring_type(),
            final(self)@ == old(self)@.insert(insertion_point(old(self)@, task.spec_priority()), task),
    {
        let ghost s = self.queue@;
        let p = task.get_priority();
        let mut k: usize = 0;
        #[verifier::loop_isolation(false)]
        while k < self.queue.len() && self.queue[k].get_priority() >= p
            invariant
                k <= s.len(),
                forall|j: int| 0 <= j < k ==> (#[trigger] s[j]).spec_priority() >= p,
            decreases s.len() - k,
        {
            k += 1;
        }
        proof {
            lemma_insertion_point_char(s, p, k as int);
        }
        self.queue.insert(k, task);
        proof {
            let t = self@;
            assert(t == s.insert(k as int, task));
            // ahead of the new task nothing moved; behind it everything
            // shifted one place back
            assert forall|i: int, j: int|
                0 <= i < j < t.len() implies (#[trigger] t[i]).spec_priority() >= (
            #[trigger] t[j]).spec_priority() by {
                assert(sorted_by_priority(s));
                if i < k && j < k {
                    assert(t[i] == s[i] && t[j] == s[j]);
                } else if i < k && j == k {
                    assert(t[i] == s[i] && t[j] == task);
                } else if i < k && j > k {
                    assert(t[i] == s[i] && t[j] == s[j - 1]);
                    if j - 1 >= k {
                        assert(s[k as int].spec_priority() < p || k as int == s.len());
                    }
                } else if i == k {
                    assert(t[i] == task && t[j] == s[j - 1]);
                    assert(s[j - 1].spec_priority() < p);
                } else {
                    assert(t[i] == s[i - 1] && t[j] == s[j - 1]);
                }
            }
            assert forall|i: int| 0 <= i < t.len() implies (#[trigger] t[i]).callable() by {
                if i < k {
                    assert(t[i] == s[i]);
                } else if i == k {
                    assert(t[i] == task);
                } else {
                    assert(t[i] == s[i - 1]);
                }
            }
        }
    }

    /// Mark a task recurring and queue it at its priority position. Only
    /// a recurring queue accepts recurring tasks.
    pub fn add_recurring_task(&mut self, task: Task<F>)
        requires
            old(self).wf(),
            old(self).spec_recurring_type(),
            task.callable(),
        ensures
            final(self).wf(),
            final(self).spec_recurring_type(),
            ({
                let ip = insertion_point(old(self)@, task.spec_priority());
                let queued = final(self)@[ip];
                &&& queued.spec_priority() == task.spec_priority()
                &&& queued.spec_function() == task.spec_function()
                &&& queued.spec_recurring()
                &&& final(self)@ == old(self)@.insert(ip, queued)
            }),
    {
        let mut task = task;
        task.set_recurring(true);
        self.add_to_queue(task);
        proof {
            let ip = insertion_point(old(self)@, task.spec_priority());
            lemma_insertion_point_bounds(old(self)@, task.spec_priority());
            old(self)@.insert_ensures(ip, task);
        }
    }

    /// Run the front task: the highest-priority task that arrived
    /// earliest. An empty queue and a front task with a negative priority
    /// each refuse; otherwise a one-shot task leaves the queue, a
    /// recurring one stays, its entry is called once, and the task is
    /// returned.
    pub fn execute(&mut self) -> (r: Result<Task<F>, &'static str>)
        requires
            old(self).wf(),
        ensures
            final(self).wf(),
            final(self).spec_recurring_type() == old(self).spec_recurring_type(),
            r is Ok <==> (old(self)@.len() > 0 && old(self)@[0].spec_priority() >= 0),
            old(self)@.len() == 0 ==> *final(self) == *old(self) && r is Err && r->Err_0@
                == "No tasks in queue"@,
            old(self)@.len() > 0 && old(self)@[0].spec_priority() < 0 ==> *final(self) == *old(self)
                && r is Err && r->Err_0@ == "Tasks with a negative priority are never executed"@,
            r is Ok ==> r == Ok::<Task<F>, &'static str>(old(self)@[0]) && final(self)@ == (
            if old(self)@[0].spec_recurring() {
                old(self)@
            } else {
                old(self)@.drop_first()
            }),
    {
        if self.queue.len() == 0 {
            return Err("No tasks in queue");
        }
        let curr_task = self.queue[0];
        if curr_task.get_priority() < 0 {
            return Err("Tasks with a negative priority are never executed");
        }
        if !curr_task.is_recurring() {
            self.queue.remove(0);
            proof {
                assert(self@ =~= old(self)@.drop_first());
            }
        }
        let f = curr_task.get_function();
        f();
        Ok(curr_task)
    }
}

} // verus!
