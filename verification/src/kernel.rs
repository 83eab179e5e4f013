//! The kernel state: boot sequencing and the context switch routine.
//!
//! All process-wide mutable state — the task table, the per-task register
//! files, the timer configuration and the mailbox — is held in one owned
//! `Kernel` value, created once and owned exclusively by the
//! interrupt-handling context. The boot sequence walks the phases
//! `Uninitialized -> PeripheralsAcquired -> TickArmed -> Running` and then
//! hands control to task 0 directly; every later transfer of control is a
//! tick-driven switch, decided here and carried out by the surrounding
//! runtime. There is no terminal phase: the kernel runs until power loss
//! or a fatal halt.

use vstd::prelude::*;
use crate::Fault;
use crate::mailbox::{Mailbox, MailboxSignal};
use crate::register_file::{RegisterFile, REGISTER_COUNT};
use crate::task_table::{advance_idx, TaskQueue, TaskSlot};
use crate::tick::{ClockSource, SysTick};

verus! {

/// Where the boot sequence stands. The phases advance in one direction
/// only, and `Running` is never left.
#[derive(Debug, PartialEq, Eq, Structural, Clone, Copy)]
pub enum BootPhase {
    /// Nothing acquired or configured yet.
    Uninitialized,
    /// The timer peripheral has been claimed for this process.
    PeripheralsAcquired,
    /// The countdown timer is configured and its interrupt enabled.
    TickArmed,
    /// A task is executing; ticks now drive round-robin switches.
    Running,
}

/// What one tick decided: the mailbox signal observed, the task to run
/// next, and the register words to load for it.
#[derive(Debug, PartialEq, Eq)]
pub struct TickOutcome {
    /// The recognized message found in the mailbox.
    pub signal: MailboxSignal,
    /// Index of the task about to run.
    pub next_task: usize,
    /// The next task's saved register words, to be loaded into the live
    /// registers before the interrupt returns.
    pub resume: Vec<u32>,
}

/// The whole kernel state, owned by the interrupt-handling context.
pub struct Kernel {
    phase: BootPhase,
    systick: SysTick,
    tasks: TaskQueue,
    files: Vec<RegisterFile>,
    mailbox: Mailbox,
}

impl Kernel {
    /// The boot phase.
    pub closed spec fn spec_phase(&self) -> BootPhase {
        self.phase
    }

    /// The timer configuration.
    pub closed spec fn spec_systick(&self) -> SysTick {
        self.systick
    }

    /// The task table.
    pub closed spec fn spec_tasks(&self) -> TaskQueue {
        self.tasks
    }

    /// The per-task register files, one per table slot.
    pub closed spec fn spec_files(&self) -> Seq<RegisterFile> {
        self.files@
    }

    /// The shared mailbox.
    pub closed spec fn spec_mailbox(&self) -> Mailbox {
        self.mailbox
    }

    /// The saved register words of task `i`.
    pub open spec fn file(&self, i: int) -> Seq<u32> {
        self.spec_files()[i]@
    }

    /// Index of the task the table names as current.
    pub open spec fn current_task_idx(&self) -> int {
        self.spec_tasks().spec_current() as int
    }

    /// The kernel's invariant: a well-formed table, exactly one
    /// well-formed register file per task, and a well-formed mailbox.
    pub open spec fn wf(&self) -> bool {
        &&& self.spec_tasks().wf()
        &&& self.spec_files().len() == self.spec_tasks()@.len()
        &&& forall|i: int|
            0 <= i < self.spec_files().len() ==> (#[trigger] self.spec_files()[i]).wf()
        &&& self.spec_mailbox().wf()
    }

    /// Whether boot has completed and tasks are being scheduled.
    pub open spec fn is_running(&self) -> bool {
        self.spec_phase() is Running
    }

    /// Gather the kernel state: the given task table and mailbox, one
    /// zeroed register file per task, a reset timer, and the boot
    /// sequence not yet begun.
    pub fn new(tasks: TaskQueue, mailbox: Mailbox) -> (k: Kernel)
        requires
            tasks.wf(),
            mailbox.wf(),
        ensures
            k.wf(),
            k.spec_phase() == BootPhase::Uninitialized,
            k.spec_tasks() == tasks,
            k.spec_mailbox() == mailbox,
            !k.spec_systick().is_armed(),
            k.spec_systick().spec_reload() == 0,
            k.spec_systick().spec_current() == 0,
            k.spec_systick().spec_clock_source() == ClockSource::Core,
            !k.spec_systick().spec_counter_enabled(),
            !k.spec_systick().spec_interrupt_enabled(),
            forall|i: int, j: int|
                0 <= i < k.spec_files().len() && 0 <= j < REGISTER_COUNT ==> #[trigger] k.file(
                    i,
                )[j] == 0u32,
    {
        let count = tasks.len();
        let mut files: Vec<RegisterFile> = Vec::new();
        let mut i: usize = 0;
        while i < count
            invariant
                i <= count,
                files@.len() == i,
                forall|j: int| 0 <= j < i ==> (#[trigger] files@[j]).wf(),
                forall|j: int, l: int|
                    0 <= j < i && 0 <= l < REGISTER_COUNT ==> (#[trigger] files@[j]@[l]) == 0u32,
            decreases count - i,
        {
            files.push(RegisterFile::new());
            i += 1;
        }
        Kernel { phase: BootPhase::Uninitialized, systick: SysTick::new(), tasks, files, mailbox }
    }

    /// Whether boot has completed and tasks are being scheduled.
    pub fn running(&self) -> (r: bool)
        ensures
            r == self.is_running(),
    {
        match self.phase {
            BootPhase::Running => true,
            _ => false,
        }
    }

    /// The boot phase.
    pub fn phase(&self) -> (p: BootPhase)
        ensures
            p == self.spec_phase(),
    {
        self.phase
    }

    /// Claim the peripherals for this process run. The claim is granted
    /// exactly once: the first call succeeds, and any later call anywhere
    /// in the same run fails fatally, leaving the kernel untouched.
    pub fn acquire_peripherals(&mut self) -> (r: Result<(), Fault>)
        requires
            old(self).wf(),
        ensures
            final(self).wf(),
            r is Ok <==> old(self).spec_phase() == BootPhase::Uninitialized,
            r is Err ==> r == Err::<(), Fault>(Fault::PeripheralUnavailable) && *final(self)
                == *old(self),
            r is Ok ==> final(self).spec_phase() == BootPhase::PeripheralsAcquired,
            final(self).spec_systick() == old(self).spec_systick(),
            final(self).spec_tasks() == old(self).spec_tasks(),
            final(self).spec_files() == old(self).spec_files(),
            final(self).spec_mailbox() == old(self).spec_mailbox(),
    {
        match self.phase {
            BootPhase::Uninitialized => {
                self.phase = BootPhase::PeripheralsAcquired;
                Ok(())
            },
            _ => Err(Fault::PeripheralUnavailable),
        }
    }

    /// Arm the tick source: drive the counter from the core clock and
    /// configure it to expire every `clock_cycles` cycles.
    pub fn arm_tick(&mut self, clock_cycles: u32)
        requires
            old(self).wf(),
            old(self).spec_phase() == BootPhase::PeripheralsAcquired,
        ensures
            final(self).wf(),
            final(self).spec_phase() == BootPhase::TickArmed,
            final(self).spec_systick().is_armed(),
            final(self).spec_systick().spec_reload() == clock_cycles,
            final(self).spec_systick().spec_current() == 0,
            final(self).spec_systick().spec_clock_source() == ClockSource::Core,
            final(self).spec_tasks() == old(self).spec_tasks(),
            final(self).spec_files() == old(self).spec_files(),
            final(self).spec_mailbox() == old(self).spec_mailbox(),
    {
        self.systick.set_clock_source(ClockSource::Core);
        self.systick.configure(clock_cycles);
        self.phase = BootPhase::TickArmed;
    }

    /// Irreversible handoff: enter the running phase and name the entry
    /// point of the task that boot calls directly. No task has run yet,
    /// so nothing is saved first; the called task body never returns, and
    /// all later transfers of control are tick-driven switches.
    pub fn start(&mut self) -> (entry: usize)
        requires
            old(self).wf(),
            old(self).spec_phase() == BootPhase::TickArmed,
        ensures
            final(self).wf(),
            final(self).is_running(),
            entry == old(self).spec_tasks()@[old(self).current_task_idx()].entry,
            final(self).spec_systick() == old(self).spec_systick(),
            final(self).spec_tasks() == old(self).spec_tasks(),
            final(self).spec_files() == old(self).spec_files(),
            final(self).spec_mailbox() == old(self).spec_mailbox(),
    {
        self.phase = BootPhase::Running;
        let slot = self.tasks.current_slot();
        slot.entry
    }

    /// The whole one-time boot sequence: claim the peripherals, arm the
    /// tick source at `clock_cycles` cycles per tick, and hand control to
    /// the current task — task 0 for a freshly built table. Fails
    /// fatally, leaving the kernel untouched, if the peripherals were
    /// already claimed in this process run.
    pub fn boot(&mut self, clock_cycles: u32) -> (r: Result<usize, Fault>)
        requires
            old(self).wf(),
        ensures
            final(self).wf(),
            r is Ok <==> old(self).spec_phase() == BootPhase::Uninitialized,
            r is Err ==> r == Err::<usize, Fault>(Fault::PeripheralUnavailable) && *final(self)
                == *old(self),
            r is Ok ==> {
                &&& final(self).is_running()
                &&& r == Ok::<usize, Fault>(
                    old(self).spec_tasks()@[old(self).current_task_idx()].entry,
                )
                &&& final(self).spec_systick().is_armed()
                &&& final(self).spec_systick().spec_reload() == clock_cycles
                &&& final(self).spec_systick().spec_current() == 0
                &&& final(self).spec_systick().spec_clock_source() == ClockSource::Core
                &&& final(self).spec_tasks() == old(self).spec_tasks()
                &&& final(self).spec_files() == old(self).spec_files()
                &&& final(self).spec_mailbox() == old(self).spec_mailbox()
            },
    {
        match self.acquire_peripherals() {
            Ok(_) => {
                self.arm_tick(clock_cycles);
                Ok(self.start())
            },
            Err(f) => Err(f),
        }
    }

    /// The context switch routine, run to completion inside the tick
    /// interrupt: poll the mailbox, make the interrupted task's live
    /// register words durable in its register file, advance the table
    /// round-robin, and hand back the next task's saved words for the
    /// interrupt return to load. An unrecognized mailbox message is fatal
    /// and leaves the kernel untouched. The routine calls no task-level
    /// code, allocates nothing unbounded, and never blocks.
    pub fn handle_tick(&mut self, live: &Vec<u32>) -> (r: Result<TickOutcome, Fault>)
        requires
            old(self).wf(),
            old(self).is_running(),
            live@.len() == REGISTER_COUNT,
        ensures
            final(self).wf(),
            r is Ok <==> (old(self).spec_mailbox()@[0] == 0 || old(self).spec_mailbox()@[0] == 1),
            r is Err ==> *final(self) == *old(self) && r == Err::<TickOutcome, Fault>(
                Fault::UnrecognizedMessage { value: old(self).spec_mailbox()@[0] },
            ),
            r matches Ok(out) ==> {
                &&& out.signal == (if old(self).spec_mailbox()@[0] == 0 {
                    MailboxSignal::NoOp
                } else {
                    MailboxSignal::Notify
                })
                &&& out.next_task as int == advance_idx(
                    old(self).current_task_idx(),
                    old(self).spec_tasks()@.len() as int,
                )
                &&& final(self).current_task_idx() == out.next_task as int
                &&& out.resume@ == (if out.next_task as int == old(self).current_task_idx() {
                    // a single-task table hands the words just saved back
                    live@
                } else {
                    old(self).file(out.next_task as int)
                })
                &&& final(self).file(old(self).current_task_idx()) == live@
                &&& forall|i: int|
                    0 <= i < final(self).spec_files().len() && i != old(self).current_task_idx()
                        ==> #[trigger] final(self).spec_files()[i] == old(self).spec_files()[i]
                &&& final(self).spec_tasks()@ == old(self).spec_tasks()@
                &&& final(self).is_running()
                &&& final(self).spec_systick() == old(self).spec_systick()
                &&& final(self).spec_mailbox() == old(self).spec_mailbox()
            },
    {
        let signal = match self.mailbox.snoop() {
            Ok(s) => s,
            Err(f) => {
                return Err(f);
            },
        };
        let cur = self.tasks.current_task();
        self.files.set(cur, RegisterFile::capture(live));
        let next = self.tasks.advance();
        let resume = self.files[next].restore();
        Ok(TickOutcome { signal, next_task: next, resume })
    }

    /// The stable address of the mailbox storage, as handed to the
    /// external consumer.
    pub fn mailbox_pointer(&self) -> (p: usize)
        ensures
            p == self.spec_mailbox().spec_pointer(),
    {
        self.mailbox.get_pointer()
    }

    /// Read one byte of the mailbox, for task-level code.
    pub fn read_mailbox(&self, i: usize) -> (b: u8)
        requires
            i < self.spec_mailbox()@.len(),
        ensures
            b == self.spec_mailbox()@[i as int],
    {
        self.mailbox.read_byte(i)
    }

    /// Write one byte of the mailbox, for task-level code. Nothing else
    /// in the kernel changes.
    pub fn write_mailbox(&mut self, i: usize, b: u8)
        requires
            old(self).wf(),
            i < old(self).spec_mailbox()@.len(),
        ensures
            final(self).wf(),
            final(self).spec_mailbox()@ == old(self).spec_mailbox()@.update(i as int, b),
            final(self).spec_mailbox().spec_pointer() == old(self).spec_mailbox().spec_pointer(),
            final(self).spec_phase() == old(self).spec_phase(),
            final(self).spec_systick() == old(self).spec_systick(),
            final(self).spec_tasks() == old(self).spec_tasks(),
            final(self).spec_files() == old(self).spec_files(),
    {
        self.mailbox.write_byte(i, b);
    }

    /// The timer configuration the boot sequence decided, for the
    /// surrounding runtime to copy into the hardware registers.
    pub fn systick(&self) -> (t: &SysTick)
        ensures
            *t == self.spec_systick(),
    {
        &self.systick
    }

    /// The slots of the task table, in order.
    pub fn task_slots(&self) -> (r: &Vec<TaskSlot>)
        ensures
            r@ == self.spec_tasks()@,
    {
        self.tasks.get_tasks()
    }

    /// Index of the task the table names as current.
    pub fn current_task(&self) -> (i: usize)
        ensures
            i as int == self.current_task_idx(),
    {
        self.tasks.current_task()
    }
}

} // verus!
