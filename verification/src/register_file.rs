//! The saved snapshot of a task's machine registers between activations.
//!
//! A register file is an ordered sequence of 13 machine-word slots,
//! indices 0 through 12, mapping directly to the architectural registers
//! r0 through r12. The split between software- and hardware-managed state
//! is fixed as follows: the link register, the program counter and the
//! status register are hardware-managed — exception entry stacks them and
//! exception return reloads them — and all of r0 through r12 are
//! software-managed by this file. The exception frame also stacks r0-r3
//! and r12; for those the software copy is applied before the exception
//! return pops the frame, so the hardware's restore settles them last.
//! Every register is thus covered exactly once at the moment a task
//! resumes: none is dropped and no slot is left stale.

use vstd::prelude::*;

verus! {

/// Number of machine-word slots in one register file: r0 through r12.
pub const REGISTER_COUNT: usize = 13;

/// One task's saved register snapshot. Slot `i` holds register `ri`.
pub struct RegisterFile {
    regs: Vec<u32>,
}

impl RegisterFile {
    /// The snapshot as a mathematical sequence of machine words.
    pub closed spec fn view(&self) -> Seq<u32> {
        self.regs@
    }

    /// A register file always holds exactly one word per tracked register.
    pub open spec fn wf(&self) -> bool {
        self@.len() == REGISTER_COUNT
    }

    /// A fresh snapshot, all slots zero, as allocated once at boot.
    pub fn new() -> (r: RegisterFile)
        ensures
            r.wf(),
            forall|i: int| 0 <= i < REGISTER_COUNT ==> r@[i] == 0u32,
    {
        let mut regs: Vec<u32> = Vec::new();
        let mut i: usize = 0;
        while i < REGISTER_COUNT
            invariant
                i <= REGISTER_COUNT,
                regs@.len() == i,
                forall|j: int| 0 <= j < i ==> regs@[j] == 0u32,
            decreases REGISTER_COUNT - i,
        {
            regs.push(0);
            i += 1;
        }
        RegisterFile { regs }
    }

    /// Capture: snapshot the live register words of the task being
    /// suspended, one word per slot.
    pub fn capture(live: &Vec<u32>) -> (r: RegisterFile)
        requires
            live@.len() == REGISTER_COUNT,
        ensures
            r.wf(),
            r@ == live@,
    {
        let mut regs: Vec<u32> = Vec::new();
        let mut i: usize = 0;
        while i < REGISTER_COUNT
            invariant
                i <= REGISTER_COUNT,
                live@.len() == REGISTER_COUNT,
                regs@.len() == i,
                forall|j: int| 0 <= j < i ==> regs@[j] == live@[j],
            decreases REGISTER_COUNT - i,
        {
            let v = live[i];
            regs.push(v);
            i += 1;
        }
        proof {
            assert(regs@ =~= live@);
        }
        RegisterFile { regs }
    }

    /// Apply: produce the words to load into the live registers for the
    /// task about to run, exactly as they were last saved.
    pub fn restore(&self) -> (live: Vec<u32>)
        requires
            self.wf(),
        ensures
            live@ == self@,
    {
        let mut live: Vec<u32> = Vec::new();
        let mut i: usize = 0;
        while i < REGISTER_COUNT
            invariant
                i <= REGISTER_COUNT,
                self.wf(),
                live@.len() == i,
                forall|j: int| 0 <= j < i ==> live@[j] == self@[j],
            decreases REGISTER_COUNT - i,
        {
            let v = self.regs[i];
            live.push(v);
            i += 1;
        }
        proof {
            assert(live@ =~= self@);
        }
        live
    }
}

/// Saving a snapshot for a task and later restoring it yields a register
/// state identical, word for word, to the state captured, for any pattern
/// of 13 machine words, including all-zero and all-ones patterns.
///
/// `saved` is the contents of the file `capture(live)` built (its
/// `ensures`), and `restored` is what `restore` then hands back (its
/// `ensures`); the law is that the round trip reproduces `live` exactly.
pub proof fn lemma_snapshot_round_trip(live: Seq<u32>, saved: Seq<u32>, restored: Seq<u32>)
    requires
        live.len() == REGISTER_COUNT,
        saved == live,
        restored == saved,
    ensures
        restored == live,
        forall|i: int| 0 <= i < REGISTER_COUNT ==> restored[i] == live[i],
{
}

} // verus!
