//! The shared mailbox: one fixed-size byte buffer used for coarse,
//! out-of-band signaling between task bodies and an external native
//! consumer.
//!
//! The storage itself lives with the surrounding runtime, which hands the
//! external consumer a stable pointer to it; the verified core tracks
//! that address as a plain machine word together with the buffer's
//! contents. The address never changes for the lifetime of the process.
//! There is no built-in synchronization: producer and consumer must agree
//! out-of-band on who writes which byte and when.

use vstd::prelude::*;
use crate::Fault;

verus! {

/// A recognized mailbox message, as dispatched on byte 0 of the buffer.
#[derive(Debug, PartialEq, Eq, Structural, Clone, Copy)]
pub enum MailboxSignal {
    /// The one recognized no-op value: nothing is owed to the consumer.
    NoOp,
    /// The consumer subscribed to the mailbox must be notified.
    Notify,
}

/// The fixed-size shared byte buffer and the stable address under which
/// the external consumer reaches it.
pub struct Mailbox {
    base: usize,
    buf: Vec<u8>,
}

/// One run of byte writes applied to a mailbox state, modeled as the pair
/// of its stable address and its buffer contents. Each write updates one
/// byte and leaves the address alone.
pub open spec fn apply_writes(state: (usize, Seq<u8>), writes: Seq<(int, u8)>) -> (usize, Seq<u8>)
    decreases writes.len(),
{
    if writes.len() == 0 {
        state
    } else {
        let w = writes[0];
        apply_writes((state.0, state.1.update(w.0, w.1)), writes.subrange(1, writes.len() as int))
    }
}

impl Mailbox {
    /// The buffer contents as a mathematical sequence of bytes.
    pub closed spec fn view(&self) -> Seq<u8> {
        self.buf@
    }

    /// The stable address of the shared storage.
    pub closed spec fn spec_pointer(&self) -> usize {
        self.base
    }

    /// A mailbox always holds at least the dispatch byte.
    pub open spec fn wf(&self) -> bool {
        self@.len() >= 1
    }

    /// Build the mailbox over storage of `size` bytes at address `base`,
    /// every byte cleared to zero.
    pub fn new(base: usize, size: usize) -> (m: Mailbox)
        requires
            size >= 1,
        ensures
            m.wf(),
            m.spec_pointer() == base,
            m@.len() == size,
            forall|i: int| 0 <= i < size ==> m@[i] == 0u8,
    {
        let mut buf: Vec<u8> = Vec::new();
        let mut i: usize = 0;
        while i < size
            invariant
                i <= size,
                buf@.len() == i,
                forall|j: int| 0 <= j < i ==> buf@[j] == 0u8,
            decreases size - i,
        {
            buf.push(0);
            i += 1;
        }
        Mailbox { base, buf }
    }

    /// The buffer's address. Pure and side-effect-free: every call within
    /// one process run returns the same address.
    pub fn get_pointer(&self) -> (p: usize)
        ensures
            p == self.spec_pointer(),
    {
        self.base
    }

    /// The buffer's size in bytes.
    pub fn len(&self) -> (n: usize)
        ensures
            n == self@.len(),
    {
        self.buf.len()
    }

    /// Read one byte of the shared buffer.
    pub fn read_byte(&self, i: usize) -> (b: u8)
        requires
            i < self@.len(),
        ensures
            b == self@[i as int],
    {
        self.buf[i]
    }

    /// Write one byte of the shared buffer. The stable address is
    /// untouched.
    pub fn write_byte(&mut self, i: usize, b: u8)
        requires
            old(self).wf(),
            i < old(self)@.len(),
        ensures
            final(self).wf(),
            final(self)@ == old(self)@.update(i as int, b),
            final(self).spec_pointer() == old(self).spec_pointer(),
    {
        self.buf.set(i, b);
    }

    /// Inspect byte 0 of the buffer and dispatch on its value. The two
    /// recognized values are 0 (no-op) and 1 (notify the consumer); any
    /// other value indicates protocol desynchronization between producer
    /// and consumer, a fatal condition on which the caller must halt the
    /// process rather than carry on.
    pub fn snoop(&self) -> (r: Result<MailboxSignal, Fault>)
        requires
            self.wf(),
        ensures
            r is Ok <==> (self@[0] == 0 || self@[0] == 1),
            self@[0] == 0 ==> r == Ok::<MailboxSignal, Fault>(MailboxSignal::NoOp),
            self@[0] == 1 ==> r == Ok::<MailboxSignal, Fault>(MailboxSignal::Notify),
            (self@[0] != 0 && self@[0] != 1) ==> r == Err::<MailboxSignal, Fault>(
                Fault::UnrecognizedMessage { value: self@[0] },
            ),
    {
        let b = self.buf[0];
        match b {
            0 => Ok(MailboxSignal::NoOp),
            1 => Ok(MailboxSignal::Notify),
            _ => Err(Fault::UnrecognizedMessage { value: b }),
        }
    }
}

/// The pointer accessor is idempotent: whatever run of byte writes the
/// tasks and the switch routine perform on a mailbox, its stable address
/// is the same after the run as before it, so every call of the accessor
/// within one process run returns the same address.
pub proof fn lemma_pointer_stable(state: (usize, Seq<u8>), writes: Seq<(int, u8)>)
    ensures
        apply_writes(state, writes).0 == state.0,
    decreases writes.len(),
{
    if writes.len() > 0 {
        let w = writes[0];
        lemma_pointer_stable(
            (state.0, state.1.update(w.0, w.1)),
            writes.subrange(1, writes.len() as int),
        );
    }
}

} // verus!
