//! Operator commands: the bounded command queue of the front-end bridge
//! and the dispatcher's per-command decisions.
//!
//! The presentation side enqueues commands best-effort (a full queue
//! silently drops, so rendering never blocks on the backend); the
//! dispatcher drains the queue and handles each command strictly in
//! enqueue order, one at a time.

use vstd::prelude::*;

use crate::power::{spec_encode, PowerStateCommand};
use crate::store::{DeviceAddress, StateStore};

verus! {

/// One operator command.
#[derive(Clone, Copy, Debug, PartialEq, Eq, Structural)]
pub enum Command {
    /// Restart discovery from a clean slate.
    RestartScan,
    /// Ask one device to move to a controllable power state.
    ChangePowerState(DeviceAddress, PowerStateCommand),
}

/// A bounded first-in-first-out command queue. Enqueueing appends at
/// the back and silently drops when the queue is full; draining yields
/// all pending commands in exactly enqueue order.
pub struct CommandQueue {
    items: Vec<Command>,
    capacity: usize,
}

impl CommandQueue {
    /// The pending commands, oldest first.
    pub closed spec fn pending(self) -> Seq<Command> {
        self.items@
    }

    /// The bound the queue was created with.
    pub closed spec fn spec_capacity(self) -> nat {
        self.capacity as nat
    }

    /// The queue never holds more than its bound.
    pub closed spec fn wf(self) -> bool {
        self.items@.len() <= self.capacity
    }

    /// An empty queue with the given bound.
    pub fn new(capacity: usize) -> (q: Self)
        ensures
            q.wf(),
            q.pending() == Seq::<Command>::empty(),
            q.spec_capacity() == capacity,
    {
        let q = CommandQueue { items: Vec::new(), capacity };
        proof {
            assert(q.pending() =~= Seq::<Command>::empty());
        }
        q
    }

    /// Append a command, best-effort: a full queue drops it and reports
    /// so, without blocking and without error.
    pub fn enqueue(&mut self, cmd: Command) -> (accepted: bool)
        requires
            old(self).wf(),
        ensures
            final(self).wf(),
            final(self).spec_capacity() == old(self).spec_capacity(),
            accepted == (old(self).pending().len() < old(self).spec_capacity()),
            accepted ==> final(self).pending() == old(self).pending().push(cmd),
            !accepted ==> final(self).pending() == old(self).pending(),
    {
        if self.items.len() < self.capacity {
            self.items.push(cmd);
            true
        } else {
            false
        }
    }

    /// Number of pending commands.
    pub fn len(&self) -> (r: usize)
        ensures
            r == self.pending().len(),
    {
        self.items.len()
    }

    /// Take every pending command out, in exactly enqueue order, leaving
    /// the queue empty. The dispatcher handles the returned commands
    /// front to back, so commands are processed strictly in the order
    /// they were enqueued.
    pub fn drain(&mut self) -> (cmds: Vec<Command>)
        requires
            old(self).wf(),
        ensures
            final(self).wf(),
            final(self).spec_capacity() == old(self).spec_capacity(),
            cmds@ == old(self).pending(),
            final(self).pending() == Seq::<Command>::empty(),
    {
        let mut cmds: Vec<Command> = Vec::new();
        let mut i: usize = 0;
        while i < self.items.len()
            invariant
                i <= self.items@.len(),
                self.items@ == old(self).items@,
                self.capacity == old(self).capacity,
                cmds@ == self.items@.subrange(0, i as int),
            decreases self.items@.len() - i,
        {
            cmds.push(self.items[i]);
            proof {
                assert(cmds@ =~= self.items@.subrange(0, i + 1 as int));
            }
            i += 1;
        }
        proof {
            assert(cmds@ =~= self.items@);
        }
        self.items.clear();
        proof {
            assert(self.pending() =~= Seq::<Command>::empty());
        }
        cmds
    }
}

/// Decide a `ChangePowerState` command against the store: the byte to
/// write to the device's power characteristic, or `None` when the
/// device is not (or no longer) known, in which case the command is
/// dropped silently and the store is untouched.
///
/// The write itself is fire-and-forget and performed by the caller
/// through the device's handle; a failed write is only reported, never
/// written back into the store — polling stays the sole writer of
/// observed power state.
pub fn power_write_payload<H>(
    store: &StateStore<H>,
    addr: DeviceAddress,
    target: PowerStateCommand,
) -> (r: Option<u8>)
    requires
        store.wf(),
    ensures
        store.contains_addr(addr) ==> r == Some(spec_encode(target)),
        !store.contains_addr(addr) ==> r is None,
{
    if store.contains_device(addr) {
        Some(target.encode())
    } else {
        None
    }
}

} // verus!
