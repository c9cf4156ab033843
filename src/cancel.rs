//! The cancellation coordinator: the shutdown flag and the slot holding the
//! process id of the test runner that is running, shared between the run loop
//! and the interrupt handler (which hold it behind a lock).

use vstd::prelude::*;

verus! {

/// The shared cancellation state.
#[derive(Debug)]
pub struct Coordinator {
    /// A stop was asked for. Once set it stays set.
    pub shutdown: bool,
    /// The process id of the test runner between its spawn and the end of the
    /// wait on it.
    pub running_child: Option<u32>,
}

impl Coordinator {
    /// No stop asked for, no child running.
    pub fn new() -> (r: Coordinator)
        ensures
            !r.shutdown,
            r.running_child is None,
    {
        Coordinator { shutdown: false, running_child: None }
    }

    /// Whether a stop was asked for.
    pub fn is_shutdown(&self) -> (r: bool)
        ensures
            r == self.shutdown,
    {
        self.shutdown
    }

    /// An interrupt arrived: sets the flag and takes the running child out of
    /// the slot. The result is the process to terminate, if one was running;
    /// a child that already finished is never returned.
    pub fn request_shutdown(&mut self) -> (r: Option<u32>)
        ensures
            final(self).shutdown,
            final(self).running_child is None,
            r == old(self).running_child,
    {
        self.shutdown = true;
        self.running_child.take()
    }

    /// A test runner with process id `pid` was spawned. When a stop was already
    /// asked for, the slot stays empty and the result is true: the caller
    /// terminates the child itself, as the handler would have.
    pub fn child_started(&mut self, pid: u32) -> (r: bool)
        ensures
            r == old(self).shutdown,
            final(self).shutdown == old(self).shutdown,
            final(self).running_child == (if r { None } else { Some(pid) }),
    {
        if self.shutdown {
            self.running_child = None;
            true
        } else {
            self.running_child = Some(pid);
            false
        }
    }

    /// The wait on the running child is over: the slot is cleared.
    pub fn child_finished(&mut self)
        ensures
            final(self).shutdown == old(self).shutdown,
            final(self).running_child is None,
    {
        self.running_child = None;
    }
}

} // verus!
