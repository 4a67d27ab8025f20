use vstd::prelude::*;
use crate::raw;
use crate::timer::Callback;

verus! {

/// A handle that any thread may fire to run a callback on the loop. Firing
/// is coalesced: each fire runs the callback at least once.
#[derive(Debug)]
pub struct Async {
    handle: raw::Async,
    exit_flag: bool,
    callback: Callback,
}

impl Async {
    pub closed spec fn spec_handle(&self) -> raw::Async {
        self.handle
    }

    /// Set when the handle is dropped: the next callback closes it.
    pub closed spec fn exiting(&self) -> bool {
        self.exit_flag
    }

    pub closed spec fn callback(&self) -> u64 {
        self.callback@
    }

    pub fn new_on(handle: raw::Async, cb: Callback) -> (r: Async)
        ensures
            r.spec_handle() == handle,
            !r.exiting(),
            r.callback() == cb@,
    {
        Async { handle, exit_flag: false, callback: cb }
    }

    pub fn raw(&self) -> (r: raw::Async)
        ensures
            r == self.spec_handle(),
    {
        self.handle
    }

    /// The reactor ran the handle's callback: the user callback (whose id
    /// comes back) is to run, and, when the exit flag was set beforehand,
    /// the handle is then to be closed. Reading the flag before the callback
    /// runs guarantees that a fire made together with setting the flag is
    /// followed by one last callback.
    pub fn async_cb(&self) -> (r: (u64, bool))
        ensures
            r.0 == self.callback(),
            r.1 == self.exiting(),
    {
        (self.callback.id(), self.exit_flag)
    }

    /// The handle is dropped: the flag is set, and the handle must be fired
    /// in the same critical section.
    pub fn close(&mut self)
        ensures
            final(self).exiting(),
            final(self).spec_handle() == old(self).spec_handle(),
            final(self).callback() == old(self).callback(),
    {
        self.exit_flag = true;
    }
}

} // verus!
