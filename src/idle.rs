use vstd::prelude::*;
use crate::raw;
use crate::timer::Callback;

verus! {

/// A callback run on every loop turn while resumed.
#[derive(Debug)]
pub struct Idle {
    handle: raw::Idle,
    callback: Callback,
    active: bool,
}

impl Idle {
    pub closed spec fn spec_handle(&self) -> raw::Idle {
        self.handle
    }

    pub closed spec fn active(&self) -> bool {
        self.active
    }

    pub closed spec fn callback(&self) -> u64 {
        self.callback@
    }

    /// A paused idle callback over the reactor's idle handle.
    pub fn new(handle: raw::Idle, cb: Callback) -> (r: Idle)
        ensures
            r.spec_handle() == handle,
            !r.active(),
            r.callback() == cb@,
    {
        Idle { handle, callback: cb, active: false }
    }

    pub fn raw(&self) -> (r: raw::Idle)
        ensures
            r == self.spec_handle(),
    {
        self.handle
    }

    /// Stops the callback (the reactor handle is stopped).
    pub fn pause(&mut self)
        ensures
            !final(self).active(),
            final(self).spec_handle() == old(self).spec_handle(),
            final(self).callback() == old(self).callback(),
    {
        self.active = false;
    }

    /// Starts the callback again (the reactor handle is started).
    pub fn resume(&mut self)
        ensures
            final(self).active(),
            final(self).spec_handle() == old(self).spec_handle(),
            final(self).callback() == old(self).callback(),
    {
        self.active = true;
    }

    /// A loop turn: the callback to run.
    pub fn idle_cb(&self) -> (r: u64)
        requires
            self.active(),
        ensures
            r == self.callback(),
    {
        self.callback.id()
    }
}

/// A callback run once, on the next loop turn: an idle handle that closes
/// itself when it fires.
#[derive(Debug)]
pub struct OneShot {
    handle: raw::Idle,
    callback: Callback,
}

impl OneShot {
    pub closed spec fn spec_handle(&self) -> raw::Idle {
        self.handle
    }

    pub closed spec fn callback(&self) -> u64 {
        self.callback@
    }

    /// Schedules `cb` on the started idle handle `handle`.
    pub fn new(handle: raw::Idle, cb: Callback) -> (r: OneShot)
        ensures
            r.spec_handle() == handle,
            r.callback() == cb@,
    {
        OneShot { handle, callback: cb }
    }

    /// The loop turn came: the handle is to be closed and freed, then the
    /// callback run. Consuming the one-shot makes it fire only once.
    pub fn fire(self) -> (r: (raw::Idle, Callback))
        ensures
            r.0 == self.spec_handle(),
            r.1@ == self.callback(),
    {
        (self.handle, self.callback)
    }
}

} // verus!
