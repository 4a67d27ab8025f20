use vstd::prelude::*;
use crate::event_loop::EventLoop;
use crate::homing::HomeHandle;
use crate::raw;
use crate::timer::Callback;

verus! {

/// Listens for one signal at a time, running a callback on the loop when
/// it comes.
#[derive(Debug)]
pub struct Signal {
    handle: raw::Signal,
    home: HomeHandle,
    callback: Option<Callback>,
}

impl Signal {
    pub closed spec fn spec_handle(&self) -> raw::Signal {
        self.handle
    }

    pub closed spec fn spec_home(&self) -> HomeHandle {
        self.home
    }

    pub closed spec fn callback(&self) -> Option<Callback> {
        self.callback
    }

    pub fn new_on(eloop: &mut EventLoop, handle: raw::Signal) -> (r: Signal)
        requires
            old(eloop).spec_pool().is_some(),
        ensures
            r.spec_handle() == handle,
            r.spec_home().spec_id() == old(eloop).id(),
            r.callback().is_none(),
            *final(eloop) == *old(eloop),
    {
        Signal { handle, home: eloop.make_handle(), callback: None }
    }

    pub fn home(&self) -> (r: &HomeHandle)
        ensures
            *r == self.spec_home(),
    {
        &self.home
    }

    /// The reactor listens for the signal now: `cb` replaces the previous
    /// callback, which comes back, to be dropped away from the home loop.
    pub fn start(&mut self, cb: Callback) -> (r: Option<Callback>)
        ensures
            r == old(self).callback(),
            final(self).callback() == Some(cb),
            final(self).spec_handle() == old(self).spec_handle(),
            final(self).spec_home() == old(self).spec_home(),
    {
        let prev = self.callback.take();
        self.callback = Some(cb);
        prev
    }

    /// The reactor stopped listening: the callback comes back, to be
    /// dropped away from the home loop.
    pub fn stop(&mut self) -> (r: Option<Callback>)
        ensures
            r == old(self).callback(),
            final(self).callback().is_none(),
            final(self).spec_handle() == old(self).spec_handle(),
            final(self).spec_home() == old(self).spec_home(),
    {
        self.callback.take()
    }

    /// The signal came: the callback to run.
    pub fn signal_cb(&self) -> (r: u64)
        requires
            self.callback().is_some(),
        ensures
            r == self.callback().unwrap()@,
    {
        match &self.callback {
            Some(cb) => cb.id(),
            None => 0,
        }
    }
}

} // verus!
