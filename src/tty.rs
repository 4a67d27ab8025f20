use vstd::prelude::*;
use crate::error::{UvError, UvResult, EBADF};
use crate::event_loop::EventLoop;
use crate::homing::HomeHandle;
use crate::raw;
use crate::stream::Stream;

verus! {

/// The reactor's guess for a descriptor that is a terminal.
pub const UV_TTY: i32 = 14;

/// A terminal, read and written as a stream.
#[derive(Debug)]
pub struct Tty {
    home: HomeHandle,
    stream: Stream<raw::Tty>,
}

impl Tty {
    pub closed spec fn spec_home(&self) -> HomeHandle {
        self.home
    }

    pub closed spec fn spec_stream(&self) -> Stream<raw::Tty> {
        self.stream
    }

    /// A terminal over the reactor's tty handle for a descriptor, given the
    /// reactor's guess for that descriptor: anything but a terminal is
    /// refused with `EBADF`, and the handle is then not wrapped.
    pub fn new_on(eloop: &mut EventLoop, guess: i32, handle: raw::Tty) -> (r: UvResult<Tty>)
        requires
            old(eloop).spec_pool().is_some(),
        ensures
            guess != UV_TTY ==> r == Err::<Tty, UvError>(UvError(EBADF)),
            guess == UV_TTY ==> (r matches Ok(t)
                && t.spec_home().spec_id() == old(eloop).id()
                && t.spec_stream().hnd() == handle
                && t.spec_stream().wf()
                && !t.spec_stream().reading()
                && !t.spec_stream().writing()),
            *final(eloop) == *old(eloop),
    {
        if guess != UV_TTY {
            return Err(UvError(EBADF));
        }
        Ok(Tty { home: eloop.make_handle(), stream: Stream::new(handle) })
    }

    pub fn home(&self) -> (r: &HomeHandle)
        ensures
            *r == self.spec_home(),
    {
        &self.home
    }

    pub fn stream(&mut self) -> (r: &mut Stream<raw::Tty>)
        ensures
            *r == old(self).spec_stream(),
            final(self).spec_stream() == *final(r),
            final(self).spec_home() == old(self).spec_home(),
    {
        &mut self.stream
    }

    /// Every `Tty` is a terminal.
    pub fn isatty(&self) -> (r: bool)
        ensures
            r,
    {
        true
    }
}

} // verus!
