use vstd::prelude::*;
use crate::error::{UvError, UvResult, ECANCELED};
use crate::event_loop::EventLoop;
use crate::homing::HomeHandle;
use crate::raw;
use crate::stream::Duplex;
use crate::task::BlockedTask;
use crate::timeout::{AcceptTimeout, TimerCommand, accept_answer, fresh_client, timer_ms};

verus! {

/// A connected pipe stream.
pub type Pipe = Duplex<raw::Pipe>;

/// How many connections the reactor queues before they are accepted.
pub const PIPE_BACKLOG: i32 = 128;

/// A bound pipe socket, not yet listening.
#[derive(Debug)]
pub struct PipeListener {
    handle: raw::Pipe,
    home: HomeHandle,
}

/// A listening pipe socket, with the connections accepted for it.
#[derive(Debug)]
pub struct PipeAcceptor {
    listener: PipeListener,
    access: AcceptTimeout<Pipe>,
}

impl PipeListener {
    pub closed spec fn spec_handle(&self) -> raw::Pipe {
        self.handle
    }

    pub closed spec fn spec_home(&self) -> HomeHandle {
        self.home
    }

    /// The listener over the bound reactor socket `handle` of `eloop`.
    pub fn bind_on(eloop: &mut EventLoop, handle: raw::Pipe) -> (r: PipeListener)
        requires
            old(eloop).spec_pool().is_some(),
        ensures
            r.spec_handle() == handle,
            r.spec_home().spec_id() == old(eloop).id(),
            *final(eloop) == *old(eloop),
    {
        PipeListener { handle, home: eloop.make_handle() }
    }

    pub fn raw(&self) -> (r: raw::Pipe)
        ensures
            r == self.spec_handle(),
    {
        self.handle
    }

    pub fn home(&self) -> (r: &HomeHandle)
        ensures
            *r == self.spec_home(),
    {
        &self.home
    }

    /// Turns the listener into an acceptor with nothing pending; the reactor
    /// is then asked to listen with the returned backlog.
    pub fn listen(self) -> (r: (PipeAcceptor, i32))
        ensures
            r.0.spec_listener() == self,
            r.0.spec_access().wf(),
            r.0.spec_access().pending().len() == 0,
            r.0.spec_access().blocked().is_none(),
            !r.0.spec_access().closed(),
            r.0.spec_access().inner().clients() == seq![fresh_client()],
            r.1 == PIPE_BACKLOG,
    {
        (PipeAcceptor { listener: self, access: AcceptTimeout::new() }, PIPE_BACKLOG)
    }
}

impl PipeAcceptor {
    pub closed spec fn spec_listener(&self) -> PipeListener {
        self.listener
    }

    pub closed spec fn spec_access(&self) -> AcceptTimeout<Pipe> {
        self.access
    }

    pub fn raw(&self) -> (r: raw::Pipe)
        ensures
            r == self.spec_listener().spec_handle(),
    {
        self.listener.handle
    }

    pub fn home(&self) -> (r: &HomeHandle)
        ensures
            *r == self.spec_listener().spec_home(),
    {
        &self.listener.home
    }

    /// The queue of accepted connections, with its arbitration and timeout.
    pub fn access(&mut self) -> (r: &mut AcceptTimeout<Pipe>)
        ensures
            *r == old(self).spec_access(),
            final(self).spec_access() == *final(r),
            final(self).spec_listener() == old(self).spec_listener(),
    {
        &mut self.access
    }

    /// The reactor's connection callback: a successful status brings the
    /// accepted connection (or the error of accepting it), any other status
    /// is itself the error. It is queued, and the parked acceptor, if any,
    /// handed back to be reawakened.
    pub fn listen_cb(&mut self, status: i32, accepted: Option<UvResult<Pipe>>) -> (r: Option<BlockedTask>)
        requires
            old(self).spec_access().wf(),
            status != ECANCELED,
            status == 0 ==> accepted.is_some(),
        ensures
            final(self).spec_access().wf(),
            final(self).spec_access().pending() == old(self).spec_access().pending().push(
                if status == 0 { accepted.unwrap() } else { Err::<Pipe, UvError>(UvError(status)) }),
            r == old(self).spec_access().blocked(),
            final(self).spec_access().blocked().is_none(),
            final(self).spec_access().closed() == old(self).spec_access().closed(),
            final(self).spec_listener() == old(self).spec_listener(),
    {
        let msg = if status == 0 {
            match accepted {
                Some(m) => m,
                None => Err(UvError(status)),
            }
        } else {
            Err(UvError(status))
        };
        self.access.push(msg)
    }

    /// What accepting on clone `c` answers at once (see
    /// `AcceptTimeout::accept`).
    pub fn accept(&mut self, c: usize) -> (r: Option<UvResult<Pipe>>)
        requires
            old(self).spec_access().wf(),
            c < old(self).spec_access().inner().clients().len(),
        ensures
            final(self).spec_access().wf(),
            r == accept_answer(old(self).spec_access().pending(), old(self).spec_access().closed(),
                old(self).spec_access().spec_timed_out(c)),
            final(self).spec_listener() == old(self).spec_listener(),
    {
        self.access.accept(c)
    }

    /// Sets the accept timeout of clone `c` in milliseconds (`None` clears
    /// it).
    pub fn set_timeout(&mut self, c: usize, dur: Option<i64>) -> (r: TimerCommand)
        requires
            old(self).spec_access().wf(),
            c < old(self).spec_access().inner().clients().len(),
        ensures
            final(self).spec_access().wf(),
            final(self).spec_access().pending() == old(self).spec_access().pending(),
            final(self).spec_access().closed() == old(self).spec_access().closed(),
            !final(self).spec_access().spec_timed_out(c),
            final(self).spec_access().inner().clients().len() == old(self).spec_access().inner().clients().len(),
            final(self).spec_access().inner().acc().holder() == old(self).spec_access().inner().acc().holder(),
            final(self).spec_access().inner().acc().waiters() == old(self).spec_access().inner().acc().waiters(),
            final(self).spec_access().blocked() == old(self).spec_access().blocked(),
            final(self).spec_listener() == old(self).spec_listener(),
            r == (match dur {
                Some(ms) => TimerCommand::Start { ms: timer_ms(ms), create: !old(self).spec_access().inner().has_timer(c) },
                None => if old(self).spec_access().inner().has_timer(c) { TimerCommand::Stop } else { TimerCommand::Keep },
            }),
    {
        self.access.set_timeout(c, dur)
    }

    /// Stops accepting: later accepts see `EOF` once nothing is pending,
    /// and the parked acceptor, if any, is handed back to be reawakened.
    pub fn close_accept(&mut self) -> (r: Option<BlockedTask>)
        requires
            old(self).spec_access().wf(),
        ensures
            final(self).spec_access().wf(),
            final(self).spec_access().closed(),
            r == old(self).spec_access().blocked(),
            final(self).spec_access().blocked().is_none(),
            final(self).spec_access().pending() == old(self).spec_access().pending(),
            final(self).spec_access().inner().clients() == old(self).spec_access().inner().clients(),
            final(self).spec_access().inner().acc().holder() == old(self).spec_access().inner().acc().holder(),
            final(self).spec_access().inner().acc().waiters() == old(self).spec_access().inner().acc().waiters(),
            final(self).spec_listener() == old(self).spec_listener(),
    {
        self.access.close()
    }
}

} // verus!
