use vstd::prelude::*;
use crate::error::{UvError, UvResult, EBUSY};

verus! {

/// A reactor loop: its identity and its data slot, which counts the tasks
/// currently parked on it.
#[derive(Debug)]
pub struct Loop {
    handle: usize,
    data: usize,
    closed: bool,
}

impl Loop {
    pub closed spec fn id(&self) -> usize {
        self.handle
    }

    /// The number of tasks parked on this loop.
    pub closed spec fn blockers(&self) -> usize {
        self.data
    }

    pub closed spec fn is_closed(&self) -> bool {
        self.closed
    }

    /// Wraps a freshly initialised reactor loop; its blocker count is zero.
    pub fn new(handle: usize) -> (r: Loop)
        ensures
            r.id() == handle,
            r.blockers() == 0,
            !r.is_closed(),
    {
        Loop { handle, data: 0, closed: false }
    }

    /// The identity of the reactor loop.
    pub fn raw(&self) -> (r: usize)
        ensures
            r == self.id(),
    {
        self.handle
    }

    pub fn get_data(&self) -> (r: usize)
        ensures
            r == self.blockers(),
    {
        self.data
    }

    pub fn set_data(&mut self, data: usize)
        ensures
            final(self).blockers() == data,
            final(self).id() == old(self).id(),
            final(self).is_closed() == old(self).is_closed(),
    {
        self.data = data;
    }

    /// Closes the loop. A loop on which tasks are still parked is busy and
    /// stays open.
    pub fn close(&mut self) -> (r: UvResult<()>)
        requires
            !old(self).is_closed(),
        ensures
            r.is_ok() <==> old(self).blockers() == 0,
            r.is_ok() ==> final(self).is_closed(),
            r.is_err() ==> *final(self) == *old(self) && r == Err::<(), UvError>(UvError(EBUSY)),
            final(self).id() == old(self).id(),
            final(self).blockers() == old(self).blockers(),
    {
        if self.data == 0 {
            self.closed = true;
            Ok(())
        } else {
            Err(UvError(EBUSY))
        }
    }
}

/// A buffer handed to the reactor: the reactor fills at most `len` bytes.
#[derive(Clone, Copy, Debug, PartialEq, Eq, Structural)]
pub struct UvBuf {
    pub len: usize,
}

/// Describes `v` as a reactor buffer.
pub fn slice_to_uv_buf(v: &[u8]) -> (r: UvBuf)
    ensures
        r.len == v@.len(),
{
    UvBuf { len: v.len() }
}

/// An async handle: fired from any thread, its callback runs on the loop.
#[derive(Clone, Copy, Debug, PartialEq, Eq, Structural)]
pub struct Async {
    handle: usize,
}

impl Async {
    pub closed spec fn id(&self) -> usize {
        self.handle
    }

    /// Wraps the reactor's async object.
    pub fn from_raw(handle: usize) -> (r: Async)
        ensures
            r.id() == handle,
    {
        Async { handle }
    }

    pub fn raw(&self) -> (r: usize)
        ensures
            r == self.id(),
    {
        self.handle
    }
}

/// A connect request.
#[derive(Clone, Copy, Debug, PartialEq, Eq, Structural)]
pub struct Connect {
    handle: usize,
}

impl Connect {
    pub closed spec fn id(&self) -> usize {
        self.handle
    }

    /// Wraps the reactor's connect object.
    pub fn from_raw(handle: usize) -> (r: Connect)
        ensures
            r.id() == handle,
    {
        Connect { handle }
    }

    pub fn raw(&self) -> (r: usize)
        ensures
            r == self.id(),
    {
        self.handle
    }
}

/// A file-system request.
#[derive(Clone, Copy, Debug, PartialEq, Eq, Structural)]
pub struct Fs {
    handle: usize,
}

impl Fs {
    pub closed spec fn id(&self) -> usize {
        self.handle
    }

    /// Wraps the reactor's fs object.
    pub fn from_raw(handle: usize) -> (r: Fs)
        ensures
            r.id() == handle,
    {
        Fs { handle }
    }

    pub fn raw(&self) -> (r: usize)
        ensures
            r == self.id(),
    {
        self.handle
    }
}

/// A host lookup request.
#[derive(Clone, Copy, Debug, PartialEq, Eq, Structural)]
pub struct GetAddrInfo {
    handle: usize,
}

impl GetAddrInfo {
    pub closed spec fn id(&self) -> usize {
        self.handle
    }

    /// Wraps the reactor's getaddrinfo object.
    pub fn from_raw(handle: usize) -> (r: GetAddrInfo)
        ensures
            r.id() == handle,
    {
        GetAddrInfo { handle }
    }

    pub fn raw(&self) -> (r: usize)
        ensures
            r == self.id(),
    {
        self.handle
    }
}

/// An idle handle: its callback runs on every loop turn while started.
#[derive(Clone, Copy, Debug, PartialEq, Eq, Structural)]
pub struct Idle {
    handle: usize,
}

impl Idle {
    pub closed spec fn id(&self) -> usize {
        self.handle
    }

    /// Wraps the reactor's idle object.
    pub fn from_raw(handle: usize) -> (r: Idle)
        ensures
            r.id() == handle,
    {
        Idle { handle }
    }

    pub fn raw(&self) -> (r: usize)
        ensures
            r == self.id(),
    {
        self.handle
    }
}

/// A named pipe or UNIX socket handle.
#[derive(Clone, Copy, Debug, PartialEq, Eq, Structural)]
pub struct Pipe {
    handle: usize,
}

impl Pipe {
    pub closed spec fn id(&self) -> usize {
        self.handle
    }

    /// Wraps the reactor's pipe object.
    pub fn from_raw(handle: usize) -> (r: Pipe)
        ensures
            r.id() == handle,
    {
        Pipe { handle }
    }

    pub fn raw(&self) -> (r: usize)
        ensures
            r == self.id(),
    {
        self.handle
    }
}

/// A child process handle.
#[derive(Clone, Copy, Debug, PartialEq, Eq, Structural)]
pub struct Process {
    handle: usize,
}

impl Process {
    pub closed spec fn id(&self) -> usize {
        self.handle
    }

    /// Wraps the reactor's process object.
    pub fn from_raw(handle: usize) -> (r: Process)
        ensures
            r.id() == handle,
    {
        Process { handle }
    }

    pub fn raw(&self) -> (r: usize)
        ensures
            r == self.id(),
    {
        self.handle
    }
}

/// A write-side shutdown request.
#[derive(Clone, Copy, Debug, PartialEq, Eq, Structural)]
pub struct Shutdown {
    handle: usize,
}

impl Shutdown {
    pub closed spec fn id(&self) -> usize {
        self.handle
    }

    /// Wraps the reactor's shutdown object.
    pub fn from_raw(handle: usize) -> (r: Shutdown)
        ensures
            r.id() == handle,
    {
        Shutdown { handle }
    }

    pub fn raw(&self) -> (r: usize)
        ensures
            r == self.id(),
    {
        self.handle
    }
}

/// A signal handle.
#[derive(Clone, Copy, Debug, PartialEq, Eq, Structural)]
pub struct Signal {
    handle: usize,
}

impl Signal {
    pub closed spec fn id(&self) -> usize {
        self.handle
    }

    /// Wraps the reactor's signal object.
    pub fn from_raw(handle: usize) -> (r: Signal)
        ensures
            r.id() == handle,
    {
        Signal { handle }
    }

    pub fn raw(&self) -> (r: usize)
        ensures
            r == self.id(),
    {
        self.handle
    }
}

/// A TCP handle.
#[derive(Clone, Copy, Debug, PartialEq, Eq, Structural)]
pub struct Tcp {
    handle: usize,
}

impl Tcp {
    pub closed spec fn id(&self) -> usize {
        self.handle
    }

    /// Wraps the reactor's tcp object.
    pub fn from_raw(handle: usize) -> (r: Tcp)
        ensures
            r.id() == handle,
    {
        Tcp { handle }
    }

    pub fn raw(&self) -> (r: usize)
        ensures
            r == self.id(),
    {
        self.handle
    }
}

/// A timer handle.
#[derive(Clone, Copy, Debug, PartialEq, Eq, Structural)]
pub struct Timer {
    handle: usize,
}

impl Timer {
    pub closed spec fn id(&self) -> usize {
        self.handle
    }

    /// Wraps the reactor's timer object.
    pub fn from_raw(handle: usize) -> (r: Timer)
        ensures
            r.id() == handle,
    {
        Timer { handle }
    }

    pub fn raw(&self) -> (r: usize)
        ensures
            r == self.id(),
    {
        self.handle
    }
}

/// A terminal handle.
#[derive(Clone, Copy, Debug, PartialEq, Eq, Structural)]
pub struct Tty {
    handle: usize,
}

impl Tty {
    pub closed spec fn id(&self) -> usize {
        self.handle
    }

    /// Wraps the reactor's tty object.
    pub fn from_raw(handle: usize) -> (r: Tty)
        ensures
            r.id() == handle,
    {
        Tty { handle }
    }

    pub fn raw(&self) -> (r: usize)
        ensures
            r == self.id(),
    {
        self.handle
    }
}

/// A UDP handle.
#[derive(Clone, Copy, Debug, PartialEq, Eq, Structural)]
pub struct Udp {
    handle: usize,
}

impl Udp {
    pub closed spec fn id(&self) -> usize {
        self.handle
    }

    /// Wraps the reactor's udp object.
    pub fn from_raw(handle: usize) -> (r: Udp)
        ensures
            r.id() == handle,
    {
        Udp { handle }
    }

    pub fn raw(&self) -> (r: usize)
        ensures
            r == self.id(),
    {
        self.handle
    }
}

/// A UDP send request.
#[derive(Clone, Copy, Debug, PartialEq, Eq, Structural)]
pub struct UdpSend {
    handle: usize,
}

impl UdpSend {
    pub closed spec fn id(&self) -> usize {
        self.handle
    }

    /// Wraps the reactor's udpsend object.
    pub fn from_raw(handle: usize) -> (r: UdpSend)
        ensures
            r.id() == handle,
    {
        UdpSend { handle }
    }

    pub fn raw(&self) -> (r: usize)
        ensures
            r == self.id(),
    {
        self.handle
    }
}

/// A stream write request.
#[derive(Clone, Copy, Debug, PartialEq, Eq, Structural)]
pub struct Write {
    handle: usize,
}

impl Write {
    pub closed spec fn id(&self) -> usize {
        self.handle
    }

    /// Wraps the reactor's write object.
    pub fn from_raw(handle: usize) -> (r: Write)
        ensures
            r.id() == handle,
    {
        Write { handle }
    }

    pub fn raw(&self) -> (r: usize)
        ensures
            r == self.id(),
    {
        self.handle
    }
}

/// Where a reactor handle stands in its life.
#[derive(Clone, Copy, Debug, PartialEq, Eq, Structural)]
pub enum LifeState {
    Open,
    /// Close submitted; the close callback has not fired yet.
    Closing,
    /// The close callback fired; the memory may be released.
    Closed,
    Freed,
}

/// The life of one reactor handle: closing is asynchronous, and the memory
/// is released only after the one close callback.
pub struct HandleLife {
    state: LifeState,
    close_callbacks: Ghost<nat>,
}

impl HandleLife {
    pub closed spec fn state(&self) -> LifeState {
        self.state
    }

    /// How many close callbacks have fired for the handle.
    pub closed spec fn close_callbacks(&self) -> nat {
        self.close_callbacks@
    }

    pub open spec fn wf(&self) -> bool {
        self.close_callbacks() == (if self.state() == LifeState::Open || self.state() == LifeState::Closing {
            0nat
        } else {
            1nat
        })
    }

    pub fn new() -> (r: HandleLife)
        ensures
            r.wf(),
            r.state() == LifeState::Open,
    {
        HandleLife { state: LifeState::Open, close_callbacks: Ghost(0) }
    }

    /// Submits the close.
    pub fn close(&mut self)
        requires
            old(self).wf(),
            old(self).state() == LifeState::Open,
        ensures
            final(self).wf(),
            final(self).state() == LifeState::Closing,
    {
        self.state = LifeState::Closing;
    }

    /// The close callback fired.
    pub fn close_cb(&mut self)
        requires
            old(self).wf(),
            old(self).state() == LifeState::Closing,
        ensures
            final(self).wf(),
            final(self).state() == LifeState::Closed,
            final(self).close_callbacks() == old(self).close_callbacks() + 1,
    {
        self.state = LifeState::Closed;
        self.close_callbacks = Ghost(self.close_callbacks@ + 1);
    }

    /// Releases the handle's memory.
    pub fn free(&mut self)
        requires
            old(self).wf(),
            old(self).state() == LifeState::Closed,
        ensures
            final(self).wf(),
            final(self).state() == LifeState::Freed,
            final(self).close_callbacks() == old(self).close_callbacks(),
    {
        self.state = LifeState::Freed;
    }

    pub fn is_freed(&self) -> (r: bool)
        ensures
            r == (self.state() == LifeState::Freed),
    {
        self.state == LifeState::Freed
    }

    /// Whether the close was submitted.
    pub fn is_closing_or_later(&self) -> (r: bool)
        ensures
            r == (self.state() != LifeState::Open),
    {
        self.state != LifeState::Open
    }
}

/// A freed handle had exactly one close callback, and at no time has a
/// handle had more than one.
pub proof fn lemma_one_close_callback(h: HandleLife)
    requires
        h.wf(),
    ensures
        h.close_callbacks() <= 1,
        h.state() == LifeState::Freed ==> h.close_callbacks() == 1,
{
}

/// A reactor object that lives in memory allocated by this crate.
pub trait Allocated: Copy {
    /// The address of the object.
    fn address(&self) -> usize;
}

impl Allocated for Async {
    fn address(&self) -> usize {
        self.handle
    }
}

impl Allocated for Connect {
    fn address(&self) -> usize {
        self.handle
    }
}

impl Allocated for Fs {
    fn address(&self) -> usize {
        self.handle
    }
}

impl Allocated for GetAddrInfo {
    fn address(&self) -> usize {
        self.handle
    }
}

impl Allocated for Idle {
    fn address(&self) -> usize {
        self.handle
    }
}

impl Allocated for Pipe {
    fn address(&self) -> usize {
        self.handle
    }
}

impl Allocated for Process {
    fn address(&self) -> usize {
        self.handle
    }
}

impl Allocated for Shutdown {
    fn address(&self) -> usize {
        self.handle
    }
}

impl Allocated for Signal {
    fn address(&self) -> usize {
        self.handle
    }
}

impl Allocated for Tcp {
    fn address(&self) -> usize {
        self.handle
    }
}

impl Allocated for Timer {
    fn address(&self) -> usize {
        self.handle
    }
}

impl Allocated for Tty {
    fn address(&self) -> usize {
        self.handle
    }
}

impl Allocated for Udp {
    fn address(&self) -> usize {
        self.handle
    }
}

impl Allocated for UdpSend {
    fn address(&self) -> usize {
        self.handle
    }
}

impl Allocated for Write {
    fn address(&self) -> usize {
        self.handle
    }
}

/// An allocation that is released when its owner is done with it, unless
/// handed over (`unwrap`) to a reactor that releases it later.
#[derive(Debug)]
pub struct Raw<T> {
    obj: Option<T>,
}

impl<T: Allocated> Raw<T> {
    pub closed spec fn spec_obj(&self) -> Option<T> {
        self.obj
    }

    /// Owns the freshly allocated `obj`.
    pub fn new(obj: T) -> (r: Raw<T>)
        ensures
            r.spec_obj() == Some(obj),
    {
        Raw { obj: Some(obj) }
    }

    /// Takes ownership of an existing allocation, to release it.
    pub fn wrap(obj: T) -> (r: Raw<T>)
        ensures
            r.spec_obj() == Some(obj),
    {
        Raw { obj: Some(obj) }
    }

    /// The allocated object.
    pub fn get(&self) -> (r: T)
        requires
            self.spec_obj().is_some(),
        ensures
            r == self.spec_obj().unwrap(),
    {
        *self.obj.as_ref().unwrap()
    }

    /// Hands the allocation over: this owner will not release it.
    pub fn unwrap(&mut self) -> (r: T)
        requires
            old(self).spec_obj().is_some(),
        ensures
            r == old(self).spec_obj().unwrap(),
            final(self).spec_obj().is_none(),
    {
        self.obj.take().unwrap()
    }

    /// Whether this owner must release the allocation when dropped.
    pub fn must_free(&self) -> (r: bool)
        ensures
            r == self.spec_obj().is_some(),
    {
        self.obj.is_some()
    }
}

} // verus!
