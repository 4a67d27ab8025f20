use vstd::prelude::*;
use crate::access::Access;
use crate::error::{UvError, UvResult, ECANCELED};
use crate::event_loop::EventLoop;
use crate::homing::HomeHandle;
use crate::net::SocketAddr;
use crate::raw::{self, UvBuf};
use crate::task::{BlockedTask, RequestCtx, status_result};
use crate::timeout::{AccessTimeout, ClientTimeout, Guard, TimerCommand, State, Client, fresh_client, timer_ms};

verus! {

/// The receive in progress.
#[derive(Debug)]
pub struct UdpRecvCtx {
    task: Option<BlockedTask>,
    orig: UvBuf,
    buf: Option<UvBuf>,
    result: Option<(isize, Option<SocketAddr>)>,
    attached: bool,
}

/// The outcome of a receive: a negative count is an error code; otherwise
/// the datagram's length and its sender.
pub open spec fn recv_result(r: (isize, Option<SocketAddr>)) -> UvResult<(usize, SocketAddr)> {
    if r.0 < 0 { Err(UvError(r.0 as i32)) } else { Ok((r.0 as usize, r.1.unwrap())) }
}

/// A UDP socket.
#[derive(Debug)]
pub struct Udp {
    handle: raw::Udp,
    home: HomeHandle,
    read_access: AccessTimeout<()>,
    write_access: Access<()>,
    recv: Option<UdpRecvCtx>,
    send: Option<RequestCtx>,
}

impl Udp {
    pub closed spec fn spec_handle(&self) -> raw::Udp {
        self.handle
    }

    pub closed spec fn spec_home(&self) -> HomeHandle {
        self.home
    }

    pub closed spec fn spec_read_access(&self) -> AccessTimeout<()> {
        self.read_access
    }

    pub closed spec fn spec_write_access(&self) -> Access<()> {
        self.write_access
    }

    pub closed spec fn receiving(&self) -> bool {
        self.recv.is_some()
    }

    pub closed spec fn recv_attached(&self) -> bool {
        self.recv.is_some() && self.recv.unwrap().attached
    }

    pub closed spec fn recv_task(&self) -> Option<BlockedTask> {
        self.recv.unwrap().task
    }

    pub closed spec fn recv_buf(&self) -> Option<UvBuf> {
        self.recv.unwrap().buf
    }

    pub closed spec fn recv_orig_buf(&self) -> UvBuf {
        self.recv.unwrap().orig
    }

    pub closed spec fn recv_outcome(&self) -> Option<(isize, Option<SocketAddr>)> {
        self.recv.unwrap().result
    }

    pub closed spec fn spec_send(&self) -> Option<RequestCtx> {
        self.send
    }

    /// A recorded outcome is never an empty datagram, and a datagram has a
    /// sender.
    pub open spec fn wf(&self) -> bool {
        &&& self.spec_read_access().wf()
        &&& self.spec_write_access().wf()
        &&& self.receiving() ==> (self.recv_outcome() matches Some(o) ==> o.0 != 0 && (o.0 >= 0 ==> o.1.is_some()))
    }

    /// The socket over the bound reactor handle `handle` of `eloop`.
    pub fn bind_on(eloop: &mut EventLoop, handle: raw::Udp) -> (r: Udp)
        requires
            old(eloop).spec_pool().is_some(),
        ensures
            r.wf(),
            r.spec_handle() == handle,
            r.spec_home().spec_id() == old(eloop).id(),
            !r.receiving(),
            r.spec_send().is_none(),
            r.spec_read_access().clients() == seq![fresh_client()],
            r.spec_read_access().acc().holder().is_none(),
            r.spec_write_access().holder().is_none(),
            *final(eloop) == *old(eloop),
    {
        Udp {
            handle,
            home: eloop.make_handle(),
            read_access: AccessTimeout::new(()),
            write_access: Access::new(()),
            recv: None,
            send: None,
        }
    }

    pub fn raw(&self) -> (r: raw::Udp)
        ensures
            r == self.spec_handle(),
    {
        self.handle
    }

    pub fn home(&self) -> (r: &HomeHandle)
        ensures
            *r == self.spec_home(),
    {
        &self.home
    }

    pub fn read_access(&mut self) -> (r: &mut AccessTimeout<()>)
        ensures
            *r == old(self).spec_read_access(),
            final(self).spec_read_access() == *final(r),
            final(self).spec_write_access() == old(self).spec_write_access(),
            final(self).receiving() == old(self).receiving(),
            final(self).recv_attached() == old(self).recv_attached(),
            final(self).recv_task() == old(self).recv_task(),
            final(self).recv_outcome() == old(self).recv_outcome(),
            final(self).spec_send() == old(self).spec_send(),
    {
        &mut self.read_access
    }

    pub fn write_access(&mut self) -> (r: &mut Access<()>)
        ensures
            *r == old(self).spec_write_access(),
            final(self).spec_write_access() == *final(r),
            final(self).spec_read_access() == old(self).spec_read_access(),
            final(self).receiving() == old(self).receiving(),
            final(self).recv_attached() == old(self).recv_attached(),
            final(self).recv_task() == old(self).recv_task(),
            final(self).recv_outcome() == old(self).recv_outcome(),
            final(self).spec_send() == old(self).spec_send(),
    {
        &mut self.write_access
    }

    /// Starts receiving into `buf`, by the holder of the read access.
    pub fn recv_from(&mut self, guard: &Guard, buf: UvBuf)
        requires
            old(self).wf(),
            old(self).spec_read_access().acc().holder() == Some(guard.owner()),
            !old(self).receiving(),
        ensures
            final(self).wf(),
            final(self).receiving(),
            final(self).recv_attached(),
            final(self).recv_buf() == Some(buf),
            final(self).recv_orig_buf() == buf,
            final(self).recv_task().is_none(),
            final(self).recv_outcome().is_none(),
            final(self).spec_read_access() == old(self).spec_read_access(),
            final(self).spec_write_access() == old(self).spec_write_access(),
    {
        self.recv = Some(UdpRecvCtx { task: None, orig: buf, buf: Some(buf), result: None, attached: true });
    }

    /// Parks the receiving task.
    pub fn park_receiver(&mut self, task: BlockedTask)
        requires
            old(self).wf(),
            old(self).receiving(),
            old(self).recv_task().is_none(),
        ensures
            final(self).wf(),
            final(self).receiving(),
            final(self).recv_task() == Some(task),
            final(self).recv_attached() == old(self).recv_attached(),
            final(self).recv_buf() == old(self).recv_buf(),
            final(self).recv_outcome() == old(self).recv_outcome(),
            final(self).spec_read_access() == old(self).spec_read_access(),
    {
        let mut cx = self.recv.take().unwrap();
        cx.task = Some(task);
        self.recv = Some(cx);
    }

    /// The reactor asks for the buffer: it is handed out once per datagram.
    pub fn alloc_cb(&mut self) -> (r: UvBuf)
        requires
            old(self).wf(),
            old(self).receiving(),
            old(self).recv_buf().is_some(),
        ensures
            final(self).wf(),
            Some(r) == old(self).recv_buf(),
            final(self).receiving(),
            final(self).recv_buf().is_none(),
            final(self).recv_orig_buf() == old(self).recv_orig_buf(),
            final(self).recv_attached() == old(self).recv_attached(),
            final(self).recv_task() == old(self).recv_task(),
            final(self).recv_outcome() == old(self).recv_outcome(),
            final(self).spec_read_access() == old(self).spec_read_access(),
    {
        let mut cx = self.recv.take().unwrap();
        let b = cx.buf.take().unwrap();
        self.recv = Some(cx);
        b
    }

    /// The reactor's receive callback with `nread` bytes from `addr`. An
    /// empty callback (nothing was there to read) is ignored: the buffer is
    /// offered again and the receive goes on (`None`). Otherwise receiving
    /// stops, the outcome is recorded and the receiver handed back.
    pub fn recv_cb(&mut self, nread: isize, addr: Option<SocketAddr>) -> (r: Option<BlockedTask>)
        requires
            old(self).wf(),
            old(self).recv_attached(),
            nread != ECANCELED as isize,
            nread > 0 ==> addr.is_some(),
            nread != 0 ==> old(self).recv_task().is_some(),
        ensures
            final(self).wf(),
            final(self).receiving(),
            nread == 0 ==> r.is_none()
                && final(self).recv_buf() == Some(old(self).recv_orig_buf())
                && final(self).recv_outcome() == old(self).recv_outcome()
                && final(self).recv_task() == old(self).recv_task()
                && final(self).recv_attached(),
            nread != 0 ==> r == old(self).recv_task()
                && final(self).recv_outcome() == Some((nread, addr))
                && final(self).recv_task().is_none()
                && final(self).recv_attached(),
            final(self).recv_orig_buf() == old(self).recv_orig_buf(),
            final(self).spec_read_access() == old(self).spec_read_access(),
    {
        let mut cx = self.recv.take().unwrap();
        if nread == 0 {
            cx.buf = Some(cx.orig);
            self.recv = Some(cx);
            return None;
        }
        cx.result = Some((nread, addr));
        let t = cx.task.take();
        self.recv = Some(cx);
        t
    }

    /// The read timeout fired while the receiver was parked: the receive is
    /// canceled with `ECANCELED` and the receiver handed back.
    pub fn cancel_read(&mut self) -> (r: Option<BlockedTask>)
        requires
            old(self).wf(),
        ensures
            final(self).wf(),
            !old(self).recv_attached() ==> r.is_none() && *final(self) == *old(self),
            old(self).recv_attached() ==> r == old(self).recv_task()
                && final(self).receiving()
                && !final(self).recv_attached()
                && final(self).recv_task().is_none()
                && final(self).recv_outcome() == Some((ECANCELED as isize, None::<SocketAddr>)),
            final(self).spec_read_access() == old(self).spec_read_access(),
    {
        match self.recv.take() {
            Some(mut cx) => {
                if !cx.attached {
                    self.recv = Some(cx);
                    return None;
                }
                cx.attached = false;
                cx.result = Some((ECANCELED as isize, None));
                let t = cx.task.take();
                self.recv = Some(cx);
                t
            },
            None => None,
        }
    }

    /// The receiver runs again: the receive is over. A datagram is never
    /// reported empty.
    pub fn recv_finish(&mut self) -> (r: UvResult<(usize, SocketAddr)>)
        requires
            old(self).wf(),
            old(self).receiving(),
            old(self).recv_outcome().is_some(),
        ensures
            final(self).wf(),
            r == recv_result(old(self).recv_outcome().unwrap()),
            r matches Ok((n, _)) ==> n > 0,
            !final(self).receiving(),
            final(self).spec_read_access() == old(self).spec_read_access(),
            final(self).spec_write_access() == old(self).spec_write_access(),
    {
        let cx = self.recv.take().unwrap();
        let (n, addr) = cx.result.unwrap();
        if n < 0 {
            Err(UvError(n as i32))
        } else {
            Ok((n as usize, addr.unwrap()))
        }
    }

    /// Starts sending, by the task of `owner` that holds the write access:
    /// until the send completes, its outcome reads `ECANCELED`.
    pub fn send_to(&mut self, owner: u64)
        requires
            old(self).wf(),
            old(self).spec_write_access().holder() == Some(owner),
            old(self).spec_send().is_none(),
        ensures
            final(self).wf(),
            final(self).spec_send() == Some(RequestCtx::new_spec(ECANCELED)),
            final(self).receiving() == old(self).receiving(),
            final(self).spec_read_access() == old(self).spec_read_access(),
            final(self).spec_write_access() == old(self).spec_write_access(),
    {
        self.send = Some(RequestCtx::new(ECANCELED));
    }

    /// Parks the sender once the reactor accepted the send.
    pub fn park_sender(&mut self, task: BlockedTask)
        requires
            old(self).wf(),
            old(self).spec_send() matches Some(c) && c.task().is_none(),
        ensures
            final(self).wf(),
            final(self).spec_send() matches Some(c) && c.task() == Some(task)
                && c.status() == old(self).spec_send().unwrap().status(),
    {
        let mut c = self.send.take().unwrap();
        c.park(task);
        self.send = Some(c);
    }

    /// The send completed with `status`: the sender is handed back.
    pub fn send_cb(&mut self, status: i32) -> (r: BlockedTask)
        requires
            old(self).wf(),
            old(self).spec_send() matches Some(c) && c.task().is_some(),
        ensures
            final(self).wf(),
            Some(r) == old(self).spec_send().unwrap().task(),
            final(self).spec_send() matches Some(c) && c.status() == status && c.task().is_none(),
    {
        let mut c = self.send.take().unwrap();
        let t = c.complete(status);
        self.send = Some(c);
        t
    }

    /// The sender runs again: a negative status is the error.
    pub fn send_finish(&mut self) -> (r: UvResult<()>)
        requires
            old(self).wf(),
            old(self).spec_send().is_some(),
        ensures
            final(self).wf(),
            r == status_result(old(self).spec_send().unwrap().status()),
            final(self).spec_send().is_none(),
    {
        let c = self.send.take().unwrap();
        c.finish()
    }

    /// A new clone of the socket, sharing its arbitration, with a read
    /// timeout of its own; its index comes back.
    pub fn clone_handle(&mut self) -> (r: usize)
        requires
            old(self).wf(),
            old(self).spec_read_access().clients().len() < usize::MAX,
        ensures
            final(self).wf(),
            r == old(self).spec_read_access().clients().len(),
            final(self).spec_read_access().clients() == old(self).spec_read_access().clients().push(fresh_client()),
            final(self).spec_read_access().acc() == old(self).spec_read_access().acc(),
            final(self).spec_write_access() == old(self).spec_write_access(),
    {
        self.read_access.clone_client()
    }

    /// Sets the read timeout of clone `c` in milliseconds (`None` clears
    /// it).
    pub fn set_read_timeout(&mut self, c: usize, dur: Option<i64>) -> (r: TimerCommand)
        requires
            old(self).wf(),
            c < old(self).spec_read_access().clients().len(),
        ensures
            final(self).wf(),
            dur.is_none() ==> final(self).spec_read_access().clients() == old(self).spec_read_access().clients().update(
                c as int, ClientTimeout { state: State::NoTimeout, ..old(self).spec_read_access().clients()[c as int] }),
            dur.is_some() ==> final(self).spec_read_access().clients() == old(self).spec_read_access().clients().update(
                c as int, ClientTimeout {
                    state: State::TimeoutPending(Client::NoWaiter),
                    has_timer: true,
                    payload: old(self).spec_handle().id(),
                }),
            r == (match dur {
                Some(ms) => TimerCommand::Start { ms: timer_ms(ms), create: !old(self).spec_read_access().has_timer(c) },
                None => if old(self).spec_read_access().has_timer(c) { TimerCommand::Stop } else { TimerCommand::Keep },
            }),
            final(self).spec_read_access().acc() == old(self).spec_read_access().acc(),
    {
        let id = self.handle.raw();
        self.read_access.set_timeout(c, dur, id)
    }
}

} // verus!
