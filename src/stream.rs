use vstd::prelude::*;
use crate::access::Access;
use crate::error::{UvError, UvResult, ECANCELED, EOF};
use crate::homing::{HomeHandle, HomingMissile};
use crate::task::{RequestCtx, status_result};
use crate::timeout::{AccessTimeout, ClientTimeout, Guard, TimerCommand, State, Client, fresh_client, timer_ms};
use crate::raw::{UvBuf, Write};
use crate::task::BlockedTask;

verus! {

/// The read in progress on a stream.
#[derive(Debug)]
pub struct ReadContext {
    buf: Option<UvBuf>,
    len: usize,
    result: isize,
    task: Option<BlockedTask>,
    attached: bool,
}

/// The write in progress on a stream.
#[derive(Debug)]
pub struct WriteContext {
    req: Write,
    result: i32,
    task: Option<BlockedTask>,
}

/// The outcome of a read: a negative count is an error code.
pub open spec fn read_result(n: isize) -> UvResult<usize> {
    if n < 0 { Err(UvError(n as i32)) } else { Ok(n as usize) }
}

/// Reads and writes over one reactor stream, for a task already homed on
/// the stream's loop. At most one read and one write are in progress.
#[derive(Debug)]
pub struct Stream<H> {
    handle: H,
    read: Option<ReadContext>,
    write: Option<WriteContext>,
    last_write_req: Option<Write>,
}

impl<H> Stream<H> {
    pub closed spec fn hnd(&self) -> H {
        self.handle
    }

    /// The reactor stream.
    pub fn handle(&self) -> (r: &H)
        ensures
            *r == self.hnd(),
    {
        &self.handle
    }

    /// Whether a read is in progress.
    pub closed spec fn reading(&self) -> bool {
        self.read.is_some()
    }

    /// Whether a cancellation still reaches the read in progress.
    pub closed spec fn read_attached(&self) -> bool {
        self.read.is_some() && self.read.unwrap().attached
    }

    pub closed spec fn read_buf(&self) -> Option<UvBuf> {
        self.read.unwrap().buf
    }

    /// The length of the buffer that the read fills.
    pub closed spec fn read_len(&self) -> usize {
        self.read.unwrap().len
    }

    /// A read's count never exceeds its buffer.
    pub open spec fn wf(&self) -> bool {
        self.reading() ==> self.read_count() <= self.read_len()
    }

    pub closed spec fn read_task(&self) -> Option<BlockedTask> {
        self.read.unwrap().task
    }

    pub closed spec fn read_count(&self) -> isize {
        self.read.unwrap().result
    }

    pub closed spec fn writing(&self) -> bool {
        self.write.is_some()
    }

    pub closed spec fn write_task(&self) -> Option<BlockedTask> {
        self.write.unwrap().task
    }

    pub closed spec fn write_status(&self) -> i32 {
        self.write.unwrap().result
    }

    /// The cached write request, reused by the next write.
    pub closed spec fn cached_req(&self) -> Option<Write> {
        self.last_write_req
    }

    pub fn new(handle: H) -> (r: Stream<H>)
        ensures
            r.wf(),
            r.hnd() == handle,
            !r.reading(),
            !r.writing(),
            r.cached_req().is_none(),
    {
        Stream { handle, read: None, write: None, last_write_req: None }
    }

    /// Starts a read into `buf`: the reactor may now be asked to read.
    pub fn read(&mut self, buf: UvBuf)
        requires
            !old(self).reading(),
        ensures
            final(self).wf(),
            final(self).reading(),
            final(self).read_attached(),
            final(self).read_buf() == Some(buf),
            final(self).read_len() == buf.len,
            final(self).read_task().is_none(),
            final(self).read_count() == 0,
            final(self).hnd() == old(self).hnd(),
            final(self).writing() == old(self).writing(),
            final(self).cached_req() == old(self).cached_req(),
    {
        self.read = Some(ReadContext { buf: Some(buf), len: buf.len, result: 0, task: None, attached: true });
    }

    /// Parks the reading task once the reactor accepted the read.
    pub fn park_reader(&mut self, task: BlockedTask)
        requires
            old(self).reading(),
            old(self).read_task().is_none(),
        ensures
            final(self).reading(),
            final(self).read_attached() == old(self).read_attached(),
            final(self).read_buf() == old(self).read_buf(),
            final(self).read_task() == Some(task),
            final(self).read_count() == old(self).read_count(),
            final(self).read_len() == old(self).read_len(),
            final(self).hnd() == old(self).hnd(),
    {
        let mut cx = self.read.take().unwrap();
        cx.task = Some(task);
        self.read = Some(cx);
    }

    /// The reactor asks for the buffer to read into: it is handed out once.
    pub fn alloc_cb(&mut self) -> (r: UvBuf)
        requires
            old(self).reading(),
            old(self).read_buf().is_some(),
        ensures
            Some(r) == old(self).read_buf(),
            final(self).reading(),
            final(self).read_buf().is_none(),
            final(self).read_attached() == old(self).read_attached(),
            final(self).read_task() == old(self).read_task(),
            final(self).read_count() == old(self).read_count(),
            final(self).read_len() == old(self).read_len(),
            final(self).hnd() == old(self).hnd(),
    {
        let mut cx = self.read.take().unwrap();
        let buf = cx.buf.take().unwrap();
        self.read = Some(cx);
        buf
    }

    /// The reactor read `nread` bytes into the buffer (or failed, when
    /// negative): reading stops, the count is recorded and the reader handed
    /// back to be reawakened. A canceled read never arrives here.
    pub fn read_cb(&mut self, nread: isize) -> (r: BlockedTask)
        requires
            old(self).reading(),
            old(self).read_task().is_some(),
            nread != ECANCELED as isize,
            nread <= old(self).read_len(),
        ensures
            Some(r) == old(self).read_task(),
            final(self).reading(),
            final(self).read_task().is_none(),
            final(self).read_count() == nread,
            final(self).read_len() == old(self).read_len(),
            final(self).read_attached() == old(self).read_attached(),
            final(self).hnd() == old(self).hnd(),
    {
        let mut cx = self.read.take().unwrap();
        cx.result = nread;
        let t = cx.task.take().unwrap();
        self.read = Some(cx);
        t
    }

    /// Cancels the read in progress with `reason` (a negative code): the
    /// parked reader, if any, is handed back to be reawakened. Without a
    /// read that a cancellation reaches, nothing happens.
    pub fn cancel_read(&mut self, reason: isize) -> (r: Option<BlockedTask>)
        requires
            reason < 0,
        ensures
            !old(self).read_attached() ==> r.is_none() && *final(self) == *old(self),
            old(self).read_attached() ==> r == old(self).read_task()
                && final(self).reading()
                && !final(self).read_attached()
                && final(self).read_task().is_none()
                && final(self).read_count() == reason
                && final(self).read_len() == old(self).read_len()
                && final(self).hnd() == old(self).hnd(),
    {
        match self.read.take() {
            Some(mut cx) => {
                if !cx.attached {
                    self.read = Some(cx);
                    return None;
                }
                cx.attached = false;
                cx.result = reason;
                let t = cx.task.take();
                self.read = Some(cx);
                t
            },
            None => None,
        }
    }

    /// The reader runs again: the read is over and its count or error is
    /// the outcome.
    pub fn read_finish(&mut self) -> (r: UvResult<usize>)
        requires
            old(self).wf(),
            old(self).reading(),
        ensures
            r == read_result(old(self).read_count()),
            r matches Ok(n) ==> n <= old(self).read_len(),
            !final(self).reading(),
            !final(self).read_attached(),
            final(self).hnd() == old(self).hnd(),
            final(self).writing() == old(self).writing(),
            final(self).cached_req() == old(self).cached_req(),
    {
        let cx = self.read.take().unwrap();
        if cx.result < 0 {
            Err(UvError(cx.result as i32))
        } else {
            Ok(cx.result as usize)
        }
    }

    /// The write request to use: the cached one, if any (else the caller
    /// allocates one).
    pub fn take_write_req(&mut self) -> (r: Option<Write>)
        ensures
            r == old(self).cached_req(),
            final(self).cached_req().is_none(),
            final(self).hnd() == old(self).hnd(),
            final(self).writing() == old(self).writing(),
            final(self).reading() == old(self).reading(),
    {
        self.last_write_req.take()
    }

    /// The reactor accepted the write on `req`: park the writer.
    pub fn park_writer(&mut self, req: Write, task: BlockedTask)
        requires
            !old(self).writing(),
        ensures
            final(self).writing(),
            final(self).write_task() == Some(task),
            final(self).write_status() == 0,
            final(self).hnd() == old(self).hnd(),
            final(self).cached_req() == old(self).cached_req(),
            final(self).reading() == old(self).reading(),
    {
        self.write = Some(WriteContext { req, result: 0, task: Some(task) });
    }

    /// The write completed with `status`: the writer is handed back.
    pub fn write_cb(&mut self, status: i32) -> (r: BlockedTask)
        requires
            old(self).writing(),
            old(self).write_task().is_some(),
        ensures
            Some(r) == old(self).write_task(),
            final(self).writing(),
            final(self).write_task().is_none(),
            final(self).write_status() == status,
            final(self).hnd() == old(self).hnd(),
            final(self).cached_req() == old(self).cached_req(),
    {
        let mut cx = self.write.take().unwrap();
        cx.result = status;
        let t = cx.task.take().unwrap();
        self.write = Some(cx);
        t
    }

    /// The writer runs again: the request is kept for the next write, and a
    /// non-zero status is the error.
    pub fn write_finish(&mut self) -> (r: UvResult<()>)
        requires
            old(self).writing(),
        ensures
            r == (if old(self).write_status() == 0 {
                Ok::<(), UvError>(())
            } else {
                Err::<(), UvError>(UvError(old(self).write_status()))
            }),
            !final(self).writing(),
            final(self).cached_req().is_some(),
            final(self).hnd() == old(self).hnd(),
            final(self).reading() == old(self).reading(),
    {
        let cx = self.write.take().unwrap();
        self.last_write_req = Some(cx.req);
        if cx.result == 0 {
            Ok(())
        } else {
            Err(UvError(cx.result))
        }
    }
}

/// What a read may start with: once the read half is closed, `EOF`.
pub open spec fn start_read_result(read_closed: bool) -> UvResult<()> {
    if read_closed { Err(UvError(EOF)) } else { Ok(()) }
}

/// A duplex stream object (TCP connection, pipe): the reactor stream and its
/// home, with the arbitration of its readers and of its writers.
#[derive(Debug)]
pub struct Duplex<H> {
    home: HomeHandle,
    stream: Stream<H>,
    write_access: Access<()>,
    read_access: AccessTimeout<()>,
    shutdown: Option<RequestCtx>,
}

impl<H: Copy> Duplex<H> {
    pub closed spec fn spec_home(&self) -> HomeHandle {
        self.home
    }

    pub closed spec fn spec_stream(&self) -> Stream<H> {
        self.stream
    }

    pub closed spec fn spec_read_access(&self) -> AccessTimeout<()> {
        self.read_access
    }

    pub closed spec fn spec_write_access(&self) -> Access<()> {
        self.write_access
    }

    pub closed spec fn spec_shutdown(&self) -> Option<RequestCtx> {
        self.shutdown
    }

    /// Whether the read half was closed.
    pub open spec fn read_closed(&self) -> bool {
        self.spec_read_access().acc().closed()
    }

    pub open spec fn wf(&self) -> bool {
        &&& self.spec_read_access().wf()
        &&& self.spec_write_access().wf()
        &&& self.spec_stream().wf()
    }

    /// A stream object over the reactor stream `handle`, homed at `home`.
    pub fn new(handle: H, home: HomeHandle) -> (r: Duplex<H>)
        ensures
            r.wf(),
            r.spec_home() == home,
            r.spec_stream().hnd() == handle,
            !r.spec_stream().reading(),
            !r.spec_stream().writing(),
            !r.read_closed(),
            r.spec_read_access().clients() == seq![fresh_client()],
            r.spec_read_access().acc().holder().is_none(),
            r.spec_write_access().holder().is_none(),
            r.spec_shutdown().is_none(),
    {
        Duplex {
            home,
            stream: Stream::new(handle),
            write_access: Access::new(()),
            read_access: AccessTimeout::new(()),
            shutdown: None,
        }
    }

    pub fn home(&self) -> (r: &HomeHandle)
        ensures
            *r == self.spec_home(),
    {
        &self.home
    }

    /// The reactor stream.
    pub fn raw(&self) -> (r: H)
        ensures
            r == self.spec_stream().hnd(),
    {
        *self.stream.handle()
    }

    pub fn stream(&mut self) -> (r: &mut Stream<H>)
        ensures
            *r == old(self).spec_stream(),
            final(self).spec_stream() == *final(r),
            final(self).spec_home() == old(self).spec_home(),
            final(self).spec_read_access() == old(self).spec_read_access(),
            final(self).spec_write_access() == old(self).spec_write_access(),
            final(self).spec_shutdown() == old(self).spec_shutdown(),
    {
        &mut self.stream
    }

    /// The arbitration of readers, with the read timeout.
    pub fn read_access(&mut self) -> (r: &mut AccessTimeout<()>)
        ensures
            *r == old(self).spec_read_access(),
            final(self).spec_read_access() == *final(r),
            final(self).spec_home() == old(self).spec_home(),
            final(self).spec_stream() == old(self).spec_stream(),
            final(self).spec_write_access() == old(self).spec_write_access(),
            final(self).spec_shutdown() == old(self).spec_shutdown(),
    {
        &mut self.read_access
    }

    /// The arbitration of writers.
    pub fn write_access(&mut self) -> (r: &mut Access<()>)
        ensures
            *r == old(self).spec_write_access(),
            final(self).spec_write_access() == *final(r),
            final(self).spec_home() == old(self).spec_home(),
            final(self).spec_stream() == old(self).spec_stream(),
            final(self).spec_read_access() == old(self).spec_read_access(),
            final(self).spec_shutdown() == old(self).spec_shutdown(),
    {
        &mut self.write_access
    }

    /// Starts a read into `buf`, by the task that holds the read access and
    /// runs on the object's home loop (the missile `m`, which the task lands
    /// afterwards): `EOF` once the read half is closed, else the stream reads.
    pub fn uv_read(&mut self, m: &HomingMissile, guard: &Guard, buf: UvBuf) -> (r: UvResult<()>)
        requires
            m.spec_home() == old(self).spec_home().spec_id(),
            old(self).spec_read_access().acc().holder() == Some(guard.owner()),
            !old(self).spec_stream().reading(),
        ensures
            r == start_read_result(old(self).read_closed()),
            r.is_err() ==> *final(self) == *old(self),
            r.is_ok() ==> final(self).spec_stream().reading()
                && final(self).spec_stream().read_attached()
                && final(self).spec_stream().read_buf() == Some(buf)
                && final(self).spec_stream().read_task().is_none(),
            final(self).spec_read_access() == old(self).spec_read_access(),
            final(self).spec_write_access() == old(self).spec_write_access(),
            final(self).spec_home() == old(self).spec_home(),
    {
        if self.read_access.is_closed() {
            return Err(UvError(EOF));
        }
        self.stream.read(buf);
        Ok(())
    }

    /// Closes the read half, on the object's home loop (the missile `m`):
    /// the flag is set first, then the read in progress (on any clone) is
    /// canceled with `EOF`, its reader handed back to be reawakened once the
    /// missile has landed.
    pub fn close_read(&mut self, m: &HomingMissile) -> (r: Option<BlockedTask>)
        requires
            m.spec_home() == old(self).spec_home().spec_id(),
            old(self).wf(),
        ensures
            final(self).wf(),
            final(self).read_closed(),
            old(self).spec_stream().read_attached() ==> r == old(self).spec_stream().read_task()
                && final(self).spec_stream().read_count() == EOF as isize
                && !final(self).spec_stream().read_attached()
                && final(self).spec_stream().reading(),
            !old(self).spec_stream().read_attached() ==> r.is_none()
                && final(self).spec_stream() == old(self).spec_stream(),
            final(self).spec_read_access().clients() == old(self).spec_read_access().clients(),
            final(self).spec_write_access() == old(self).spec_write_access(),
            final(self).spec_home() == old(self).spec_home(),
    {
        self.read_access.access().close();
        self.stream.cancel_read(EOF as isize)
    }

    /// Starts a write, by the task of `owner` that holds the write access and
    /// runs on the object's home loop (the missile `m`):
    /// the cached write request, if any (else the caller allocates one).
    pub fn uv_write(&mut self, m: &HomingMissile, owner: u64) -> (r: Option<Write>)
        requires
            m.spec_home() == old(self).spec_home().spec_id(),
            old(self).spec_write_access().holder() == Some(owner),
        ensures
            r == old(self).spec_stream().cached_req(),
            final(self).spec_stream().cached_req().is_none(),
            final(self).spec_stream().writing() == old(self).spec_stream().writing(),
            final(self).spec_stream().reading() == old(self).spec_stream().reading(),
            final(self).spec_read_access() == old(self).spec_read_access(),
            final(self).spec_write_access() == old(self).spec_write_access(),
    {
        self.stream.take_write_req()
    }

    /// A new clone of the stream object: it shares the stream and its
    /// arbitration, with a read timeout of its own; its index comes back.
    pub fn clone_handle(&mut self) -> (r: usize)
        requires
            old(self).spec_read_access().clients().len() < usize::MAX,
        ensures
            r == old(self).spec_read_access().clients().len(),
            final(self).spec_read_access().clients() == old(self).spec_read_access().clients().push(fresh_client()),
            final(self).spec_read_access().acc() == old(self).spec_read_access().acc(),
            final(self).spec_stream() == old(self).spec_stream(),
            final(self).spec_write_access() == old(self).spec_write_access(),
            final(self).spec_home() == old(self).spec_home(),
    {
        self.read_access.clone_client()
    }

    /// Sets the read timeout of clone `c` in milliseconds (`None` clears
    /// it); when it fires during a read, the cancellation is called with
    /// `stream_id`.
    pub fn set_read_timeout(&mut self, c: usize, dur: Option<i64>, stream_id: usize) -> (r: TimerCommand)
        requires
            old(self).wf(),
            c < old(self).spec_read_access().clients().len(),
        ensures
            final(self).wf(),
            dur.is_none() ==> final(self).spec_read_access().clients() == old(self).spec_read_access().clients().update(
                c as int, ClientTimeout { state: State::NoTimeout, ..old(self).spec_read_access().clients()[c as int] }),
            dur.is_some() ==> final(self).spec_read_access().clients() == old(self).spec_read_access().clients().update(
                c as int, ClientTimeout { state: State::TimeoutPending(Client::NoWaiter), has_timer: true, payload: stream_id }),
            r == (match dur {
                Some(ms) => TimerCommand::Start { ms: timer_ms(ms), create: !old(self).spec_read_access().has_timer(c) },
                None => if old(self).spec_read_access().has_timer(c) { TimerCommand::Stop } else { TimerCommand::Keep },
            }),
            final(self).spec_read_access().acc() == old(self).spec_read_access().acc(),
            final(self).spec_stream() == old(self).spec_stream(),
    {
        self.read_access.set_timeout(c, dur, stream_id)
    }

    /// The read timeout fired while the reader was parked on the stream:
    /// the read is canceled with `ECANCELED`.
    pub fn cancel_read(&mut self) -> (r: Option<BlockedTask>)
        ensures
            old(self).spec_stream().read_attached() ==> r == old(self).spec_stream().read_task()
                && final(self).spec_stream().read_count() == ECANCELED as isize
                && !final(self).spec_stream().read_attached(),
            !old(self).spec_stream().read_attached() ==> r.is_none()
                && final(self).spec_stream() == old(self).spec_stream(),
            final(self).spec_read_access() == old(self).spec_read_access(),
            final(self).spec_write_access() == old(self).spec_write_access(),
    {
        self.stream.cancel_read(ECANCELED as isize)
    }

    /// Starts closing the write half; the reactor's shutdown request may now
    /// be submitted.
    pub fn close_write(&mut self)
        requires
            old(self).spec_shutdown().is_none(),
        ensures
            final(self).spec_shutdown() == Some(RequestCtx::new_spec(0)),
            final(self).spec_stream() == old(self).spec_stream(),
            final(self).spec_read_access() == old(self).spec_read_access(),
            final(self).spec_write_access() == old(self).spec_write_access(),
    {
        self.shutdown = Some(RequestCtx::new(0));
    }

    /// Parks the task on the shutdown request.
    pub fn park_shutdown(&mut self, task: BlockedTask)
        requires
            old(self).spec_shutdown() matches Some(c) && c.task().is_none(),
        ensures
            final(self).spec_shutdown() matches Some(c) && c.task() == Some(task)
                && c.status() == old(self).spec_shutdown().unwrap().status(),
            final(self).spec_stream() == old(self).spec_stream(),
    {
        let mut c = self.shutdown.take().unwrap();
        c.park(task);
        self.shutdown = Some(c);
    }

    /// The shutdown request completed (it is never canceled).
    pub fn shutdown_cb(&mut self, status: i32) -> (r: BlockedTask)
        requires
            old(self).spec_shutdown() matches Some(c) && c.task().is_some(),
            status != ECANCELED,
        ensures
            Some(r) == old(self).spec_shutdown().unwrap().task(),
            final(self).spec_shutdown() matches Some(c) && c.status() == status && c.task().is_none(),
            final(self).spec_stream() == old(self).spec_stream(),
    {
        let mut c = self.shutdown.take().unwrap();
        let t = c.complete(status);
        self.shutdown = Some(c);
        t
    }

    /// The task runs again: the outcome of closing the write half.
    pub fn shutdown_finish(&mut self) -> (r: UvResult<()>)
        requires
            old(self).spec_shutdown().is_some(),
        ensures
            r == status_result(old(self).spec_shutdown().unwrap().status()),
            final(self).spec_shutdown().is_none(),
            final(self).spec_stream() == old(self).spec_stream(),
    {
        let c = self.shutdown.take().unwrap();
        c.finish()
    }
}

/// After `close_read`, every read ends with `EOF`: one started later (on
/// this object or any clone sharing its read access) is refused with it,
/// and the one outstanding at the time finishes with it.
pub proof fn lemma_close_read_eof()
    ensures
        start_read_result(true) == Err::<(), UvError>(UvError(EOF)),
        read_result(EOF as isize) == Err::<usize, UvError>(UvError(EOF)),
{
}

} // verus!
