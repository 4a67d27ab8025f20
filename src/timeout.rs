use vstd::prelude::*;
use crate::access::{Access, has_owner, first_of, release_model};
use crate::error::{UvError, UvResult, ECANCELED, EOF};
use crate::task::BlockedTask;

verus! {

/// Where the one timed client of an `AccessTimeout` stands.
#[derive(Clone, Copy, Debug, PartialEq, Eq, Structural)]
pub enum Client {
    /// Nobody waits.
    NoWaiter,
    /// A task is parked waiting for the access.
    AccessPending,
    /// The access is held and its holder is parked on a reactor request.
    RequestPending,
}

#[derive(Clone, Copy, Debug, PartialEq, Eq, Structural)]
pub enum State {
    NoTimeout,
    TimeoutPending(Client),
    TimedOut,
}

/// What the reactor's timer must do after `set_timeout`.
#[derive(Clone, Copy, Debug, PartialEq, Eq, Structural)]
pub enum TimerCommand {
    /// Nothing to do: no timeout and no timer.
    Keep,
    /// Stop the existing timer.
    Stop,
    /// (Create the timer if `create`, then) restart it to fire once after
    /// `ms` milliseconds.
    Start { ms: u64, create: bool },
}

/// What the timeout callback leaves to do.
#[derive(Debug)]
pub enum TimeoutAction {
    /// Nobody was waiting.
    Nothing,
    /// A task parked for the access was taken out of the queue: reawaken it.
    Wake(BlockedTask),
    /// The holder is parked on a request: call the cancellation function
    /// with this payload, and reawaken the task that it gives back.
    Unblock(usize),
}

/// The milliseconds that a timer is armed with for a requested duration:
/// a negative duration fires at once.
pub open spec fn timer_ms(ms: i64) -> u64 {
    if ms < 0 { 0 } else { ms as u64 }
}

/// What `accept` answers at once, from the pending queue, the closed flag
/// and the timeout: `None` means that the acceptor must park.
pub open spec fn accept_answer<T>(pending: Seq<UvResult<T>>, closed: bool, timed_out: bool) -> Option<UvResult<T>> {
    if pending.len() > 0 {
        Some(pending[0])
    } else if closed {
        Some(Err(UvError(EOF)))
    } else if timed_out {
        Some(Err(UvError(ECANCELED)))
    } else {
        None
    }
}

/// Once the acceptor is closed, accepting still delivers the connections
/// queued before, oldest first, and then answers `EOF`, with or without a
/// timeout.
pub proof fn lemma_accept_after_close<T>(pending: Seq<UvResult<T>>, timed_out: bool)
    ensures
        pending.len() > 0 ==> accept_answer(pending, true, timed_out) == Some(pending[0]),
        pending.len() == 0 ==> accept_answer(pending, true, timed_out) == Some(Err::<T, UvError>(UvError(EOF))),
{
}

/// Proof that the access was granted to `owner`; handed back on release.
#[derive(Debug)]
pub struct Guard {
    owner: u64,
    can_timeout: bool,
}

impl Guard {
    pub closed spec fn owner(&self) -> u64 {
        self.owner
    }

    pub closed spec fn spec_can_timeout(&self) -> bool {
        self.can_timeout
    }

    /// Whether a timeout was pending when the access was granted, so that the
    /// request made under this guard may be canceled.
    pub fn can_timeout(&self) -> (r: bool)
        ensures
            r == self.spec_can_timeout(),
    {
        self.can_timeout
    }
}

/// The outcome of asking for the access.
#[derive(Debug)]
pub enum Grant {
    Granted(Guard),
    /// The access is held: park, then `wait` and, once woken, `resume`.
    Wait,
}

/// The timeout of one clone: where its client stands, whether it has a
/// timer, and what its cancellation function is called with.
#[derive(Clone, Copy, Debug, PartialEq, Eq, Structural)]
pub struct ClientTimeout {
    pub state: State,
    pub has_timer: bool,
    pub payload: usize,
}

/// The timeout of a fresh clone: none.
pub open spec fn fresh_client() -> ClientTimeout {
    ClientTimeout { state: State::NoTimeout, has_timer: false, payload: 0 }
}

/// The timeout of a clone after `grant`: a pending timeout now covers the
/// wait (or, when granted at once, the request).
pub open spec fn after_grant(c: ClientTimeout, granted: bool) -> ClientTimeout {
    if c.state is TimeoutPending {
        ClientTimeout {
            state: State::TimeoutPending(if granted { Client::RequestPending } else { Client::AccessPending }),
            ..c
        }
    } else {
        c
    }
}

/// Access to one half of a duplex stream, shared by the clones of the
/// stream object, each with its own timeout on its wait and on the request
/// made under the access. Clone `c` waits and holds as owner `c`.
#[derive(Debug)]
pub struct AccessTimeout<T> {
    clients: Vec<ClientTimeout>,
    access: Access<T>,
}

impl<T> AccessTimeout<T> {
    /// The timeouts of the clones, by index.
    pub closed spec fn clients(&self) -> Seq<ClientTimeout> {
        self.clients@
    }

    pub open spec fn state(&self, c: usize) -> State {
        self.clients()[c as int].state
    }

    pub open spec fn has_timer(&self, c: usize) -> bool {
        self.clients()[c as int].has_timer
    }

    pub open spec fn payload(&self, c: usize) -> usize {
        self.clients()[c as int].payload
    }

    pub closed spec fn acc(&self) -> Access<T> {
        self.access
    }

    pub open spec fn wf(&self) -> bool {
        self.acc().wf()
    }

    /// The access over `data`, with one clone (index 0) and no timeout.
    pub fn new(data: T) -> (r: AccessTimeout<T>)
        ensures
            r.wf(),
            r.clients() == seq![fresh_client()],
            r.acc().holder().is_none(),
            r.acc().waiters().len() == 0,
            !r.acc().closed(),
            r.acc().data() == data,
    {
        let mut clients: Vec<ClientTimeout> = Vec::new();
        clients.push(ClientTimeout { state: State::NoTimeout, has_timer: false, payload: 0 });
        proof {
            assert(clients@ =~= seq![fresh_client()]);
        }
        AccessTimeout { clients, access: Access::new(data) }
    }

    /// A new clone, sharing the access, with no timeout of its own; its
    /// index comes back.
    pub fn clone_client(&mut self) -> (r: usize)
        requires
            old(self).clients().len() < usize::MAX,
        ensures
            r == old(self).clients().len(),
            final(self).clients() == old(self).clients().push(fresh_client()),
            final(self).acc() == old(self).acc(),
    {
        let n = self.clients.len();
        self.clients.push(ClientTimeout { state: State::NoTimeout, has_timer: false, payload: 0 });
        n
    }

    /// The number of clones.
    pub fn clone_count(&self) -> (r: usize)
        ensures
            r == self.clients().len(),
    {
        self.clients.len()
    }

    /// Asks for the access on behalf of clone `c`. Fails with `ECANCELED`
    /// once its timeout fired; otherwise grants at once when the access is
    /// free, or asks the caller to wait.
    pub fn grant(&mut self, c: usize) -> (r: UvResult<Grant>)
        requires
            old(self).wf(),
            c < old(self).clients().len(),
        ensures
            final(self).wf(),
            old(self).state(c) == State::TimedOut ==> r == Err::<Grant, UvError>(UvError(ECANCELED))
                && *final(self) == *old(self),
            old(self).state(c) != State::TimedOut ==> r.is_ok(),
            r matches Ok(Grant::Granted(g)) ==> old(self).acc().holder().is_none()
                && g.owner() == c
                && final(self).acc().holder() == Some(c as u64)
                && g.spec_can_timeout() == (old(self).state(c) is TimeoutPending)
                && final(self).clients() == old(self).clients().update(c as int,
                    after_grant(old(self).clients()[c as int], true)),
            r matches Ok(Grant::Wait) ==> old(self).acc().holder().is_some()
                && final(self).acc().holder() == old(self).acc().holder()
                && final(self).clients() == old(self).clients().update(c as int,
                    after_grant(old(self).clients()[c as int], false)),
            final(self).acc().waiters() == old(self).acc().waiters(),
            final(self).acc().closed() == old(self).acc().closed(),
            final(self).acc().data() == old(self).acc().data(),
    {
        let mut cl = self.clients[c];
        match cl.state {
            State::TimedOut => {
                return Err(UvError(ECANCELED));
            },
            _ => {},
        }
        let pending = match cl.state {
            State::TimeoutPending(_) => true,
            _ => false,
        };
        if self.access.grant(c as u64) {
            if pending {
                cl.state = State::TimeoutPending(Client::RequestPending);
            }
            self.clients.set(c, cl);
            proof {
                assert(self.clients@ =~= old(self).clients@.update(c as int,
                    after_grant(old(self).clients@[c as int], true)));
            }
            Ok(Grant::Granted(Guard { owner: c as u64, can_timeout: pending }))
        } else {
            if pending {
                cl.state = State::TimeoutPending(Client::AccessPending);
            }
            self.clients.set(c, cl);
            proof {
                assert(self.clients@ =~= old(self).clients@.update(c as int,
                    after_grant(old(self).clients@[c as int], false)));
            }
            Ok(Grant::Wait)
        }
    }

    /// Parks `task` of clone `c` in the queue, after `grant` said to wait.
    pub fn wait(&mut self, c: usize, task: BlockedTask)
        requires
            old(self).wf(),
            old(self).acc().holder().is_some(),
        ensures
            final(self).wf(),
            final(self).acc().waiters() == old(self).acc().waiters().push((c as u64, task@)),
            final(self).acc().holder() == old(self).acc().holder(),
            final(self).acc().closed() == old(self).acc().closed(),
            final(self).clients() == old(self).clients(),
    {
        self.access.enqueue(c as u64, task);
    }

    /// The task of clone `c`, parked by `wait`, runs again. It was woken
    /// either because the access was handed to it, or because its timeout
    /// took it out of the queue (then `ECANCELED`). Granted after its timeout
    /// fired, it lets go at once, and the task handed on must be reawakened.
    pub fn resume(&mut self, c: usize) -> (r: (UvResult<Guard>, Option<BlockedTask>))
        requires
            old(self).wf(),
            c < old(self).clients().len(),
        ensures
            final(self).wf(),
            old(self).acc().holder() != Some(c as u64) ==> r.0 == Err::<Guard, UvError>(UvError(ECANCELED))
                && r.1.is_none() && *final(self) == *old(self),
            old(self).acc().holder() == Some(c as u64) && old(self).state(c) == State::TimedOut ==>
                r.0 == Err::<Guard, UvError>(UvError(ECANCELED))
                && final(self).clients() == old(self).clients()
                && (old(self).acc().waiters().len() == 0 ==> r.1.is_none()
                    && final(self).acc().holder().is_none())
                && (old(self).acc().waiters().len() > 0 ==> r.1.is_some()
                    && r.1.unwrap()@ == old(self).acc().waiters()[0].1
                    && final(self).acc().holder() == Some(old(self).acc().waiters()[0].0)
                    && final(self).acc().waiters() == old(self).acc().waiters().drop_first()),
            old(self).acc().holder() == Some(c as u64) && old(self).state(c) != State::TimedOut ==>
                r.1.is_none()
                && (r.0 matches Ok(g) && g.owner() == c
                    && g.spec_can_timeout() == (old(self).state(c) is TimeoutPending))
                && final(self).acc() == old(self).acc()
                && final(self).clients() == old(self).clients().update(c as int,
                    after_grant(old(self).clients()[c as int], true)),
    {
        if self.access.holder_of() != Some(c as u64) {
            return (Err(UvError(ECANCELED)), None);
        }
        let mut cl = self.clients[c];
        match cl.state {
            State::TimedOut => {
                let next = self.access.release();
                (Err(UvError(ECANCELED)), next)
            },
            State::TimeoutPending(_) => {
                cl.state = State::TimeoutPending(Client::RequestPending);
                self.clients.set(c, cl);
                proof {
                    assert(self.clients@ =~= old(self).clients@.update(c as int,
                        after_grant(old(self).clients@[c as int], true)));
                }
                (Ok(Guard { owner: c as u64, can_timeout: true }), None)
            },
            State::NoTimeout => {
                proof {
                    assert(self.clients@ =~= old(self).clients@.update(c as int,
                        after_grant(old(self).clients@[c as int], true)));
                }
                (Ok(Guard { owner: c as u64, can_timeout: false }), None)
            },
        }
    }

    /// Clone `c` lets go of the access: its pending request is over, and the
    /// first waiter, if any, is handed the access and must be reawakened.
    pub fn release(&mut self, c: usize, guard: Guard) -> (r: Option<BlockedTask>)
        requires
            old(self).wf(),
            c < old(self).clients().len(),
            guard.owner() == c,
            old(self).acc().holder() == Some(c as u64),
        ensures
            final(self).wf(),
            final(self).clients() == old(self).clients().update(c as int,
                if old(self).state(c) == State::TimeoutPending(Client::RequestPending) {
                    ClientTimeout { state: State::TimeoutPending(Client::NoWaiter), ..old(self).clients()[c as int] }
                } else {
                    old(self).clients()[c as int]
                }),
            (final(self).acc().holder(), final(self).acc().waiters()) == release_model(old(self).acc().waiters()),
            old(self).acc().waiters().len() == 0 ==> r.is_none(),
            old(self).acc().waiters().len() > 0 ==> r.is_some()
                && r.unwrap()@ == old(self).acc().waiters()[0].1,
            final(self).acc().closed() == old(self).acc().closed(),
            final(self).acc().data() == old(self).acc().data(),
    {
        let mut cl = self.clients[c];
        if cl.state == State::TimeoutPending(Client::RequestPending) {
            cl.state = State::TimeoutPending(Client::NoWaiter);
        }
        self.clients.set(c, cl);
        proof {
            assert(self.clients@ =~= old(self).clients@.update(c as int,
                if old(self).clients@[c as int].state == State::TimeoutPending(Client::RequestPending) {
                    ClientTimeout { state: State::TimeoutPending(Client::NoWaiter), ..old(self).clients@[c as int] }
                } else {
                    old(self).clients@[c as int]
                }));
        }
        self.access.release()
    }

    /// Whether the access was closed.
    pub fn is_closed(&self) -> (r: bool)
        ensures
            r == self.acc().closed(),
    {
        self.access.is_closed()
    }

    /// Whether the timeout of clone `c` fired (and was not reset since).
    pub fn timed_out(&self, c: usize) -> (r: bool)
        requires
            c < self.clients().len(),
        ensures
            r == (self.state(c) == State::TimedOut),
    {
        match self.clients[c].state {
            State::TimedOut => true,
            _ => false,
        }
    }

    pub fn access(&mut self) -> (r: &mut Access<T>)
        ensures
            *r == old(self).acc(),
            final(self).acc() == *final(r),
            final(self).clients() == old(self).clients(),
    {
        &mut self.access
    }

    /// Sets the timeout of clone `c`, in milliseconds (`None` clears it).
    /// The payload is what the cancellation function is called with when
    /// the timeout fires while a request is pending.
    pub fn set_timeout(&mut self, c: usize, dur: Option<i64>, data: usize) -> (r: TimerCommand)
        requires
            old(self).wf(),
            c < old(self).clients().len(),
        ensures
            final(self).wf(),
            final(self).acc() == old(self).acc(),
            dur.is_none() ==> final(self).clients() == old(self).clients().update(c as int,
                ClientTimeout { state: State::NoTimeout, ..old(self).clients()[c as int] })
                && r == (if old(self).has_timer(c) { TimerCommand::Stop } else { TimerCommand::Keep }),
            dur matches Some(ms) ==> final(self).clients() == old(self).clients().update(c as int,
                ClientTimeout { state: State::TimeoutPending(Client::NoWaiter), has_timer: true, payload: data })
                && r == (TimerCommand::Start { ms: timer_ms(ms), create: !old(self).has_timer(c) }),
    {
        let cl = self.clients[c];
        match dur {
            None => {
                self.clients.set(c, ClientTimeout { state: State::NoTimeout, ..cl });
                if cl.has_timer { TimerCommand::Stop } else { TimerCommand::Keep }
            },
            Some(ms) => {
                let ms: u64 = if ms < 0 { 0 } else { ms as u64 };
                self.clients.set(c, ClientTimeout {
                    state: State::TimeoutPending(Client::NoWaiter),
                    has_timer: true,
                    payload: data,
                });
                TimerCommand::Start { ms, create: !cl.has_timer }
            },
        }
    }

    /// The timer of clone `c` fired: its timeout is now spent, and whatever
    /// it waited for under it is canceled.
    pub fn on_timeout(&mut self, c: usize) -> (r: TimeoutAction)
        requires
            old(self).wf(),
            c < old(self).clients().len(),
            old(self).state(c) is TimeoutPending,
        ensures
            final(self).wf(),
            final(self).clients() == old(self).clients().update(c as int,
                ClientTimeout { state: State::TimedOut, ..old(self).clients()[c as int] }),
            final(self).acc().holder() == old(self).acc().holder(),
            final(self).acc().closed() == old(self).acc().closed(),
            final(self).acc().data() == old(self).acc().data(),
            old(self).state(c) == State::TimeoutPending(Client::NoWaiter) ==> r is Nothing
                && final(self).acc() == old(self).acc(),
            old(self).state(c) == State::TimeoutPending(Client::RequestPending) ==>
                r == TimeoutAction::Unblock(old(self).payload(c)) && final(self).acc() == old(self).acc(),
            old(self).state(c) == State::TimeoutPending(Client::AccessPending) ==> (
                (r is Wake <==> has_owner(old(self).acc().waiters(), c as u64))
                && (r is Nothing <==> !has_owner(old(self).acc().waiters(), c as u64))),
            r matches TimeoutAction::Wake(t) ==> ({
                let w = old(self).acc().waiters();
                let i = first_of(w, c as u64);
                &&& t@ == w[i].1
                &&& final(self).acc().waiters() == w.remove(i)
            }),
            (r is Nothing && old(self).state(c) == State::TimeoutPending(Client::AccessPending)) ==>
                final(self).acc() == old(self).acc(),
    {
        let cl = self.clients[c];
        self.clients.set(c, ClientTimeout { state: State::TimedOut, ..cl });
        match cl.state {
            State::TimeoutPending(Client::AccessPending) => {
                match self.access.dequeue(c as u64) {
                    Some(task) => TimeoutAction::Wake(task),
                    None => TimeoutAction::Nothing,
                }
            },
            State::TimeoutPending(Client::RequestPending) => TimeoutAction::Unblock(cl.payload),
            _ => TimeoutAction::Nothing,
        }
    }
}

/// The context of one connect request, shared by the request's callback and
/// the optional timer.
#[derive(Debug)]
pub struct ConnectCtx {
    status: i32,
    task: Option<BlockedTask>,
    has_timer: bool,
    attached: bool,
}

/// What the connect callback leaves to do, besides freeing the request.
#[derive(Debug)]
pub struct ConnectDone {
    /// Stop the timeout's timer.
    pub stop_timer: bool,
    /// Reawaken the connecting task.
    pub wake: Option<BlockedTask>,
}

impl ConnectCtx {
    pub closed spec fn status(&self) -> i32 {
        self.status
    }

    pub closed spec fn task(&self) -> Option<BlockedTask> {
        self.task
    }

    pub closed spec fn has_timer(&self) -> bool {
        self.has_timer
    }

    /// Whether the request's callback still reaches this context.
    pub closed spec fn attached(&self) -> bool {
        self.attached
    }

    pub fn new() -> (r: ConnectCtx)
        ensures
            r.status() == -1,
            r.task().is_none(),
            !r.has_timer(),
            !r.attached(),
    {
        ConnectCtx { status: -1, task: None, has_timer: false, attached: false }
    }

    /// Starts a connect with an optional timeout in milliseconds. A timeout
    /// of zero or less fails with `ECANCELED` before anything is asked of
    /// the network. Otherwise the request may be issued, and `Some(ms)` says
    /// to arm a timer for `ms` milliseconds.
    pub fn connect(&mut self, timeout: Option<i64>) -> (r: UvResult<Option<u64>>)
        ensures
            timeout matches Some(t) ==> (t <= 0 ==> r == Err::<Option<u64>, UvError>(UvError(ECANCELED))
                && *final(self) == *old(self)),
            timeout matches Some(t) ==> (t > 0 ==> r == Ok::<Option<u64>, UvError>(Some(t as u64))
                && final(self).has_timer() && final(self).attached()
                && final(self).status() == old(self).status() && final(self).task() == old(self).task()),
            timeout.is_none() ==> r == Ok::<Option<u64>, UvError>(None)
                && final(self).has_timer() == old(self).has_timer() && final(self).attached()
                && final(self).status() == old(self).status() && final(self).task() == old(self).task(),
    {
        match timeout {
            Some(t) => {
                if t <= 0 {
                    return Err(UvError(ECANCELED));
                }
                self.has_timer = true;
                self.attached = true;
                Ok(Some(t as u64))
            },
            None => {
                self.attached = true;
                Ok(None)
            },
        }
    }

    /// Parks the connecting task until a callback fires.
    pub fn park(&mut self, task: BlockedTask)
        requires
            old(self).task().is_none(),
        ensures
            final(self).task() == Some(task),
            final(self).status() == old(self).status(),
            final(self).has_timer() == old(self).has_timer(),
            final(self).attached() == old(self).attached(),
    {
        self.task = Some(task);
    }

    /// The timeout fired first: the connect is canceled and the task woken.
    pub fn on_timer(&mut self) -> (r: BlockedTask)
        requires
            old(self).task().is_some(),
        ensures
            final(self).status() == ECANCELED,
            Some(r) == old(self).task(),
            final(self).task().is_none(),
            final(self).has_timer() == old(self).has_timer(),
            final(self).attached() == old(self).attached(),
    {
        self.status = ECANCELED;
        self.task.take().unwrap()
    }

    /// The connect request completed with `status`. A canceled request, or
    /// one whose task has already given up, only frees the request. Else the
    /// status is recorded, the timer stopped and the task, if still parked,
    /// woken.
    pub fn on_connect(&mut self, status: i32) -> (r: ConnectDone)
        ensures
            (status == ECANCELED || !old(self).attached()) ==> *final(self) == *old(self)
                && !r.stop_timer && r.wake.is_none(),
            (status != ECANCELED && old(self).attached()) ==> final(self).status() == status
                && r.stop_timer == old(self).has_timer()
                && r.wake == old(self).task()
                && final(self).task().is_none()
                && final(self).has_timer() == old(self).has_timer()
                && final(self).attached(),
    {
        if status == ECANCELED || !self.attached {
            return ConnectDone { stop_timer: false, wake: None };
        }
        self.status = status;
        ConnectDone { stop_timer: self.has_timer, wake: self.task.take() }
    }

    /// The task runs again: the request no longer reaches this context, the
    /// timer (if any) is to be closed, and the outcome is the status.
    pub fn finish(&mut self) -> (r: (UvResult<()>, bool))
        ensures
            r.0 == (if old(self).status() == 0 {
                Ok::<(), UvError>(())
            } else {
                Err::<(), UvError>(UvError(old(self).status()))
            }),
            r.1 == old(self).has_timer(),
            !final(self).attached(),
            !final(self).has_timer(),
            final(self).status() == old(self).status(),
    {
        self.attached = false;
        let close_timer = self.has_timer;
        self.has_timer = false;
        if self.status == 0 {
            (Ok(()), close_timer)
        } else {
            (Err(UvError(self.status)), close_timer)
        }
    }
}

/// The queue between a listener's connection callback and its acceptors.
#[derive(Debug)]
pub struct AcceptorState<T> {
    blocked_acceptor: Option<BlockedTask>,
    pending: Vec<UvResult<T>>,
}

/// Accepting connections, with a timeout.
#[derive(Debug)]
pub struct AcceptTimeout<T> {
    access: AccessTimeout<AcceptorState<T>>,
}

impl<T> AcceptTimeout<T> {
    pub closed spec fn inner(&self) -> AccessTimeout<AcceptorState<T>> {
        self.access
    }

    /// The connections (or errors) accepted by the listener and not yet taken.
    pub closed spec fn pending(&self) -> Seq<UvResult<T>> {
        self.access.acc().data().pending@
    }

    /// The acceptor parked for the next connection.
    pub closed spec fn blocked(&self) -> Option<BlockedTask> {
        self.access.acc().data().blocked_acceptor
    }

    pub open spec fn closed(&self) -> bool {
        self.inner().acc().closed()
    }

    pub open spec fn spec_timed_out(&self, c: usize) -> bool {
        self.inner().state(c) == State::TimedOut
    }

    pub open spec fn wf(&self) -> bool {
        self.inner().wf()
    }

    /// An acceptor with nothing pending, one clone and no timeout.
    pub fn new() -> (r: AcceptTimeout<T>)
        ensures
            r.wf(),
            r.pending().len() == 0,
            r.blocked().is_none(),
            !r.closed(),
            r.inner().clients() == seq![fresh_client()],
            r.inner().acc().holder().is_none(),
    {
        AcceptTimeout {
            access: AccessTimeout::new(AcceptorState { blocked_acceptor: None, pending: Vec::new() }),
        }
    }

    /// A new clone of the acceptor, sharing its queue; its index comes back.
    pub fn clone_client(&mut self) -> (r: usize)
        requires
            old(self).inner().clients().len() < usize::MAX,
        ensures
            r == old(self).inner().clients().len(),
            final(self).inner().clients() == old(self).inner().clients().push(fresh_client()),
            final(self).inner().acc() == old(self).inner().acc(),
            final(self).pending() == old(self).pending(),
            final(self).blocked() == old(self).blocked(),
    {
        self.access.clone_client()
    }

    /// What accepting on clone `c` answers at once: the oldest pending
    /// connection, else `EOF` once closed, else `ECANCELED` once the clone's
    /// timeout fired. `None`: the caller must obtain the access and `park`
    /// until a connection comes.
    pub fn accept(&mut self, c: usize) -> (r: Option<UvResult<T>>)
        requires
            old(self).wf(),
            c < old(self).inner().clients().len(),
        ensures
            final(self).wf(),
            r == accept_answer(old(self).pending(), old(self).closed(), old(self).spec_timed_out(c)),
            final(self).pending() == (if old(self).pending().len() > 0 {
                old(self).pending().drop_first()
            } else {
                old(self).pending()
            }),
            final(self).blocked() == old(self).blocked(),
            final(self).closed() == old(self).closed(),
            final(self).inner().clients() == old(self).inner().clients(),
            final(self).inner().acc().holder() == old(self).inner().acc().holder(),
            final(self).inner().acc().waiters() == old(self).inner().acc().waiters(),
    {
        let closed = self.access.is_closed();
        let timed_out = self.access.timed_out(c);
        let st = self.access.access().get_mut();
        if st.pending.len() > 0 {
            return Some(st.pending.remove(0));
        }
        if closed {
            Some(Err(UvError(EOF)))
        } else if timed_out {
            Some(Err(UvError(ECANCELED)))
        } else {
            None
        }
    }

    /// The arbitration among acceptors and their timeouts.
    pub fn timeout(&mut self) -> (r: &mut AccessTimeout<AcceptorState<T>>)
        ensures
            *r == old(self).inner(),
            final(self).inner() == *final(r),
    {
        &mut self.access
    }

    /// Parks the acceptor that holds the access until a connection, a close
    /// or its timeout wakes it.
    pub fn park(&mut self, task: BlockedTask)
        requires
            old(self).wf(),
            old(self).blocked().is_none(),
        ensures
            final(self).wf(),
            final(self).blocked() == Some(task),
            final(self).pending() == old(self).pending(),
            final(self).closed() == old(self).closed(),
            final(self).inner().clients() == old(self).inner().clients(),
            final(self).inner().acc().holder() == old(self).inner().acc().holder(),
            final(self).inner().acc().waiters() == old(self).inner().acc().waiters(),
    {
        let st = self.access.access().get_mut();
        st.blocked_acceptor = Some(task);
    }

    /// The parked acceptor runs again: the oldest pending connection, else
    /// `EOF` if closed meanwhile, else `ECANCELED` (its timeout woke it).
    pub fn accept_woken(&mut self) -> (r: UvResult<T>)
        requires
            old(self).wf(),
        ensures
            final(self).wf(),
            r == (if old(self).pending().len() > 0 {
                old(self).pending()[0]
            } else if old(self).closed() {
                Err::<T, UvError>(UvError(EOF))
            } else {
                Err::<T, UvError>(UvError(ECANCELED))
            }),
            final(self).pending() == (if old(self).pending().len() > 0 {
                old(self).pending().drop_first()
            } else {
                old(self).pending()
            }),
            final(self).blocked() == old(self).blocked(),
            final(self).closed() == old(self).closed(),
            final(self).inner().clients() == old(self).inner().clients(),
            final(self).inner().acc().holder() == old(self).inner().acc().holder(),
    {
        let closed = self.access.is_closed();
        let st = self.access.access().get_mut();
        if st.pending.len() > 0 {
            st.pending.remove(0)
        } else if closed {
            Err(UvError(EOF))
        } else {
            Err(UvError(ECANCELED))
        }
    }

    /// The listener accepted a connection (or failed to): queue it, and hand
    /// back the parked acceptor, if any, to be reawakened.
    pub fn push(&mut self, t: UvResult<T>) -> (r: Option<BlockedTask>)
        requires
            old(self).wf(),
        ensures
            final(self).wf(),
            final(self).pending() == old(self).pending().push(t),
            r == old(self).blocked(),
            final(self).blocked().is_none(),
            final(self).closed() == old(self).closed(),
            final(self).inner().clients() == old(self).inner().clients(),
            final(self).inner().acc().holder() == old(self).inner().acc().holder(),
    {
        let st = self.access.access().get_mut();
        st.pending.push(t);
        st.blocked_acceptor.take()
    }

    /// Closes the acceptor, handing back the parked acceptor, if any, to be
    /// reawakened (it will see `EOF` unless a connection is pending).
    pub fn close(&mut self) -> (r: Option<BlockedTask>)
        requires
            old(self).wf(),
        ensures
            final(self).wf(),
            final(self).closed(),
            r == old(self).blocked(),
            final(self).blocked().is_none(),
            final(self).pending() == old(self).pending(),
            final(self).inner().clients() == old(self).inner().clients(),
            final(self).inner().acc().holder() == old(self).inner().acc().holder(),
            final(self).inner().acc().waiters() == old(self).inner().acc().waiters(),
    {
        let a = self.access.access();
        a.close();
        let st = a.get_mut();
        st.blocked_acceptor.take()
    }

    /// Sets the accept timeout of clone `c` in milliseconds (`None` clears
    /// it).
    pub fn set_timeout(&mut self, c: usize, dur: Option<i64>) -> (r: TimerCommand)
        requires
            old(self).wf(),
            c < old(self).inner().clients().len(),
        ensures
            final(self).wf(),
            final(self).pending() == old(self).pending(),
            final(self).blocked() == old(self).blocked(),
            final(self).closed() == old(self).closed(),
            final(self).inner().clients().len() == old(self).inner().clients().len(),
            final(self).inner().acc().holder() == old(self).inner().acc().holder(),
            final(self).inner().acc().waiters() == old(self).inner().acc().waiters(),
            dur.is_none() ==> final(self).inner().state(c) == State::NoTimeout,
            dur.is_some() ==> final(self).inner().state(c) == State::TimeoutPending(Client::NoWaiter),
            r == (match dur {
                Some(ms) => TimerCommand::Start { ms: timer_ms(ms), create: !old(self).inner().has_timer(c) },
                None => if old(self).inner().has_timer(c) { TimerCommand::Stop } else { TimerCommand::Keep },
            }),
    {
        self.access.set_timeout(c, dur, 0)
    }

    /// The accept timeout of clone `c` fired: its task waiting for the
    /// access, or the acceptor parked for a connection, is handed back to be
    /// reawakened.
    pub fn on_timeout(&mut self, c: usize) -> (r: Option<BlockedTask>)
        requires
            old(self).wf(),
            c < old(self).inner().clients().len(),
            old(self).inner().state(c) is TimeoutPending,
        ensures
            final(self).wf(),
            final(self).spec_timed_out(c),
            final(self).inner().clients().len() == old(self).inner().clients().len(),
            final(self).pending() == old(self).pending(),
            final(self).closed() == old(self).closed(),
            old(self).inner().state(c) == State::TimeoutPending(Client::RequestPending) ==>
                r == old(self).blocked() && final(self).blocked().is_none(),
            old(self).inner().state(c) == State::TimeoutPending(Client::NoWaiter) ==> r.is_none()
                && final(self).blocked() == old(self).blocked(),
            old(self).inner().state(c) == State::TimeoutPending(Client::AccessPending) ==> (
                (r.is_some() <==> has_owner(old(self).inner().acc().waiters(), c as u64))
                && final(self).blocked() == old(self).blocked()),
    {
        match self.access.on_timeout(c) {
            TimeoutAction::Wake(t) => Some(t),
            TimeoutAction::Unblock(_) => {
                let st = self.access.access().get_mut();
                st.blocked_acceptor.take()
            },
            TimeoutAction::Nothing => None,
        }
    }
}

} // verus!
