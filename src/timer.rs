use vstd::prelude::*;
use crate::event_loop::EventLoop;
use crate::homing::HomeHandle;
use crate::raw::{self, HandleLife, LifeState};
use crate::task::BlockedTask;

verus! {

/// A user callback, as the executor's identifier of it. Dropping it (for
/// instance a channel's sending end) is how its receiver learns that it
/// will never run.
#[derive(Debug)]
pub struct Callback {
    id: u64,
}

impl Callback {
    pub closed spec fn view(&self) -> u64 {
        self.id
    }

    pub fn new(id: u64) -> (r: Callback)
        ensures
            r@ == id,
    {
        Callback { id }
    }

    pub fn id(&self) -> (r: u64)
        ensures
            r == self@,
    {
        self.id
    }
}

/// What the timer does when it fires.
#[derive(Debug)]
pub enum Action {
    WakeTask(BlockedTask),
    CallOnce(Callback),
    /// A periodic callback, with the timer's id when it was set.
    CallMany(Callback, usize),
}

/// How the reactor timer is to be (re)started: after `timeout` ms, then
/// every `repeat` ms (0: once).
#[derive(Clone, Copy, Debug, PartialEq, Eq, Structural)]
pub struct TimerStart {
    pub timeout: u64,
    pub repeat: u64,
}

/// The delay of a one-time action: a duration of zero or less fires at once.
pub open spec fn once_ms(ms: i64) -> u64 {
    if ms <= 0 { 0 } else { ms as u64 }
}

/// The period of a periodic action: at least one millisecond.
pub open spec fn period_ms(ms: i64) -> u64 {
    if ms <= 0 { 1 } else { ms as u64 }
}

pub open spec fn next_id(id: usize) -> usize {
    if id == usize::MAX { 0 } else { (id + 1) as usize }
}

/// A timer on an event loop: at most one action at a time, each new setting
/// replacing (and handing back) the previous action. Its reactor handle is
/// closed when the timer is dropped, and released in the close callback.
pub struct Timer {
    handle: raw::Timer,
    home: HomeHandle,
    action: Option<Action>,
    id: usize,
    life: HandleLife,
}

impl Timer {
    pub closed spec fn action(&self) -> Option<Action> {
        self.action
    }

    /// The life of the reactor timer handle.
    pub closed spec fn spec_life(&self) -> HandleLife {
        self.life
    }

    pub open spec fn life_state(&self) -> LifeState {
        self.spec_life().state()
    }

    /// Once the timer is being dropped, it holds no action any more.
    pub open spec fn wf(&self) -> bool {
        &&& self.spec_life().wf()
        &&& self.life_state() != LifeState::Open ==> self.action().is_none()
    }

    /// Bumped by each new setting, so that a periodic callback set before
    /// knows that it is stale.
    pub closed spec fn spec_id(&self) -> usize {
        self.id
    }

    pub closed spec fn spec_home(&self) -> HomeHandle {
        self.home
    }

    pub closed spec fn spec_handle(&self) -> raw::Timer {
        self.handle
    }

    /// The timer with action `a` and id `id`, the rest unchanged.
    pub closed spec fn with_action(self, a: Option<Action>, id: usize) -> Timer {
        Timer { action: a, id, ..self }
    }

    /// The timer after `sleep(ms, task)`, and what the call hands back: the
    /// previous action and how the reactor timer is started.
    pub closed spec fn sleep_spec(self, ms: i64, task: BlockedTask) -> (Timer, (Option<Action>, TimerStart)) {
        (
            self.with_action(Some(Action::WakeTask(task)), next_id(self.id)),
            (self.action, TimerStart { timeout: once_ms(ms), repeat: 0 }),
        )
    }

    /// The timer after `oneshot(ms, cb)`, and what the call hands back.
    pub closed spec fn oneshot_spec(self, ms: i64, cb: Callback) -> (Timer, (Option<Action>, TimerStart)) {
        (
            self.with_action(Some(Action::CallOnce(cb)), next_id(self.id)),
            (self.action, TimerStart { timeout: once_ms(ms), repeat: 0 }),
        )
    }

    /// A timer with no action, over the reactor timer `handle` of `eloop`.
    pub fn new_on(eloop: &mut EventLoop, handle: raw::Timer) -> (r: Timer)
        requires
            old(eloop).spec_pool().is_some(),
        ensures
            r.wf(),
            r.life_state() == LifeState::Open,
            r.action().is_none(),
            r.spec_id() == 0,
            r.spec_home().spec_id() == old(eloop).id(),
            r.spec_handle() == handle,
            *final(eloop) == *old(eloop),
    {
        let home = eloop.make_handle();
        Timer { handle, home, action: None, id: 0, life: HandleLife::new() }
    }

    pub fn home(&self) -> (r: &HomeHandle)
        ensures
            *r == self.spec_home(),
    {
        &self.home
    }

    pub fn raw(&self) -> (r: raw::Timer)
        ensures
            r == self.spec_handle(),
    {
        self.handle
    }

    fn bump(&mut self)
        ensures
            final(self).spec_id() == next_id(old(self).spec_id()),
            final(self).action() == old(self).action(),
            final(self).spec_life() == old(self).spec_life(),
            final(self).spec_home() == old(self).spec_home(),
            final(self).spec_handle() == old(self).spec_handle(),
    {
        self.id = if self.id == usize::MAX { 0 } else { self.id + 1 };
    }

    /// Puts `task` to sleep for `ms` milliseconds. The previous action comes
    /// back, to be dropped once the task has left the home loop.
    pub fn sleep(&mut self, ms: i64, task: BlockedTask) -> (r: (Option<Action>, TimerStart))
        requires
            old(self).wf(),
            old(self).life_state() == LifeState::Open,
        ensures
            final(self).wf(),
            r.0 == old(self).action(),
            r.1 == (TimerStart { timeout: once_ms(ms), repeat: 0 }),
            (*final(self), r) == old(self).sleep_spec(ms, task),
            *final(self) == old(self).with_action(Some(Action::WakeTask(task)), next_id(old(self).spec_id())),
            final(self).action() == Some(Action::WakeTask(task)),
            final(self).spec_id() == next_id(old(self).spec_id()),
            final(self).spec_home() == old(self).spec_home(),
            final(self).spec_handle() == old(self).spec_handle(),
    {
        let prev = self.action.take();
        let timeout: u64 = if ms <= 0 { 0 } else { ms as u64 };
        self.bump();
        self.action = Some(Action::WakeTask(task));
        (prev, TimerStart { timeout, repeat: 0 })
    }

    /// Runs `cb` once, after `ms` milliseconds. The previous action comes
    /// back, to be dropped.
    pub fn oneshot(&mut self, ms: i64, cb: Callback) -> (r: (Option<Action>, TimerStart))
        requires
            old(self).wf(),
            old(self).life_state() == LifeState::Open,
        ensures
            final(self).wf(),
            r.0 == old(self).action(),
            r.1 == (TimerStart { timeout: once_ms(ms), repeat: 0 }),
            (*final(self), r) == old(self).oneshot_spec(ms, cb),
            *final(self) == old(self).with_action(Some(Action::CallOnce(cb)), next_id(old(self).spec_id())),
            final(self).action() == Some(Action::CallOnce(cb)),
            final(self).spec_id() == next_id(old(self).spec_id()),
            final(self).spec_home() == old(self).spec_home(),
            final(self).spec_handle() == old(self).spec_handle(),
    {
        let timeout: u64 = if ms <= 0 { 0 } else { ms as u64 };
        self.bump();
        let prev = self.action.take();
        self.action = Some(Action::CallOnce(cb));
        (prev, TimerStart { timeout, repeat: 0 })
    }

    /// Runs `cb` every `ms` milliseconds. The previous action comes back, to
    /// be dropped.
    pub fn periodic(&mut self, ms: i64, cb: Callback) -> (r: (Option<Action>, TimerStart))
        requires
            old(self).wf(),
            old(self).life_state() == LifeState::Open,
        ensures
            final(self).wf(),
            r.0 == old(self).action(),
            r.1 == (TimerStart { timeout: period_ms(ms), repeat: period_ms(ms) }),
            *final(self) == old(self).with_action(
                Some(Action::CallMany(cb, next_id(old(self).spec_id()))), next_id(old(self).spec_id())),
            final(self).action() == Some(Action::CallMany(cb, next_id(old(self).spec_id()))),
            final(self).spec_id() == next_id(old(self).spec_id()),
            final(self).spec_home() == old(self).spec_home(),
            final(self).spec_handle() == old(self).spec_handle(),
    {
        let period: u64 = if ms <= 0 { 1 } else { ms as u64 };
        self.bump();
        let prev = self.action.take();
        self.action = Some(Action::CallMany(cb, self.id));
        (prev, TimerStart { timeout: period, repeat: period })
    }

    /// The reactor timer fired: the action leaves the timer, to be carried
    /// out (a periodic callback is then offered back with `restore`).
    pub fn timer_cb(&mut self) -> (r: Action)
        requires
            old(self).wf(),
            old(self).life_state() == LifeState::Open,
            old(self).action().is_some(),
        ensures
            final(self).wf(),
            final(self).spec_life() == old(self).spec_life(),
            Some(r) == old(self).action(),
            final(self).action().is_none(),
            final(self).spec_id() == old(self).spec_id(),
            final(self).spec_home() == old(self).spec_home(),
            final(self).spec_handle() == old(self).spec_handle(),
    {
        self.action.take().unwrap()
    }

    /// A periodic callback has run. It stays the timer's action only if no
    /// new setting came meanwhile and the timer is not being dropped; else
    /// it comes back, to be dropped.
    pub fn restore(&mut self, cb: Callback, id: usize) -> (r: Option<Callback>)
        requires
            old(self).wf(),
            old(self).action().is_none(),
        ensures
            final(self).wf(),
            final(self).spec_life() == old(self).spec_life(),
            (old(self).spec_id() == id && old(self).life_state() == LifeState::Open) ==> r.is_none()
                && final(self).action() == Some(Action::CallMany(cb, id)),
            (old(self).spec_id() != id || old(self).life_state() != LifeState::Open) ==> r == Some(cb)
                && final(self).action().is_none(),
            final(self).spec_id() == old(self).spec_id(),
            final(self).spec_home() == old(self).spec_home(),
            final(self).spec_handle() == old(self).spec_handle(),
    {
        if self.id == id && !self.life.is_closing_or_later() {
            self.action = Some(Action::CallMany(cb, id));
            None
        } else {
            Some(cb)
        }
    }

    /// The timer is being dropped: the reactor timer is stopped and closed,
    /// a periodic callback still running learns that it is stale, and the
    /// action comes back, to be dropped away from the home loop.
    pub fn close(&mut self) -> (r: Option<Action>)
        requires
            old(self).wf(),
            old(self).life_state() == LifeState::Open,
        ensures
            final(self).wf(),
            final(self).life_state() == LifeState::Closing,
            r == old(self).action(),
            final(self).action().is_none(),
            final(self).spec_id() == next_id(old(self).spec_id()),
            final(self).spec_home() == old(self).spec_home(),
            final(self).spec_handle() == old(self).spec_handle(),
    {
        self.bump();
        self.life.close();
        self.action.take()
    }

    /// The reactor's close callback for the timer handle fired: only now is
    /// its memory (with the timer's data) released. It fires once.
    pub fn close_cb(&mut self)
        requires
            old(self).wf(),
            old(self).life_state() == LifeState::Closing,
        ensures
            final(self).wf(),
            final(self).life_state() == LifeState::Freed,
            final(self).spec_life().close_callbacks() == 1,
            final(self).action().is_none(),
    {
        self.life.close_cb();
        self.life.free();
    }

    /// Whether the timer's memory was released.
    pub fn is_freed(&self) -> (r: bool)
        ensures
            r == (self.life_state() == LifeState::Freed),
    {
        self.life.is_freed()
    }
}

/// A oneshot followed by a sleep on the same timer: the sleep hands back
/// the oneshot's callback, which is dropped (its receiver sees the hangup),
/// and only the sleeping task remains.
pub proof fn lemma_oneshot_then_sleep(t: Timer, ms1: i64, cb: Callback, ms2: i64, task: BlockedTask)
    ensures
        ({
            let (t1, r1) = t.oneshot_spec(ms1, cb);
            let (t2, r2) = t1.sleep_spec(ms2, task);
            &&& r2.0 == Some(Action::CallOnce(cb))
            &&& t2.action() == Some(Action::WakeTask(task))
            &&& r2.1 == (TimerStart { timeout: once_ms(ms2), repeat: 0 })
        }),
{
}

/// A periodic callback set before a later setting of the same timer is not
/// restored: the later setting bumped the id past the one it carries.
pub proof fn lemma_stale_periodic(id: usize)
    ensures
        next_id(id) != id,
{
}

} // verus!
