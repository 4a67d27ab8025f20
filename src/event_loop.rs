use vstd::prelude::*;
use crate::error::{UvError, UvResult, EBUSY, UNKNOWN};
use crate::homing::HomeHandle;
use crate::queue::QueuePool;
use crate::raw::Loop;

verus! {

/// A thread's "current event loop" slot: the loop running on the thread, if
/// any, and whether it is borrowed.
#[derive(Clone, Copy, Debug, PartialEq, Eq, Structural)]
pub struct LocalLoop {
    pub current: Option<usize>,
    pub borrowed: bool,
}

impl LocalLoop {
    /// A thread on which no loop runs.
    pub fn new() -> (r: LocalLoop)
        ensures
            r.current.is_none(),
            !r.borrowed,
    {
        LocalLoop { current: None, borrowed: false }
    }
}

/// The steps of shutting an event loop down, in their order.
#[derive(Clone, Copy, Debug, PartialEq, Eq, Structural)]
pub enum TeardownStep {
    /// The wakeup queue leaves the loop and its handles are closed (before
    /// the loop goes, or the async handle would outlive it).
    DropPool,
    /// The reactor runs once more, so that every close callback fires.
    RunOnce,
    /// The reactor loop is closed; only possible with no parked task.
    CloseLoop,
    /// The queue's wakeup handle is freed (after the close, which uses it).
    FreeWakeupHandle,
    /// The reactor loop's memory is freed.
    FreeLoop,
}

/// The shutdown order.
pub open spec fn teardown_order() -> Seq<TeardownStep> {
    seq![
        TeardownStep::DropPool,
        TeardownStep::RunOnce,
        TeardownStep::CloseLoop,
        TeardownStep::FreeWakeupHandle,
        TeardownStep::FreeLoop,
    ]
}

/// How far the shutdown of an event loop has come.
#[derive(Debug)]
pub struct Teardown {
    done: usize,
}

impl Teardown {
    /// The number of steps taken.
    pub closed spec fn done(&self) -> usize {
        self.done
    }

    pub fn new() -> (r: Teardown)
        ensures
            r.done() == 0,
    {
        Teardown { done: 0 }
    }

    pub fn is_finished(&self) -> (r: bool)
        ensures
            r == (self.done() >= 5),
    {
        self.done >= 5
    }
}

/// An event loop: the reactor loop and the wakeup queue through which tasks
/// are sent to it.
#[derive(Debug)]
pub struct EventLoop {
    uv_loop: Loop,
    pool: Option<QueuePool>,
}

/// Exclusive use of the thread's current loop, until `release`.
#[derive(Debug)]
pub struct BorrowedEventLoop {
    local: usize,
}

impl BorrowedEventLoop {
    pub closed spec fn spec_local(&self) -> usize {
        self.local
    }

    /// The borrowed loop.
    pub fn local(&self) -> (r: usize)
        ensures
            r == self.spec_local(),
    {
        self.local
    }

    /// Ends the borrow.
    pub fn release(self, tls: &mut LocalLoop)
        requires
            old(tls).current == Some(self.spec_local()),
        ensures
            final(tls).current == old(tls).current,
            !final(tls).borrowed,
    {
        tls.borrowed = false;
    }
}

impl EventLoop {
    pub closed spec fn spec_loop(&self) -> Loop {
        self.uv_loop
    }

    pub closed spec fn spec_pool(&self) -> Option<QueuePool> {
        self.pool
    }

    pub open spec fn id(&self) -> usize {
        self.spec_loop().id()
    }

    /// An event loop over a freshly initialised reactor loop, with its
    /// wakeup queue.
    pub fn new(uv_loop: Loop, pool: QueuePool) -> (r: EventLoop)
        requires
            uv_loop.blockers() == 0,
        ensures
            r.spec_loop() == uv_loop,
            r.spec_pool() == Some(pool),
    {
        EventLoop { uv_loop, pool: Some(pool) }
    }

    /// Borrows the thread's current loop. Fails with `UNKNOWN` when no loop
    /// runs on the thread or it is already borrowed.
    pub fn borrow(tls: &mut LocalLoop) -> (r: UvResult<BorrowedEventLoop>)
        ensures
            (old(tls).current.is_none() || old(tls).borrowed) ==>
                r.is_err() && r == Err::<BorrowedEventLoop, UvError>(UvError(UNKNOWN))
                && *final(tls) == *old(tls),
            (old(tls).current.is_some() && !old(tls).borrowed) ==> r.is_ok()
                && r.unwrap().spec_local() == old(tls).current.unwrap()
                && final(tls).borrowed
                && final(tls).current == old(tls).current,
    {
        match tls.current {
            Some(p) => {
                if tls.borrowed {
                    Err(UvError(UNKNOWN))
                } else {
                    tls.borrowed = true;
                    Ok(BorrowedEventLoop { local: p })
                }
            },
            None => Err(UvError(UNKNOWN)),
        }
    }

    /// The thread's current loop, without borrowing it.
    pub fn borrow_raw(tls: &LocalLoop) -> (r: UvResult<usize>)
        ensures
            r == (match tls.current {
                Some(p) => Ok::<usize, UvError>(p),
                None => Err::<usize, UvError>(UvError(UNKNOWN)),
            }),
    {
        match tls.current {
            Some(p) => Ok(p),
            None => Err(UvError(UNKNOWN)),
        }
    }

    /// Publishes this loop as the thread's current one, before running the
    /// reactor. Fails with `UNKNOWN` when a loop is already current.
    pub fn run(&self, tls: &mut LocalLoop) -> (r: UvResult<()>)
        ensures
            old(tls).current.is_some() ==> r == Err::<(), UvError>(UvError(UNKNOWN)) && *final(tls) == *old(tls),
            old(tls).current.is_none() ==> r.is_ok() && final(tls).current == Some(self.id())
                && !final(tls).borrowed,
    {
        if tls.current.is_some() {
            return Err(UvError(UNKNOWN));
        }
        tls.current = Some(self.uv_loop.raw());
        tls.borrowed = false;
        Ok(())
    }

    /// The reactor has run out of work: the thread has no current loop any
    /// more.
    pub fn finish_run(&self, tls: &mut LocalLoop)
        requires
            old(tls).current == Some(self.id()),
        ensures
            final(tls).current.is_none(),
            !final(tls).borrowed,
    {
        tls.current = None;
        tls.borrowed = false;
    }

    /// The reactor loop, on which tasks are parked.
    pub fn uv_loop(&mut self) -> (r: &mut Loop)
        ensures
            *r == old(self).spec_loop(),
            final(self).spec_loop() == *final(r),
            final(self).spec_pool() == old(self).spec_pool(),
    {
        &mut self.uv_loop
    }

    /// A handle that sends tasks home to this loop through its queue.
    pub fn make_handle(&mut self) -> (r: HomeHandle)
        requires
            old(self).spec_pool().is_some(),
        ensures
            r.spec_id() == old(self).id(),
            r.spec_queue() == old(self).spec_pool().unwrap().spec_handle(),
            *final(self) == *old(self),
    {
        let q = match &self.pool {
            Some(p) => p.handle(),
            None => 0,
        };
        HomeHandle::new(self.uv_loop.raw(), q)
    }

    /// The loop's wakeup queue.
    pub fn pool(&mut self) -> (r: &mut Option<QueuePool>)
        ensures
            *r == old(self).spec_pool(),
            final(self).spec_pool() == *final(r),
            final(self).spec_loop() == old(self).spec_loop(),
    {
        &mut self.pool
    }

    /// Whether tasks are parked on this loop.
    pub fn has_active_io(&self) -> (r: bool)
        ensures
            r == (self.spec_loop().blockers() > 0),
    {
        self.uv_loop.get_data() > 0
    }

    /// First step of shutting down: the wakeup queue leaves the loop (its
    /// handles are then closed, and the reactor run once more so that their
    /// close callbacks fire).
    pub fn take_pool(&mut self) -> (r: Option<QueuePool>)
        ensures
            r == old(self).spec_pool(),
            final(self).spec_pool().is_none(),
            final(self).spec_loop() == old(self).spec_loop(),
    {
        self.pool.take()
    }

    /// Closes the reactor loop, once the queue is gone. A loop with parked
    /// tasks is busy: it is not closed, and `EBUSY` comes back.
    pub fn close(&mut self) -> (r: UvResult<()>)
        requires
            old(self).spec_pool().is_none(),
            !old(self).spec_loop().is_closed(),
        ensures
            r.is_ok() <==> old(self).spec_loop().blockers() == 0,
            r.is_ok() ==> final(self).spec_loop().is_closed(),
            r.is_err() ==> r == Err::<(), UvError>(UvError(EBUSY)) && *final(self) == *old(self),
            final(self).spec_pool().is_none(),
    {
        self.uv_loop.close()
    }

    /// Takes the next step of shutting the loop down, and says which it
    /// was. The steps come in the order of `teardown_order`: the queue
    /// leaves first, and the loop closes only after the reactor's last run
    /// and only while no task is parked on it (else `EBUSY`, and the step is
    /// to be taken again later). The queue's handle, which `FreeWakeupHandle`
    /// concerns, comes back with `DropPool`.
    pub fn teardown_step(&mut self, t: &mut Teardown) -> (r: (UvResult<TeardownStep>, Option<QueuePool>))
        requires
            old(t).done() < 5,
            old(t).done() >= 1 ==> old(self).spec_pool().is_none(),
            old(t).done() <= 2 ==> !old(self).spec_loop().is_closed(),
            old(t).done() >= 3 ==> old(self).spec_loop().is_closed(),
        ensures
            final(t).done() >= 1 ==> final(self).spec_pool().is_none(),
            final(t).done() <= 2 ==> !final(self).spec_loop().is_closed(),
            final(t).done() >= 3 ==> final(self).spec_loop().is_closed(),
            r.0 matches Ok(step) ==> step == teardown_order()[old(t).done() as int]
                && final(t).done() == old(t).done() + 1,
            r.0.is_err() ==> final(t).done() == old(t).done() && *final(self) == *old(self)
                && r.0 == Err::<TeardownStep, UvError>(UvError(EBUSY)),
            r.0.is_err() <==> (old(t).done() == 2 && old(self).spec_loop().blockers() > 0),
            old(t).done() == 0 ==> r.1 == old(self).spec_pool(),
            old(t).done() != 0 ==> r.1.is_none(),
            old(t).done() == 2 && r.0.is_ok() ==> old(self).spec_loop().blockers() == 0,
            final(self).spec_loop().id() == old(self).spec_loop().id(),
            final(self).spec_loop().blockers() == old(self).spec_loop().blockers(),
    {
        let step = t.done;
        if step == 0 {
            let pool = self.pool.take();
            t.done = 1;
            (Ok(TeardownStep::DropPool), pool)
        } else if step == 1 {
            t.done = 2;
            (Ok(TeardownStep::RunOnce), None)
        } else if step == 2 {
            match self.uv_loop.close() {
                Ok(()) => {
                    t.done = 3;
                    (Ok(TeardownStep::CloseLoop), None)
                },
                Err(e) => (Err(e), None),
            }
        } else if step == 3 {
            t.done = 4;
            (Ok(TeardownStep::FreeWakeupHandle), None)
        } else {
            t.done = 5;
            (Ok(TeardownStep::FreeLoop), None)
        }
    }
}

} // verus!
