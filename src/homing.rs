use vstd::prelude::*;

verus! {

/// The loop that owns an I/O object: its identity and its wakeup queue.
#[derive(Clone, Copy, Debug, PartialEq, Eq, Structural)]
pub struct HomeHandle {
    id: usize,
    queue: usize,
}

/// A task's stay on the home loop of an I/O object, from the loop it came
/// from. Dropping it (`land`) sends the task back there.
#[derive(Debug, PartialEq, Eq, Structural)]
pub struct HomingMissile {
    origin: usize,
    home: usize,
}

/// The missile that a task running on loop `local` acquires for `h`.
pub closed spec fn missile_of(h: HomeHandle, local: usize) -> HomingMissile {
    HomingMissile { origin: local, home: h.spec_id() }
}

/// Where the task is sent when the missile is dropped: nowhere if it never
/// left its loop.
pub open spec fn landing(m: HomingMissile) -> Option<usize> {
    if m.spec_origin() == m.spec_home() { None } else { Some(m.spec_origin()) }
}

impl HomeHandle {
    pub closed spec fn spec_id(&self) -> usize {
        self.id
    }

    pub closed spec fn spec_queue(&self) -> usize {
        self.queue
    }

    /// The home of the loop `id`, whose wakeup queue is `queue`.
    pub fn new(id: usize, queue: usize) -> (r: HomeHandle)
        ensures
            r.spec_id() == id,
            r.spec_queue() == queue,
    {
        HomeHandle { id, queue }
    }

    pub fn id(&self) -> (r: usize)
        ensures
            r == self.spec_id(),
    {
        self.id
    }

    /// The wakeup queue through which a task is sent home.
    pub fn queue(&self) -> (r: usize)
        ensures
            r == self.spec_queue(),
    {
        self.queue
    }

    /// Acquires the right to touch the object from a task on loop `local`.
    /// The task must run on the home loop until the missile lands; it has to
    /// travel there when `needs_travel` says so.
    pub fn fire_homing_missile(&self, local: usize) -> (r: HomingMissile)
        ensures
            r == missile_of(*self, local),
    {
        HomingMissile { origin: local, home: self.id }
    }
}

impl HomingMissile {
    pub closed spec fn spec_origin(&self) -> usize {
        self.origin
    }

    pub closed spec fn spec_home(&self) -> usize {
        self.home
    }

    /// The loop that the task came from.
    pub fn origin(&self) -> (r: usize)
        ensures
            r == self.spec_origin(),
    {
        self.origin
    }

    /// The loop on which the task runs while the missile is held.
    pub fn home(&self) -> (r: usize)
        ensures
            r == self.spec_home(),
    {
        self.home
    }

    /// Whether the task must move to the home loop (and back at landing).
    pub fn needs_travel(&self) -> (r: bool)
        ensures
            r == (self.spec_origin() != self.spec_home()),
    {
        self.origin != self.home
    }

    /// Drops the missile: the loop that the task is sent back to, if it
    /// left its own.
    pub fn land(self) -> (r: Option<usize>)
        ensures
            r == landing(self),
    {
        if self.origin == self.home { None } else { Some(self.origin) }
    }
}

/// Between acquiring a missile and landing it the task runs on the home
/// loop, and after landing it runs on the loop it came from.
pub proof fn lemma_missile_round_trip(h: HomeHandle, local: usize)
    ensures
        missile_of(h, local).spec_home() == h.spec_id(),
        (match landing(missile_of(h, local)) {
            Some(d) => d,
            None => missile_of(h, local).spec_home(),
        }) == local,
{
}

} // verus!
