use vstd::prelude::*;
use crate::task::BlockedTask;

verus! {

/// The (target loop, task) identifiers of queued entries.
pub open spec fn entry_ids(q: Seq<(usize, BlockedTask)>) -> Seq<(usize, u64)> {
    q.map_values(|e: (usize, BlockedTask)| (e.0, e.1@))
}

pub open spec fn bound_for(local: usize) -> spec_fn((usize, u64)) -> bool {
    |e: (usize, u64)| e.0 == local
}

pub open spec fn bound_elsewhere(local: usize) -> spec_fn((usize, u64)) -> bool {
    |e: (usize, u64)| e.0 != local
}

/// A loop's wakeup queue: tasks sent to a loop from elsewhere, each with the
/// loop it is meant for, and the flag that asks the queue to shut down.
#[derive(Debug)]
pub struct QueuePool {
    queue: Vec<(usize, BlockedTask)>,
    exit: bool,
    handle: usize,
}

impl QueuePool {
    /// The queued (target, task) pairs, oldest first.
    pub closed spec fn entries(&self) -> Seq<(usize, u64)> {
        entry_ids(self.queue@)
    }

    pub closed spec fn exiting(&self) -> bool {
        self.exit
    }

    /// The async handle that wakes the owning loop.
    pub closed spec fn spec_handle(&self) -> usize {
        self.handle
    }

    pub fn new(handle: usize) -> (r: QueuePool)
        ensures
            r.entries().len() == 0,
            !r.exiting(),
            r.spec_handle() == handle,
    {
        QueuePool { queue: Vec::new(), exit: false, handle }
    }

    pub fn handle(&self) -> (r: usize)
        ensures
            r == self.spec_handle(),
    {
        self.handle
    }

    /// Queues `task` for the loop `target`; the async handle must then be
    /// fired.
    pub fn send(&mut self, target: usize, task: BlockedTask)
        ensures
            final(self).entries() == old(self).entries().push((target, task@)),
            final(self).exiting() == old(self).exiting(),
            final(self).spec_handle() == old(self).spec_handle(),
    {
        self.queue.push((target, task));
        proof {
            assert(entry_ids(self.queue@) =~= entry_ids(old(self).queue@).push((target, task@)));
        }
    }

    /// Asks the queue to shut down; the async handle must then be fired, so
    /// that one last callback sees the flag.
    pub fn shutdown(&mut self)
        ensures
            final(self).exiting(),
            final(self).entries() == old(self).entries(),
            final(self).spec_handle() == old(self).spec_handle(),
    {
        self.exit = true;
    }

    /// The async callback on loop `local`: the tasks meant for `local` leave
    /// the queue, in the order they came, to be reawakened; the others stay.
    /// The flag is read first: when set, the handle is to be closed after.
    pub fn on_async(&mut self, local: usize) -> (r: (Vec<BlockedTask>, bool))
        ensures
            r.1 == old(self).exiting(),
            r.0@.map_values(|t: BlockedTask| t@)
                == old(self).entries().filter(bound_for(local)).map_values(|e: (usize, u64)| e.1),
            final(self).entries() == old(self).entries().filter(bound_elsewhere(local)),
            final(self).exiting() == old(self).exiting(),
            final(self).spec_handle() == old(self).spec_handle(),
    {
        let should_exit = self.exit;
        let ghost orig = entry_ids(self.queue@);
        let n = self.queue.len();
        let mut mine: Vec<BlockedTask> = Vec::new();
        let mut rest: Vec<(usize, BlockedTask)> = Vec::new();
        let mut k: usize = 0;
        while self.queue.len() > 0
            invariant
                n == orig.len(),
                k + self.queue@.len() == n,
                entry_ids(self.queue@) == orig.subrange(k as int, orig.len() as int),
                mine@.map_values(|t: BlockedTask| t@)
                    == orig.subrange(0, k as int).filter(bound_for(local)).map_values(|e: (usize, u64)| e.1),
                entry_ids(rest@) == orig.subrange(0, k as int).filter(bound_elsewhere(local)),
                self.exit == old(self).exit,
                self.handle == old(self).handle,
            decreases self.queue.len(),
        {
            let ghost before = entry_ids(self.queue@);
            let ghost mine0 = mine@;
            let ghost rest0 = rest@;
            let (target, task) = self.queue.remove(0);
            let ghost e = (target, task@);
            let ghost pre = orig.subrange(0, k as int);
            let ghost post = orig.subrange(0, k as int + 1);
            proof {
                assert(before[0] == e);
                assert(entry_ids(self.queue@) =~= before.drop_first());
                assert(orig[k as int] == e) by {
                    assert(before[0] == orig.subrange(k as int, orig.len() as int)[0]);
                }
                assert(post.drop_last() =~= pre);
                assert(post.last() == e);
                reveal(Seq::filter);
            }
            if target == local {
                mine.push(task);
                proof {
                    assert(post.filter(bound_for(local)) == pre.filter(bound_for(local)).push(e));
                    assert(post.filter(bound_elsewhere(local)) == pre.filter(bound_elsewhere(local)));
                    assert(mine@ =~= mine0.push(task));
                    assert(mine@.map_values(|t: BlockedTask| t@)
                        =~= mine0.map_values(|t: BlockedTask| t@).push(task@));
                    assert(pre.filter(bound_for(local)).push(e).map_values(|e: (usize, u64)| e.1)
                        =~= pre.filter(bound_for(local)).map_values(|e: (usize, u64)| e.1).push(e.1));
                    assert(mine@.map_values(|t: BlockedTask| t@)
                        =~= post.filter(bound_for(local)).map_values(|e: (usize, u64)| e.1));
                }
            } else {
                rest.push((target, task));
                proof {
                    assert(post.filter(bound_for(local)) == pre.filter(bound_for(local)));
                    assert(post.filter(bound_elsewhere(local)) == pre.filter(bound_elsewhere(local)).push(e));
                    assert(entry_ids(rest@) =~= entry_ids(rest0).push(e));
                }
            }
            k += 1;
            proof {
                assert(entry_ids(self.queue@) =~= orig.subrange(k as int, orig.len() as int));
            }
        }
        proof {
            assert(orig.subrange(0, k as int) =~= orig);
        }
        self.queue = rest;
        (mine, should_exit)
    }
}

} // verus!
