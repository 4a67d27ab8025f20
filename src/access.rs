use vstd::prelude::*;
use crate::task::BlockedTask;

verus! {

/// The identifiers of the queued waiters, in queue order: (owner, task).
pub open spec fn waiter_ids(q: Seq<(u64, BlockedTask)>) -> Seq<(u64, u64)> {
    q.map_values(|p: (u64, BlockedTask)| (p.0, p.1@))
}

/// Whether some waiter in the queue belongs to `owner`.
pub open spec fn has_owner(q: Seq<(u64, u64)>, owner: u64) -> bool {
    exists|i: int| 0 <= i < q.len() && #[trigger] q[i].0 == owner
}

/// The position of the first waiter of `owner`.
pub open spec fn first_of(q: Seq<(u64, u64)>, owner: u64) -> int
    recommends
        has_owner(q, owner),
{
    choose|i: int| 0 <= i < q.len() && q[i].0 == owner && (forall|j: int| 0 <= j < i ==> q[j].0 != owner)
}

/// One release over the queue `w`: the first waiter becomes the holder, or
/// the resource falls free.
pub open spec fn release_model(w: Seq<(u64, u64)>) -> (Option<u64>, Seq<(u64, u64)>) {
    if w.len() == 0 { (None, w) } else { (Some(w[0].0), w.drop_first()) }
}

/// The owners that `k` successive releases hand the resource to.
pub open spec fn served(w: Seq<(u64, u64)>, k: nat) -> Seq<u64>
    decreases k,
{
    if k == 0 || w.len() == 0 {
        Seq::empty()
    } else {
        seq![release_model(w).0.unwrap()] + served(release_model(w).1, (k - 1) as nat)
    }
}

/// Waiters are served first come, first served: `k` releases hand the
/// resource to the first `k` waiters, in the order they queued. (There is
/// never more than one holder: `holder` is a single owner or none.)
pub proof fn lemma_fifo(w: Seq<(u64, u64)>, k: nat)
    requires
        k <= w.len(),
    ensures
        served(w, k) == w.take(k as int).map_values(|e: (u64, u64)| e.0),
    decreases k,
{
    if k == 0 {
        assert(w.take(0).map_values(|e: (u64, u64)| e.0) =~= Seq::<u64>::empty());
    } else {
        lemma_fifo(w.drop_first(), (k - 1) as nat);
        assert(served(w, k) =~= w.take(k as int).map_values(|e: (u64, u64)| e.0));
    }
}

/// Two tasks that park in turn on a held resource are granted it in that
/// order: after the waiters already queued, the first to park is served
/// before the second.
pub proof fn lemma_two_waiters_in_order(w: Seq<(u64, u64)>, t1: (u64, u64), t2: (u64, u64))
    ensures
        ({
            let q = w.push(t1).push(t2);
            let s = served(q, q.len());
            &&& s[w.len() as int] == t1.0
            &&& s[w.len() as int + 1] == t2.0
        }),
{
    let q = w.push(t1).push(t2);
    lemma_fifo(q, q.len());
    assert(q.take(q.len() as int) =~= q);
}

/// Arbitrates one half of a shared resource among tasks: at most one holder,
/// the others wait in first-come first-served order, and a persistent
/// `closed` flag.
#[derive(Debug)]
pub struct Access<T> {
    data: T,
    holder: Option<u64>,
    queue: Vec<(u64, BlockedTask)>,
    closed: bool,
}

impl<T> Access<T> {
    /// The owner that holds the resource, if any.
    pub closed spec fn holder(&self) -> Option<u64> {
        self.holder
    }

    /// The waiters, first to be served first.
    pub closed spec fn waiters(&self) -> Seq<(u64, u64)> {
        waiter_ids(self.queue@)
    }

    pub closed spec fn closed(&self) -> bool {
        self.closed
    }

    pub closed spec fn data(&self) -> T {
        self.data
    }

    /// Nobody waits on a resource that nobody holds.
    pub open spec fn wf(&self) -> bool {
        self.holder().is_none() ==> self.waiters().len() == 0
    }

    pub fn new(data: T) -> (r: Access<T>)
        ensures
            r.wf(),
            r.holder().is_none(),
            r.waiters().len() == 0,
            !r.closed(),
            r.data() == data,
    {
        Access { data, holder: None, queue: Vec::new(), closed: false }
    }

    /// Tries to take the resource for `owner`: granted at once when nobody
    /// holds it; otherwise the caller must park and `enqueue` itself.
    pub fn grant(&mut self, owner: u64) -> (r: bool)
        requires
            old(self).wf(),
        ensures
            final(self).wf(),
            r <==> old(self).holder().is_none(),
            r ==> final(self).holder() == Some(owner),
            !r ==> final(self).holder() == old(self).holder(),
            final(self).waiters() == old(self).waiters(),
            final(self).closed() == old(self).closed(),
            final(self).data() == old(self).data(),
    {
        if self.holder.is_none() {
            self.holder = Some(owner);
            true
        } else {
            false
        }
    }

    /// Parks `task` of `owner` at the back of the queue.
    pub fn enqueue(&mut self, owner: u64, task: BlockedTask)
        requires
            old(self).wf(),
            old(self).holder().is_some(),
        ensures
            final(self).wf(),
            final(self).waiters() == old(self).waiters().push((owner, task@)),
            final(self).holder() == old(self).holder(),
            final(self).closed() == old(self).closed(),
            final(self).data() == old(self).data(),
    {
        self.queue.push((owner, task));
        proof {
            assert(waiter_ids(self.queue@) =~= waiter_ids(old(self).queue@).push((owner, task@)));
        }
    }

    /// The holder lets go. The first waiter, if any, becomes the holder and
    /// its task is handed back to be reawakened; else the resource is free.
    pub fn release(&mut self) -> (r: Option<BlockedTask>)
        requires
            old(self).wf(),
            old(self).holder().is_some(),
        ensures
            final(self).wf(),
            (final(self).holder(), final(self).waiters()) == release_model(old(self).waiters()),
            old(self).waiters().len() == 0 ==> r.is_none() && final(self).holder().is_none()
                && final(self).waiters().len() == 0,
            old(self).waiters().len() > 0 ==> r.is_some() && r.unwrap()@ == old(self).waiters()[0].1
                && final(self).holder() == Some(old(self).waiters()[0].0)
                && final(self).waiters() == old(self).waiters().drop_first(),
            final(self).closed() == old(self).closed(),
            final(self).data() == old(self).data(),
    {
        if self.queue.len() == 0 {
            self.holder = None;
            None
        } else {
            let (owner, task) = self.queue.remove(0);
            self.holder = Some(owner);
            proof {
                assert(waiter_ids(self.queue@) =~= waiter_ids(old(self).queue@).drop_first());
            }
            Some(task)
        }
    }

    /// Takes the first waiter of `owner` out of the queue, giving its task
    /// back; `None` when `owner` does not wait.
    pub fn dequeue(&mut self, owner: u64) -> (r: Option<BlockedTask>)
        requires
            old(self).wf(),
        ensures
            final(self).wf(),
            r.is_some() <==> has_owner(old(self).waiters(), owner),
            r.is_some() ==> ({
                let i = first_of(old(self).waiters(), owner);
                &&& r.unwrap()@ == old(self).waiters()[i].1
                &&& final(self).waiters() == old(self).waiters().remove(i)
            }),
            r.is_none() ==> final(self).waiters() == old(self).waiters() && *final(self) == *old(self),
            final(self).holder() == old(self).holder(),
            final(self).closed() == old(self).closed(),
            final(self).data() == old(self).data(),
    {
        let ghost w = self.waiters();
        let mut i: usize = 0;
        while i < self.queue.len()
            invariant
                0 <= i <= self.queue.len(),
                w == waiter_ids(self.queue@),
                w.len() == self.queue@.len(),
                self.holder.is_none() ==> self.queue@.len() == 0,
                *self == *old(self),
                forall|j: int| 0 <= j < i ==> w[j].0 != owner,
            decreases self.queue.len() - i,
        {
            if self.queue[i].0 == owner {
                let (_, task) = self.queue.remove(i);
                proof {
                    assert(w[i as int].0 == owner);
                    assert(has_owner(w, owner));
                    let k = first_of(w, owner);
                    assert(k == i) by {
                        if k < i {
                            assert(w[k].0 != owner);
                        } else if k > i {
                            assert(w[i as int].0 == owner);
                        }
                    }
                    assert(waiter_ids(self.queue@) =~= w.remove(i as int));
                }
                return Some(task);
            }
            i += 1;
        }
        proof {
            assert(!has_owner(w, owner)) by {
                if has_owner(w, owner) {
                    let k = choose|k: int| 0 <= k < w.len() && #[trigger] w[k].0 == owner;
                    assert(w[k].0 != owner);
                }
            }
        }
        None
    }

    /// Flags the resource closed, for holders and later grants to see.
    pub fn close(&mut self)
        requires
            old(self).wf(),
        ensures
            final(self).wf(),
            final(self).closed(),
            final(self).holder() == old(self).holder(),
            final(self).waiters() == old(self).waiters(),
            final(self).data() == old(self).data(),
    {
        self.closed = true;
    }

    pub fn is_closed(&self) -> (r: bool)
        ensures
            r == self.closed(),
    {
        self.closed
    }

    pub fn holder_of(&self) -> (r: Option<u64>)
        ensures
            r == self.holder(),
    {
        self.holder
    }

    pub fn get(&self) -> (r: &T)
        ensures
            *r == self.data(),
    {
        &self.data
    }

    pub fn get_mut(&mut self) -> (r: &mut T)
        ensures
            *r == old(self).data(),
            final(self).data() == *final(r),
            final(self).holder() == old(self).holder(),
            final(self).waiters() == old(self).waiters(),
            final(self).closed() == old(self).closed(),
    {
        &mut self.data
    }
}

} // verus!
