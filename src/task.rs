use vstd::prelude::*;
use crate::raw::Loop;
use crate::error::{UvError, UvResult};

verus! {

/// A parked green task, as the executor handed it over.
///
/// The token is neither `Clone` nor `Copy`: it is consumed by exactly one
/// `reawaken`, so a task can never be woken twice.
#[derive(Debug)]
pub struct BlockedTask {
    id: u64,
}

impl BlockedTask {
    pub closed spec fn view(&self) -> u64 {
        self.id
    }

    /// Wraps the executor's identifier of a parked task.
    pub fn new(id: u64) -> (r: BlockedTask)
        ensures
            r@ == id,
    {
        BlockedTask { id }
    }

    /// The identifier of the parked task.
    pub fn id(&self) -> (r: u64)
        ensures
            r == self@,
    {
        self.id
    }

    /// Consumes the token, giving back the identifier of the task that the
    /// executor must now resume.
    pub fn reawaken(self) -> (r: u64)
        ensures
            r == self@,
    {
        self.id
    }
}

/// Whether a slot holds a task that a completion may wake.
pub open spec fn can_wake(slot: Option<BlockedTask>) -> bool {
    slot.is_some()
}

/// What `wakeup` does to a slot: the task it held comes out, the slot is
/// left empty.
pub open spec fn wakeup_spec(slot: Option<BlockedTask>) -> (BlockedTask, Option<BlockedTask>) {
    (slot.unwrap(), None)
}

/// Each `block` is followed by exactly one `wakeup`: the slot that `block`
/// filled can be woken, that wakeup hands back the very task that was
/// parked, and the slot it leaves cannot be woken again (a second wakeup is
/// refused).
pub proof fn lemma_single_wakeup(task: BlockedTask)
    ensures
        can_wake(Some(task)),
        wakeup_spec(Some(task)).0 == task,
        !can_wake(wakeup_spec(Some(task)).1),
{
}

/// The number of parks in a sequence of loop events (`true`: a task
/// blocks, `false`: a parked task resumes).
pub open spec fn parks(ev: Seq<bool>) -> int
    decreases ev.len(),
{
    if ev.len() == 0 { 0 } else { parks(ev.drop_last()) + if ev.last() { 1int } else { 0int } }
}

/// The number of resumes in a sequence of loop events.
pub open spec fn resumes(ev: Seq<bool>) -> int
    decreases ev.len(),
{
    if ev.len() == 0 { 0 } else { resumes(ev.drop_last()) + if ev.last() { 0int } else { 1int } }
}

/// The blocker count after the events, from `c`: each `block` adds one,
/// each `unblock` takes one away.
pub open spec fn count_after(c: int, ev: Seq<bool>) -> int
    decreases ev.len(),
{
    if ev.len() == 0 { c } else { count_after(c, ev.drop_last()) + if ev.last() { 1int } else { -1int } }
}

/// However blocks and resumes of several tasks interleave on a loop, its
/// blocker count is the number of tasks parked on it: the starting count
/// plus the parks minus the resumes; and since a task resumes only after it
/// parked, the count never goes below zero.
pub proof fn lemma_blockers_count_parked(c: int, ev: Seq<bool>)
    requires
        c >= 0,
        forall|k: int| 0 <= k <= ev.len() ==> #[trigger] resumes(ev.take(k)) <= c + parks(ev.take(k)),
    ensures
        count_after(c, ev) == c + parks(ev) - resumes(ev),
        count_after(c, ev) >= 0,
    decreases ev.len(),
{
    if ev.len() > 0 {
        let e = ev.drop_last();
        assert forall|k: int| 0 <= k <= e.len() implies #[trigger] resumes(e.take(k)) <= c + parks(e.take(k)) by {
            assert(e.take(k) =~= ev.take(k));
        }
        lemma_blockers_count_parked(c, e);
    }
    assert(ev.take(ev.len() as int) =~= ev);
}

/// Parks the current task on `uv_loop`: the loop counts one more blocker,
/// and the task is published into `slot`, where the completion callback
/// will find it.
pub fn block(uv_loop: &mut Loop, task: BlockedTask, slot: &mut Option<BlockedTask>)
    requires
        old(slot).is_none(),
        old(uv_loop).blockers() < usize::MAX,
    ensures
        final(uv_loop).blockers() == old(uv_loop).blockers() + 1,
        final(uv_loop).id() == old(uv_loop).id(),
        final(uv_loop).is_closed() == old(uv_loop).is_closed(),
        *final(slot) == Some(task),
        can_wake(*final(slot)),
{
    let cnt = uv_loop.get_data();
    uv_loop.set_data(cnt + 1);
    *slot = Some(task);
}

/// The parked task has been resumed: the loop counts one blocker less.
pub fn unblock(uv_loop: &mut Loop)
    requires
        old(uv_loop).blockers() > 0,
    ensures
        final(uv_loop).blockers() == old(uv_loop).blockers() - 1,
        final(uv_loop).id() == old(uv_loop).id(),
        final(uv_loop).is_closed() == old(uv_loop).is_closed(),
{
    let cnt = uv_loop.get_data();
    uv_loop.set_data(cnt - 1);
}

/// Takes the one task parked in `slot`, to be reawakened. A slot that holds
/// no task cannot be woken: a second wakeup of the same slot is rejected.
pub fn wakeup(slot: &mut Option<BlockedTask>) -> (r: BlockedTask)
    requires
        can_wake(*old(slot)),
    ensures
        (r, *final(slot)) == wakeup_spec(*old(slot)),
        Some(r) == *old(slot),
        !can_wake(*final(slot)),
{
    slot.take().unwrap()
}

/// Marks a region in which the task must not start failing: the flag that
/// the task had on entry is compared with its flag on exit.
pub struct ForbidUnwind {
    msg: &'static str,
    failing_before: bool,
}

impl ForbidUnwind {
    pub fn new(msg: &'static str, failing: bool) -> (r: ForbidUnwind)
        ensures
            r.failing_before() == failing,
            r.msg()@ == msg@,
    {
        ForbidUnwind { msg, failing_before: failing }
    }

    pub closed spec fn failing_before(&self) -> bool {
        self.failing_before
    }

    pub closed spec fn msg(&self) -> &'static str {
        self.msg
    }

    /// Leaves the region: `Ok` when the task's failing flag is what it was
    /// on entry, else `Err` with the region's message.
    pub fn finish(self, failing: bool) -> (r: Result<(), &'static str>)
        ensures
            r.is_ok() <==> failing == self.failing_before(),
            r matches Err(m) ==> m@ == self.msg()@,
    {
        if failing == self.failing_before {
            Ok(())
        } else {
            Err(self.msg)
        }
    }
}

/// The context of one single-shot reactor request: the task parked on it
/// and the status that its completion callback records.
#[derive(Debug)]
pub struct RequestCtx {
    status: i32,
    task: Option<BlockedTask>,
}

/// The outcome of a request's status: negative statuses are errors.
pub open spec fn status_result(status: i32) -> UvResult<()> {
    if status < 0 { Err(UvError(status)) } else { Ok(()) }
}

impl RequestCtx {
    pub closed spec fn status(&self) -> i32 {
        self.status
    }

    pub closed spec fn task(&self) -> Option<BlockedTask> {
        self.task
    }

    pub closed spec fn new_spec(status: i32) -> RequestCtx {
        RequestCtx { status, task: None }
    }

    /// A context whose status reads `status` until the callback fires.
    pub fn new(status: i32) -> (r: RequestCtx)
        ensures
            r == RequestCtx::new_spec(status),
            r.status() == status,
            r.task().is_none(),
    {
        RequestCtx { status, task: None }
    }

    /// Parks the submitting task on the request.
    pub fn park(&mut self, task: BlockedTask)
        requires
            old(self).task().is_none(),
        ensures
            final(self).task() == Some(task),
            final(self).status() == old(self).status(),
    {
        self.task = Some(task);
    }

    /// The request completed with `status`: it is recorded, and the parked
    /// task handed back to be reawakened.
    pub fn complete(&mut self, status: i32) -> (r: BlockedTask)
        requires
            old(self).task().is_some(),
        ensures
            final(self).status() == status,
            Some(r) == old(self).task(),
            final(self).task().is_none(),
    {
        self.status = status;
        self.task.take().unwrap()
    }

    /// The outcome of the request, once its task runs again.
    pub fn finish(&self) -> (r: UvResult<()>)
        ensures
            r == status_result(self.status()),
    {
        if self.status < 0 {
            Err(UvError(self.status))
        } else {
            Ok(())
        }
    }
}

} // verus!
