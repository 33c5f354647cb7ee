//! The ambient task slot of generation 0.1 and the explicit waker and
//! context of generation 0.2.
//!
//! Generation 0.1 keeps "the task currently being polled" in a
//! thread-scoped slot that the driving executor fills before each poll.
//! Here that slot is an explicit value, handed down by whichever executor
//! drives the call, so that the install/restore discipline around every
//! poll can be stated and checked. A task is named by an identifier, and
//! delivering a wake request to a task is recorded on the task itself.

use vstd::prelude::*;

verus! {

/// A generation-0.1 task as the driving executor sees it: an identity,
/// and a count of the wake requests delivered to it so far. A task whose
/// count rises must be polled again at least once.
#[derive(Debug, Clone, Copy, PartialEq, Eq, Structural)]
pub struct AmbientTask {
    /// The identity that the ambient slot and captured wakers refer to.
    pub id: u64,
    /// How many wake requests the owning executor has seen for it.
    pub notified: u64,
}

/// The thread-scoped slot holding the identity of the task currently
/// being polled, or nothing between polls. Exactly one such slot exists
/// per driving thread; it is passed down every call explicitly.
#[derive(Debug, Clone, Copy, PartialEq, Eq, Structural)]
pub struct AmbientSlot {
    /// The identity of the task currently being polled, if any.
    pub current: Option<u64>,
}

/// A generation-0.2 waker: a clone-able handle whose one operation
/// requests a re-poll of the task it was made for. Clones share the
/// target; they do not re-capture it.
#[derive(Debug, Clone, Copy, PartialEq, Eq, Structural)]
pub struct Waker02 {
    /// The identity of the task that a wake request reaches.
    pub target: u64,
}

/// A generation-0.2 context: the call-scoped bundle handed to every
/// poll, carrying the waker with which the polled value may request a
/// re-poll. It never outlives the poll call that received it; the
/// reverse adapters rebuild it on every call.
#[derive(Debug, Clone, Copy, PartialEq, Eq, Structural)]
pub struct Context02 {
    /// The waker of the task on whose behalf this poll runs.
    pub waker: Waker02,
}

impl AmbientTask {
    /// A fresh task with the given identity and no wake requests yet.
    pub fn new(id: u64) -> (t: AmbientTask)
        ensures
            t.id == id,
            t.notified == 0,
    {
        AmbientTask { id, notified: 0 }
    }

    /// Record one wake request: the count rises by exactly
    /// one, and the identity is untouched.
    pub fn notify(&mut self)
        requires
            old(self).notified < u64::MAX,
        ensures
            final(self).id == old(self).id,
            final(self).notified == old(self).notified + 1,
    {
        self.notified = self.notified + 1;
    }
}

impl AmbientSlot {
    /// A slot with no task installed, as a thread starts out.
    pub fn empty() -> (s: AmbientSlot)
        ensures
            s.current is None,
    {
        AmbientSlot { current: None }
    }

    /// A slot with the given task installed, as a driving executor leaves
    /// it just before polling that task.
    pub fn with_task(id: u64) -> (s: AmbientSlot)
        ensures
            s.current == Some(id),
    {
        AmbientSlot { current: Some(id) }
    }

    /// Install a task as the current one and hand back what was installed
    /// before, to be restored when the enclosing call ends.
    pub fn install(&mut self, target: u64) -> (prev: Option<u64>)
        ensures
            final(self).current == Some(target),
            prev == old(self).current,
    {
        let prev = self.current;
        self.current = Some(target);
        prev
    }

    /// Put a previously saved installation back. Together with
    /// [`install`](Self::install) this gives the strictly nested scope
    /// discipline: whatever a nested call installed, the slot ends up as
    /// the saved value says.
    pub fn restore(&mut self, prev: Option<u64>)
        ensures
            final(self).current == prev,
    {
        self.current = prev;
    }
}

impl Waker02 {
    /// Request a re-poll of the task this waker was made for: exactly one
    /// wake request is recorded per call. Duplicate requests are harmless;
    /// each is still recorded.
    pub fn wake(&self, task: &mut AmbientTask)
        requires
            self.target == old(task).id,
            old(task).notified < u64::MAX,
        ensures
            final(task).id == old(task).id,
            final(task).notified == old(task).notified + 1,
    {
        task.notify();
    }

    /// Request a re-poll `n` times over: the task records exactly one
    /// wake request per invocation, so its count rises by exactly `n`.
    pub fn wake_repeatedly(&self, task: &mut AmbientTask, n: u64)
        requires
            self.target == old(task).id,
            old(task).notified + n <= u64::MAX,
        ensures
            final(task).id == old(task).id,
            final(task).notified == old(task).notified + n,
    {
        let mut i: u64 = 0;
        while i < n
            invariant
                i <= n,
                task.id == old(task).id,
                self.target == task.id,
                task.notified == old(task).notified + i,
                old(task).notified + n <= u64::MAX,
            decreases n - i,
        {
            self.wake(task);
            i = i + 1;
        }
    }
}

/// Capture the currently installed ambient task as a generation-0.2
/// waker, as the reverse adapters do before every inner poll. The
/// caller's executor must already have installed a task: polling with an
/// empty slot is a logic fault of that executor, not a recoverable
/// error, so it is ruled out here rather than given a value.
pub fn capture_current(slot: &AmbientSlot) -> (w: Waker02)
    requires
        slot.current is Some,
    ensures
        w.target == slot.current->0,
{
    match slot.current {
        Some(id) => Waker02 { target: id },
        None => unreached(),
    }
}

impl Context02 {
    /// A fresh call-scoped context wrapping the given waker.
    pub fn new(waker: Waker02) -> (cx: Context02)
        ensures
            cx.waker == waker,
    {
        Context02 { waker }
    }

    /// The waker of the task on whose behalf the current poll runs.
    pub fn waker(&self) -> (w: &Waker02)
        ensures
            *w == self.waker,
    {
        &self.waker
    }
}

} // verus!
