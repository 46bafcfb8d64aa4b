//! The idle queue: a list of deferred tasks with at-most-one-outstanding
//! native registration.  Tasks are appended by any caller and taken out all
//! at once by the drain that the native idle mechanism runs on the UI
//! thread.

use vstd::prelude::*;
use vstd::seq_lib::lemma_multiset_commutative;

verus! {

/// The queue of deferred tasks attached to one window, together with the
/// flag recording whether a native idle registration is outstanding.
pub struct IdleQueue<T> {
    pub tasks: Vec<T>,
    pub scheduled: bool,
}

impl<T> IdleQueue<T> {
    /// The registration invariant: a native drain has been requested
    /// exactly when the queue holds a task.
    pub open spec fn wf(self) -> bool {
        self.scheduled <==> self.tasks@.len() > 0
    }

    /// A fresh, empty queue with no registration outstanding.
    pub fn new() -> (r: IdleQueue<T>)
        ensures
            r.tasks@ == Seq::<T>::empty(),
            !r.scheduled,
            r.wf(),
    {
        IdleQueue { tasks: Vec::new(), scheduled: false }
    }

    /// Appends a task.  Returns true exactly when the queue was empty, in
    /// which case the caller must arrange one native drain; when a task was
    /// already queued, a registration is already outstanding and none is
    /// added.
    pub fn enqueue(&mut self, task: T) -> (r: bool)
        requires
            old(self).wf(),
        ensures
            final(self).tasks@ == old(self).tasks@.push(task),
            r == (old(self).tasks@.len() == 0),
            r == !old(self).scheduled,
            final(self).scheduled,
            final(self).wf(),
    {
        let was_empty = self.tasks.len() == 0;
        self.tasks.push(task);
        self.scheduled = true;
        was_empty
    }

    /// Takes ownership of the entire current list, leaving the queue empty
    /// with no registration outstanding.  The caller runs the returned
    /// tasks once each, in order; tasks enqueued while they run land in the
    /// emptied queue and wait for a later drain.
    pub fn drain(&mut self) -> (r: Vec<T>)
        ensures
            r@ == old(self).tasks@,
            final(self).tasks@ == Seq::<T>::empty(),
            !final(self).scheduled,
            final(self).wf(),
    {
        let mut out: Vec<T> = Vec::new();
        core::mem::swap(&mut self.tasks, &mut out);
        self.scheduled = false;
        out
    }
}

/// The queue contents after enqueuing the tasks of `ts` in order onto a
/// queue holding `q`.
pub open spec fn enqueue_all<T>(q: Seq<T>, ts: Seq<T>) -> Seq<T>
    decreases ts.len(),
{
    if ts.len() == 0 {
        q
    } else {
        enqueue_all(q.push(ts[0]), ts.drop_first())
    }
}

/// Enqueuing a sequence of tasks appends it: order of arrival is kept.
pub proof fn lemma_enqueue_all_appends<T>(q: Seq<T>, ts: Seq<T>)
    ensures
        enqueue_all(q, ts) == q + ts,
    decreases ts.len(),
{
    if ts.len() == 0 {
        assert(q + ts =~= q);
    } else {
        lemma_enqueue_all_appends(q.push(ts[0]), ts.drop_first());
        assert(q.push(ts[0]) + ts.drop_first() =~= q + ts);
    }
}

/// Law: starting from an empty queue, the tasks `before` enqueued ahead of
/// a drain are exactly what that drain takes out, in enqueue order; tasks
/// `during` enqueued while the drained tasks run build up in the emptied
/// queue and are exactly what the next drain takes out.  Across the two
/// drains every task runs exactly once, and every task of `before` runs
/// strictly before every task of `during`.
pub proof fn lemma_idle_tasks_run_once_in_order<T>(before: Seq<T>, during: Seq<T>)
    ensures
        enqueue_all(Seq::<T>::empty(), before) == before,
        enqueue_all(Seq::<T>::empty(), during) == during,
        (before + during).to_multiset() == before.to_multiset().add(during.to_multiset()),
        forall|i: int, j: int|
            0 <= i < before.len() && 0 <= j < during.len() ==> (before + during)[i] == before[i]
                && (before + during)[before.len() + j] == during[j],
{
    lemma_enqueue_all_appends(Seq::<T>::empty(), before);
    lemma_enqueue_all_appends(Seq::<T>::empty(), during);
    assert(Seq::<T>::empty() + before =~= before);
    assert(Seq::<T>::empty() + during =~= during);
    lemma_multiset_commutative(before, during);
}

} // verus!
