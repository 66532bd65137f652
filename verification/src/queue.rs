use vstd::prelude::*;

verus! {

/// Reported by a drain step when no event is pending.
///
/// An expected, recoverable condition, not a fault: callers poll or schedule
/// another drain once more events have been published.
#[derive(Clone, Copy, PartialEq, Eq, Structural, Debug)]
pub struct QueueEmpty;

/// An unbounded first-in-first-out queue of events.
///
/// Events enter at the tail through [`EventQueue::enqueue`] and leave from
/// the head through [`EventQueue::take_next`], so they leave in the order
/// they entered.
pub struct EventQueue<Ev> {
    events: Vec<Ev>,
}

impl<Ev> EventQueue<Ev> {
    /// The pending events, oldest first.
    pub closed spec fn model(&self) -> Seq<Ev> {
        self.events@
    }

    /// A fresh, empty queue.
    pub fn new() -> (q: EventQueue<Ev>)
        ensures
            q.model() == Seq::<Ev>::empty(),
    {
        EventQueue { events: Vec::new() }
    }

    /// Appends `ev` at the tail. Always succeeds: the queue is unbounded.
    pub fn enqueue(&mut self, ev: Ev)
        ensures
            final(self).model() == old(self).model().push(ev),
    {
        self.events.push(ev);
    }

    /// Appends every event of `evs` at the tail, in order.
    pub fn enqueue_all(&mut self, evs: Vec<Ev>)
        ensures
            final(self).model() == old(self).model() + evs@,
    {
        let mut rest = evs;
        self.events.append(&mut rest);
    }

    /// Removes and returns the oldest pending event; when none is pending,
    /// reports the empty condition and leaves the queue unchanged.
    pub fn take_next(&mut self) -> (r: Result<Ev, QueueEmpty>)
        ensures
            old(self).model().len() == 0 ==> (
                r is Err
                && final(self).model() == old(self).model()
            ),
            old(self).model().len() > 0 ==> (
                r is Ok
                && r->Ok_0 == old(self).model().first()
                && final(self).model() == old(self).model().drop_first()
            ),
    {
        if self.events.len() == 0 {
            Err(QueueEmpty)
        } else {
            let ev = self.events.remove(0);
            proof {
                assert(self.events@ =~= old(self).model().drop_first());
            }
            Ok(ev)
        }
    }

    /// How many events are pending.
    pub fn len(&self) -> (n: usize)
        ensures
            n == self.model().len(),
    {
        self.events.len()
    }
}

} // verus!
