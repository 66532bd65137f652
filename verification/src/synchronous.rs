use vstd::prelude::*;

use crate::builder::BuilderFlow;
use crate::builder::BuilderInternal;
use crate::listener::Listener;
use crate::listener::LogListener;
use crate::listener::lemma_log_listener_no_follow_ups;
use crate::queue::EventQueue;
use crate::queue::QueueEmpty;

verus! {

/// Publish an event `Ev` from within a handler.
pub trait SyncMediatorInternal<Ev> {
    /// The published, undelivered events, oldest first.
    spec fn pending(&self) -> Seq<Ev>;

    /// Appends `event` at the tail of the pending queue.
    fn publish(&mut self, event: Ev)
        ensures
            final(self).pending() == old(self).pending().push(event),
    ;
}

/// Send a request `Req` for processing to the mediator. This will call the
/// statically chosen handler for the request type.
pub trait SyncMediatorInternalHandle<Ev> {
    /// Dispatches `req` to [`RequestHandler::handle`].
    fn send<Req>(&mut self, req: Req) where Self: RequestHandler<Req, Ev>;
}

/// Process the next event from the queue. This will deliver it to every
/// registered listener.
pub trait SyncMediatorInternalNext {
    /// Removes the oldest pending event and fans it out; reports the empty
    /// condition when nothing is pending.
    fn next(&mut self) -> Result<(), QueueEmpty>;
}

/// Handles the request `Req`. Implemented by the embedder, with one
/// implementation per request type.
pub trait RequestHandler<Req, Res> {
    /// Consumes `req`. Anything the handler wants to expose to the outside
    /// it publishes as events from within this call.
    fn handle(&mut self, req: Req);
}

/// Basic builder functionality: staging a listener of type `L`.
pub trait BasicMediatorBuilderInterface<M, Ev, L> where L: Listener<Ev>, Self: Sized {
    /// The listeners staged so far, in registration order.
    spec fn staged_listeners(self) -> Seq<L>;

    /// Appends `f` to the staged listeners and hands the builder back.
    fn add_listener(self, f: L) -> (r: Self)
        ensures
            r.staged_listeners() == self.staged_listeners().push(f),
    ;
}

/// The events one drain step enqueues on the listeners' behalf: every
/// listener's follow-ups for the delivered event `ev`, batch after batch in
/// registration order.
pub open spec fn follow_up_events<Ev, L: Listener<Ev>>(ls: Seq<L>, ev: Ev) -> Seq<Ev>
    decreases ls.len(),
{
    if ls.len() == 0 {
        Seq::empty()
    } else {
        ls.first().follow_ups(ev) + follow_up_events(ls.drop_first(), ev)
    }
}

/// Peeling one listener off the front of `ls` peels its follow-up batch off
/// the front of the collected follow-up events.
proof fn lemma_follow_up_events_skip<Ev, L: Listener<Ev>>(ls: Seq<L>, ev: Ev, i: int)
    requires
        0 <= i < ls.len(),
    ensures
        follow_up_events(ls.skip(i), ev)
            == ls[i].follow_ups(ev) + follow_up_events(ls.skip(i + 1), ev),
    decreases ls.len() - i,
{
    assert(ls.skip(i)[0] == ls[i]);
    assert(ls.skip(i).first() == ls[i]);
    assert(ls.skip(i).drop_first() =~= ls.skip(i + 1));
}

/// The basic mediator of the direct execution model: it owns one event
/// queue and one listener registry, and every operation runs to completion
/// before returning.
///
/// Created only through its builder (see [`BasicMediatorBuilder`]).
pub struct BasicMediator<Ev, L> where L: Listener<Ev> {
    queue: EventQueue<Ev>,
    listeners: Vec<L>,
}

impl<Ev, L> BasicMediator<Ev, L> where L: Listener<Ev> {
    /// The published, undelivered events, oldest first.
    pub closed spec fn queue_model(&self) -> Seq<Ev> {
        self.queue.model()
    }

    /// The registered listeners, in registration order.
    pub closed spec fn listener_model(&self) -> Seq<L> {
        self.listeners@
    }

    pub(crate) fn from_parts(listeners: Vec<L>) -> (m: Self)
        ensures
            m.queue_model() == Seq::<Ev>::empty(),
            m.listener_model() == listeners@,
    {
        BasicMediator { queue: EventQueue::new(), listeners }
    }

    /// Appends `event` at the tail of the event queue; the listeners are
    /// untouched. Always succeeds: the queue is unbounded.
    pub fn publish(&mut self, event: Ev)
        ensures
            final(self).queue_model() == old(self).queue_model().push(event),
            final(self).listener_model() == old(self).listener_model(),
    {
        self.queue.enqueue(event);
    }

    /// Publishes every event of `batch`, in order, with no drain step in
    /// between: the queue is extended by exactly `batch`.
    pub fn publish_all(&mut self, batch: Vec<Ev>)
        ensures
            final(self).queue_model() == old(self).queue_model() + batch@,
            final(self).listener_model() == old(self).listener_model(),
    {
        self.queue.enqueue_all(batch);
    }

    /// How many events are pending.
    pub fn pending_len(&self) -> (n: usize)
        ensures
            n == self.queue_model().len(),
    {
        self.queue.len()
    }

    /// The registered listeners, in registration order.
    pub fn listeners(&self) -> (r: &Vec<L>)
        ensures
            r@ == self.listener_model(),
    {
        &self.listeners
    }

    /// Dispatches `req` to the statically chosen handler for its type; the
    /// handler runs to completion before `send` returns. `send` itself never
    /// touches the event queue: only the handler's own calls to `publish`
    /// do, and what the handler does with the mediator is the embedder's
    /// responsibility.
    pub fn send<Req>(&mut self, req: Req) where Self: RequestHandler<Req, Ev> {
        self.handle(req);
    }

    /// One drain step. When no event is pending, it reports the empty
    /// condition and changes nothing — no listener is invoked. Otherwise it
    /// removes exactly the oldest pending event and notifies every
    /// registered listener of it exactly once, in registration order; the
    /// follow-up events the listeners hand back are enqueued behind the
    /// events already pending, batch after batch in registration order, to
    /// be delivered by later drain steps.
    pub fn next(&mut self) -> (r: Result<(), QueueEmpty>)
        ensures
            old(self).queue_model().len() == 0 ==> (
                r is Err
                && final(self).queue_model() == old(self).queue_model()
                && final(self).listener_model() == old(self).listener_model()
            ),
            old(self).queue_model().len() > 0 ==> (
                r is Ok
                && final(self).queue_model() == old(self).queue_model().drop_first()
                    + follow_up_events(old(self).listener_model(), old(self).queue_model().first())
                && final(self).listener_model().len() == old(self).listener_model().len()
                && forall|i: int| 0 <= i < old(self).listener_model().len() ==>
                    (#[trigger] final(self).listener_model()[i]).received()
                        == old(self).listener_model()[i].received()
                            .push(old(self).queue_model().first())
            ),
    {
        let taken = self.queue.take_next();
        match taken {
            Err(e) => Err(e),
            Ok(ev) => {
                proof {
                    assert(old(self).listener_model().skip(0) =~= old(self).listener_model());
                }
                let mut i: usize = 0;
                while i < self.listeners.len()
                    invariant
                        i <= self.listeners.len(),
                        old(self).queue_model().len() > 0,
                        ev == old(self).queue_model().first(),
                        self.listeners.len() == old(self).listener_model().len(),
                        forall|j: int| 0 <= j < i ==>
                            (#[trigger] self.listeners@[j]).received()
                                == old(self).listener_model()[j].received().push(ev),
                        forall|j: int| i <= j < self.listeners@.len() ==>
                            (#[trigger] self.listeners@[j]) == old(self).listener_model()[j],
                        self.queue.model()
                            + follow_up_events(old(self).listener_model().skip(i as int), ev)
                            == old(self).queue_model().drop_first()
                                + follow_up_events(old(self).listener_model(), ev),
                    decreases self.listeners.len() - i,
                {
                    let ghost q_before = self.queue.model();
                    let out = self.listeners[i].notify(&ev);
                    self.queue.enqueue_all(out);
                    proof {
                        lemma_follow_up_events_skip(old(self).listener_model(), ev, i as int);
                        assert((q_before + old(self).listener_model()[i as int].follow_ups(ev))
                            + follow_up_events(old(self).listener_model().skip(i + 1), ev)
                            =~= q_before
                                + follow_up_events(old(self).listener_model().skip(i as int), ev));
                    }
                    i += 1;
                }
                proof {
                    assert(old(self).listener_model().skip(self.listeners@.len() as int)
                        =~= Seq::<L>::empty());
                    assert(self.queue.model() + Seq::<Ev>::empty() =~= self.queue.model());
                }
                Ok(())
            }
        }
    }
}

impl<Ev: Copy> BasicMediator<Ev, LogListener<Ev>> {
    /// Drains the whole backlog, one drain step per pending event.
    ///
    /// The first-in-first-out and fan-out laws in one statement, for
    /// recording listeners: every registered listener's log is extended by
    /// exactly the backlog, in publish order, and the queue is left empty.
    pub fn drain(&mut self)
        ensures
            final(self).queue_model() == Seq::<Ev>::empty(),
            final(self).listener_model().len() == old(self).listener_model().len(),
            forall|i: int| 0 <= i < old(self).listener_model().len() ==>
                (#[trigger] final(self).listener_model()[i]).received()
                    == old(self).listener_model()[i].received() + old(self).queue_model(),
    {
        proof {
            assert(old(self).queue_model().skip(0) =~= old(self).queue_model());
            assert forall|j: int| 0 <= j < old(self).listener_model().len() implies
                (#[trigger] old(self).listener_model()[j]).received()
                    == old(self).listener_model()[j].received()
                        + old(self).queue_model().take(0) by {
                assert(old(self).listener_model()[j].received()
                    + old(self).queue_model().take(0)
                    =~= old(self).listener_model()[j].received());
            }
        }
        let ghost mut delivered: int = 0;
        while self.pending_len() > 0
            invariant
                0 <= delivered <= old(self).queue_model().len(),
                self.queue_model() == old(self).queue_model().skip(delivered),
                self.listener_model().len() == old(self).listener_model().len(),
                forall|j: int| 0 <= j < old(self).listener_model().len() ==>
                    (#[trigger] self.listener_model()[j]).received()
                        == old(self).listener_model()[j].received()
                            + old(self).queue_model().take(delivered),
            decreases old(self).queue_model().len() - delivered,
        {
            let ghost pre = *self;
            let ghost head = pre.queue_model().first();
            let r = self.next();
            proof {
                assert(head == old(self).queue_model()[delivered]);
                lemma_log_listeners_no_follow_ups(pre.listener_model(), head);
                assert(self.queue_model()
                    =~= old(self).queue_model().skip(delivered).drop_first());
                assert(self.queue_model() =~= old(self).queue_model().skip(delivered + 1));
                assert forall|j: int| 0 <= j < old(self).listener_model().len() implies
                    (#[trigger] self.listener_model()[j]).received()
                        == old(self).listener_model()[j].received()
                            + old(self).queue_model().take(delivered + 1) by {
                    assert(self.listener_model()[j].received()
                        == pre.listener_model()[j].received().push(head));
                    assert(old(self).queue_model().take(delivered).push(head)
                        =~= old(self).queue_model().take(delivered + 1));
                    assert((old(self).listener_model()[j].received()
                        + old(self).queue_model().take(delivered)).push(head)
                        =~= old(self).listener_model()[j].received()
                            + old(self).queue_model().take(delivered + 1));
                }
                delivered = delivered + 1;
            }
        }
        proof {
            assert(old(self).queue_model().skip(delivered).len() == 0);
            assert(delivered == old(self).queue_model().len());
            assert(self.queue_model() =~= Seq::<Ev>::empty());
            assert(old(self).queue_model().take(delivered) =~= old(self).queue_model());
        }
    }
}

/// Recording listeners contribute no follow-up events to a drain step.
pub proof fn lemma_log_listeners_no_follow_ups<Ev: Copy>(ls: Seq<LogListener<Ev>>, ev: Ev)
    ensures
        follow_up_events(ls, ev) == Seq::<Ev>::empty(),
    decreases ls.len(),
{
    if ls.len() == 0 {
    } else {
        lemma_log_listener_no_follow_ups(ls.first(), ev);
        lemma_log_listeners_no_follow_ups(ls.drop_first(), ev);
        assert(ls.first().follow_ups(ev) + follow_up_events(ls.drop_first(), ev)
            =~= Seq::<Ev>::empty());
    }
}

/// First-in-first-out law: a backlog published with no drain step in
/// between is delivered oldest first. When the queue holds `backlog` and
/// `i` drain steps have run (with no further publishes and with listeners
/// that hand back no follow-ups), the queue holds `backlog.skip(i)`; the
/// next drain step then delivers `backlog[i]` — the head — and leaves
/// `backlog.skip(i + 1)`, and once all of `backlog` is delivered the queue
/// is empty, so one more drain step reports the empty condition.
pub proof fn lemma_fifo_order<Ev>(backlog: Seq<Ev>, i: int)
    requires
        0 <= i < backlog.len(),
    ensures
        backlog.skip(i).first() == backlog[i],
        backlog.skip(i).drop_first() == backlog.skip(i + 1),
        backlog.skip(backlog.len() as int).len() == 0,
{
    assert(backlog.skip(i)[0] == backlog[i]);
    assert(backlog.skip(i).drop_first() =~= backlog.skip(i + 1));
}

/// Fan-out law: one drain step that delivers `ev` to the listeners
/// `before`, leaving them as `after`, extends every listener's log by
/// exactly that one event — every listener hears `ev` exactly once, no
/// listener is skipped, and nothing else is delivered within the step.
pub proof fn lemma_fan_out<Ev, L: Listener<Ev>>(before: Seq<L>, after: Seq<L>, ev: Ev)
    requires
        after.len() == before.len(),
        forall|i: int| 0 <= i < before.len() ==>
            (#[trigger] after[i]).received() == before[i].received().push(ev),
    ensures
        forall|i: int| 0 <= i < before.len() ==>
            (#[trigger] after[i]).received().len() == before[i].received().len() + 1,
        forall|i: int| 0 <= i < before.len() ==> (#[trigger] after[i]).received().last() == ev,
        forall|i: int| 0 <= i < before.len() ==>
            (#[trigger] after[i]).received().take(before[i].received().len() as int)
                == before[i].received(),
{
    assert forall|i: int| 0 <= i < before.len() implies
        (#[trigger] after[i]).received().take(before[i].received().len() as int)
            == before[i].received() by {
        assert(before[i].received().push(ev).take(before[i].received().len() as int)
            =~= before[i].received());
    }
}

/// Re-entrancy boundary: an event that a listener hands back during a drain
/// step is enqueued behind every event that was already pending, so it is
/// delivered by a later drain step, never within the one that produced it.
/// `queue` is the queue as the step begins; the step delivers
/// `queue.first()`, and the `j`-th collected follow-up event ends up at
/// position `queue.len() - 1 + j` of the remaining queue — behind all
/// `queue.len() - 1` events that were already waiting.
pub proof fn lemma_reentrancy_boundary<Ev, L: Listener<Ev>>(
    queue: Seq<Ev>,
    listeners: Seq<L>,
    j: int,
)
    requires
        queue.len() > 0,
        0 <= j < follow_up_events(listeners, queue.first()).len(),
    ensures
        (queue.drop_first() + follow_up_events(listeners, queue.first()))[queue.len() - 1 + j]
            == follow_up_events(listeners, queue.first())[j],
{
    assert(queue.drop_first().len() == queue.len() - 1);
}

/// Assembles a [`BasicMediator`]: stage listeners in registration order,
/// then build. Building always succeeds; the mediator starts with an empty
/// event queue.
pub struct BasicMediatorBuilder<L> {
    listeners: Vec<L>,
}

impl<L> BasicMediatorBuilder<L> {
    /// The listeners staged so far, in registration order.
    pub closed spec fn listener_model(&self) -> Seq<L> {
        self.listeners@
    }

    /// Appends `f` to the staged listeners and hands the builder back.
    pub fn add_listener(self, f: L) -> (r: Self)
        ensures
            r.listener_model() == self.listener_model().push(f),
    {
        let mut r = self;
        r.listeners.push(f);
        r
    }
}

impl<Ev, L: Listener<Ev>> BuilderInternal<BasicMediator<Ev, L>, BasicMediatorBuilder<L>>
    for BasicMediator<Ev, L>
{
    open spec fn is_initial(flow: BasicMediatorBuilder<L>) -> bool {
        flow.listener_model() == Seq::<L>::empty()
    }

    /// A fresh builder with no listeners staged.
    fn builder() -> (flow: BasicMediatorBuilder<L>) {
        BasicMediatorBuilder { listeners: Vec::new() }
    }
}

impl<Ev, L: Listener<Ev>> BuilderFlow<BasicMediator<Ev, L>> for BasicMediatorBuilder<L> {
    open spec fn builds_to(self, m: BasicMediator<Ev, L>) -> bool {
        m.queue_model() == Seq::<Ev>::empty()
            && m.listener_model() == self.listener_model()
    }

    /// Produces the mediator: an empty queue and the staged listeners, in
    /// registration order.
    fn build(self) -> (m: BasicMediator<Ev, L>) {
        BasicMediator::from_parts(self.listeners)
    }
}

impl<Ev, L: Listener<Ev>> BasicMediatorBuilderInterface<BasicMediator<Ev, L>, Ev, L>
    for BasicMediatorBuilder<L>
{
    open spec fn staged_listeners(self) -> Seq<L> {
        self.listener_model()
    }

    fn add_listener(self, f: L) -> (r: Self) {
        self.add_listener(f)
    }
}

impl<Ev, L: Listener<Ev>> SyncMediatorInternal<Ev> for BasicMediator<Ev, L> {
    open spec fn pending(&self) -> Seq<Ev> {
        self.queue_model()
    }

    fn publish(&mut self, event: Ev) {
        self.publish(event);
    }
}

impl<Ev, L: Listener<Ev>> SyncMediatorInternalHandle<Ev> for BasicMediator<Ev, L> {
    fn send<Req>(&mut self, req: Req) where Self: RequestHandler<Req, Ev> {
        self.send(req);
    }
}

impl<Ev, L: Listener<Ev>> SyncMediatorInternalNext for BasicMediator<Ev, L> {
    fn next(&mut self) -> Result<(), QueueEmpty> {
        self.next()
    }
}

} // verus!
