use vstd::prelude::*;

verus! {

/// A listener is notified with a read-only view of every event that a drain
/// step delivers.
///
/// A listener may hand follow-up events back from [`Listener::notify`]; the
/// mediator enqueues them at the tail of its event queue, so they are
/// delivered by a later drain step, never within the one that produced them.
pub trait Listener<Ev>: Sized {
    /// The events this listener has been notified of, oldest first.
    spec fn received(&self) -> Seq<Ev>;

    /// The follow-up events this listener hands back when notified of `ev`
    /// in its current state.
    spec fn follow_ups(&self, ev: Ev) -> Seq<Ev>;

    /// Delivers `ev` to the listener. The returned events are the follow-ups
    /// the listener asks the mediator to publish on its behalf.
    fn notify(&mut self, ev: &Ev) -> (out: Vec<Ev>)
        ensures
            final(self).received() == old(self).received().push(*ev),
            out@ == old(self).follow_ups(*ev),
    ;
}

/// A listener that records every event it is notified of, in delivery order,
/// and never hands back follow-up events.
pub struct LogListener<Ev> {
    log: Vec<Ev>,
}

impl<Ev: Copy> LogListener<Ev> {
    /// A fresh listener with an empty log.
    pub fn new() -> (r: LogListener<Ev>)
        ensures
            r.received() == Seq::<Ev>::empty(),
    {
        LogListener { log: Vec::new() }
    }

    /// The events received so far, oldest first.
    pub fn events(&self) -> (r: &Vec<Ev>)
        ensures
            r@ == self.received(),
    {
        &self.log
    }
}

impl<Ev: Copy> Listener<Ev> for LogListener<Ev> {
    closed spec fn received(&self) -> Seq<Ev> {
        self.log@
    }

    closed spec fn follow_ups(&self, ev: Ev) -> Seq<Ev> {
        Seq::empty()
    }

    fn notify(&mut self, ev: &Ev) -> (out: Vec<Ev>) {
        self.log.push(*ev);
        Vec::new()
    }
}

/// A listener that records every event it hears and, the first time it is
/// notified, hands back one prepared follow-up event. The follow-up is
/// enqueued by the mediator, so it arrives in a later drain step than the
/// event that triggered it.
pub struct ReplyOnce<Ev> {
    reply: Option<Ev>,
    log: Vec<Ev>,
}

impl<Ev: Copy> ReplyOnce<Ev> {
    /// A fresh listener with an empty log that will hand back `reply` once.
    pub fn new(reply: Ev) -> (r: ReplyOnce<Ev>)
        ensures
            r.received() == Seq::<Ev>::empty(),
            r.pending_reply() == Some(reply),
    {
        ReplyOnce { reply: Some(reply), log: Vec::new() }
    }

    /// The follow-up event not yet handed back, if any.
    pub closed spec fn pending_reply(&self) -> Option<Ev> {
        self.reply
    }

    /// The events received so far, oldest first.
    pub fn events(&self) -> (r: &Vec<Ev>)
        ensures
            r@ == self.received(),
    {
        &self.log
    }
}

impl<Ev: Copy> Listener<Ev> for ReplyOnce<Ev> {
    closed spec fn received(&self) -> Seq<Ev> {
        self.log@
    }

    closed spec fn follow_ups(&self, ev: Ev) -> Seq<Ev> {
        match self.reply {
            Some(r) => seq![r],
            None => Seq::empty(),
        }
    }

    fn notify(&mut self, ev: &Ev) -> (out: Vec<Ev>) {
        self.log.push(*ev);
        let mut out = Vec::new();
        match self.reply {
            Some(r) => {
                out.push(r);
                self.reply = None;
            }
            None => {}
        }
        proof {
            assert(out@ =~= old(self).follow_ups(*ev));
        }
        out
    }
}

/// A [`LogListener`] never hands back follow-up events.
pub proof fn lemma_log_listener_no_follow_ups<Ev: Copy>(l: LogListener<Ev>, ev: Ev)
    ensures
        l.follow_ups(ev) == Seq::<Ev>::empty(),
{
}

} // verus!
