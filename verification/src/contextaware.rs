use vstd::prelude::*;

use crate::builder::TryBuilderFlow;
use crate::builder::TryBuilderInternal;
use crate::listener::Listener;
use crate::queue::QueueEmpty;
use crate::synchronous::follow_up_events;
use crate::synchronous::BasicMediator;

verus! {

/// Send a request `Req` for processing to the mediator. This will call the
/// statically chosen, context-dependent handler for the request type.
pub trait CxAwareAsyncMediatorInternalHandle<Cx, Ev> {
    /// The mediator half the handlers run against: it is handed to the
    /// handler exclusively, while the context stays shared.
    type Inner;

    /// Dispatches `req` to [`CxAwareAsyncRequestHandler::handle`] under
    /// exclusive access to the shared context.
    fn send<Req>(&mut self, req: Req)
        where Self::Inner: CxAwareAsyncRequestHandler<Cx, Req, Ev>;
}

/// Handles the request `Req`. Implemented by the embedder, with one
/// implementation per request type; it receives a read-only view of the
/// shared context `Cx`.
pub trait CxAwareAsyncRequestHandler<Cx, Req, Res> {
    /// Consumes `req`. Anything the handler wants to expose to the outside
    /// it publishes as events from within this call; shared state it may
    /// only reach through the context's own interior mutation interface.
    fn handle(&mut self, req: Req, cx: &Cx);
}

/// Advanced builder functionality: staging a context `Cx`.
pub trait CxAwareMediatorBuilderInterface<M, Cx, Ev> where Self: Sized {
    /// The context staged so far, if one was supplied.
    spec fn staged_context(self) -> Option<Cx>;

    /// Stores `cx`, overwriting any previously staged context, and hands
    /// the builder back.
    fn add_context(self, cx: Cx) -> (r: Self)
        ensures
            r.staged_context() == Some(cx),
    ;
}

/// Error: no context was given while building.
#[derive(Clone, Copy, PartialEq, Eq, Structural, Debug)]
pub struct NoCxAvailable;

/// A context-aware mediator: a [`BasicMediator`] together with one shared
/// context cell that every handler runs against.
///
/// Exclusive access to the context during [`CxAwareAsyncMediator::send`] is
/// a static guarantee here: the `&mut` receiver admits at most one running
/// handler at a time, and the handler itself only ever holds a shared
/// reference to the context. An embedder that wants the suspend-capable
/// flavor splits the mediator with [`CxAwareAsyncMediator::into_parts`] and
/// guards the two halves with its runtime's locks, one lock each, so that
/// waiting for the context never blocks unrelated publishes or drain steps.
///
/// Created only through its builder (see [`CxAwareAsyncBuilder`]); the
/// builder fails rather than produce a mediator without a context.
pub struct CxAwareAsyncMediator<Cx, Ev, L> where L: Listener<Ev> {
    basic: BasicMediator<Ev, L>,
    cx: Cx,
}

impl<Cx, Ev, L> CxAwareAsyncMediator<Cx, Ev, L> where L: Listener<Ev> {
    /// The published, undelivered events, oldest first.
    pub closed spec fn queue_model(&self) -> Seq<Ev> {
        self.basic.queue_model()
    }

    /// The registered listeners, in registration order.
    pub closed spec fn listener_model(&self) -> Seq<L> {
        self.basic.listener_model()
    }

    /// The shared context.
    pub closed spec fn context_model(&self) -> Cx {
        self.cx
    }

    pub(crate) fn from_parts(basic: BasicMediator<Ev, L>, cx: Cx) -> (m: Self)
        ensures
            m.queue_model() == basic.queue_model(),
            m.listener_model() == basic.listener_model(),
            m.context_model() == cx,
    {
        CxAwareAsyncMediator { basic, cx }
    }

    /// Forwarded unchanged to the inner basic mediator: appends `event` at
    /// the tail of the event queue. Listeners and context are untouched.
    pub fn publish(&mut self, event: Ev)
        ensures
            final(self).queue_model() == old(self).queue_model().push(event),
            final(self).listener_model() == old(self).listener_model(),
            final(self).context_model() == old(self).context_model(),
    {
        self.basic.publish(event);
    }

    /// Forwarded unchanged to the inner basic mediator: one drain step. See
    /// [`BasicMediator::next`]; the context is untouched.
    pub fn next(&mut self) -> (r: Result<(), QueueEmpty>)
        ensures
            final(self).context_model() == old(self).context_model(),
            old(self).queue_model().len() == 0 ==> (
                r is Err
                && final(self).queue_model() == old(self).queue_model()
                && final(self).listener_model() == old(self).listener_model()
            ),
            old(self).queue_model().len() > 0 ==> (
                r is Ok
                && final(self).queue_model() == old(self).queue_model().drop_first()
                    + follow_up_events(old(self).listener_model(), old(self).queue_model().first())
                && final(self).listener_model().len() == old(self).listener_model().len()
                && forall|i: int| 0 <= i < old(self).listener_model().len() ==>
                    (#[trigger] final(self).listener_model()[i]).received()
                        == old(self).listener_model()[i].received()
                            .push(old(self).queue_model().first())
            ),
    {
        self.basic.next()
    }

    /// Acquires exclusive access to the context — statically, through the
    /// `&mut` receiver: no second handler can hold it while this call runs —
    /// and invokes the statically chosen handler with the request and a
    /// read-only view of the context. The context cell is left exactly as it
    /// was on every exit path: the handler only ever sees it behind a shared
    /// reference. `send` itself never touches the event queue; only the
    /// handler's own calls to `publish` do.
    pub fn send<Req>(&mut self, req: Req)
        where BasicMediator<Ev, L>: CxAwareAsyncRequestHandler<Cx, Req, Ev>
        ensures
            final(self).context_model() == old(self).context_model(),
    {
        self.basic.handle(req, &self.cx);
    }

    /// How many events are pending.
    pub fn pending_len(&self) -> (n: usize)
        ensures
            n == self.queue_model().len(),
    {
        self.basic.pending_len()
    }

    /// The registered listeners, in registration order.
    pub fn listeners(&self) -> (r: &Vec<L>)
        ensures
            r@ == self.listener_model(),
    {
        self.basic.listeners()
    }

    /// The shared context.
    pub fn context(&self) -> (r: &Cx)
        ensures
            *r == self.context_model(),
    {
        &self.cx
    }

    /// Takes the mediator apart into the basic mediator and the context,
    /// for an embedder that guards the two halves independently — say, one
    /// lock each under a suspend-capable runtime.
    pub fn into_parts(self) -> (parts: (BasicMediator<Ev, L>, Cx))
        ensures
            parts.0.queue_model() == self.queue_model(),
            parts.0.listener_model() == self.listener_model(),
            parts.1 == self.context_model(),
    {
        (self.basic, self.cx)
    }
}

/// Assembles a [`CxAwareAsyncMediator`]: stage listeners in registration
/// order and a context, then build. Building succeeds exactly when a
/// context was staged; the mediator starts with an empty event queue.
pub struct CxAwareAsyncBuilder<Cx, L> {
    listeners: Vec<L>,
    cx: Option<Cx>,
}

impl<Cx, L> CxAwareAsyncBuilder<Cx, L> {
    /// The listeners staged so far, in registration order.
    pub closed spec fn listener_model(&self) -> Seq<L> {
        self.listeners@
    }

    /// The context staged so far, if one was supplied.
    pub closed spec fn context_model(&self) -> Option<Cx> {
        self.cx
    }

    /// Appends `f` to the staged listeners and hands the builder back; a
    /// staged context is kept.
    pub fn add_listener(self, f: L) -> (r: Self)
        ensures
            r.listener_model() == self.listener_model().push(f),
            r.context_model() == self.context_model(),
    {
        let mut r = self;
        r.listeners.push(f);
        r
    }

    /// Stores `cx` and hands the builder back; the staged listeners are
    /// kept. A previously staged context is overwritten: the last supplied
    /// context wins, and supplying several is no error.
    pub fn add_context(self, cx: Cx) -> (r: Self)
        ensures
            r.context_model() == Some(cx),
            r.listener_model() == self.listener_model(),
    {
        let mut r = self;
        r.cx = Some(cx);
        r
    }
}

impl<Cx, Ev, L: Listener<Ev>>
    TryBuilderInternal<CxAwareAsyncMediator<Cx, Ev, L>, CxAwareAsyncBuilder<Cx, L>>
    for CxAwareAsyncMediator<Cx, Ev, L>
{
    open spec fn is_initial(flow: CxAwareAsyncBuilder<Cx, L>) -> bool {
        flow.listener_model() == Seq::<L>::empty()
            && flow.context_model() is None
    }

    /// A fresh builder with no listeners and no context staged.
    fn builder() -> (flow: CxAwareAsyncBuilder<Cx, L>) {
        CxAwareAsyncBuilder { listeners: Vec::new(), cx: None }
    }
}

impl<Cx, Ev, L: Listener<Ev>> TryBuilderFlow<CxAwareAsyncMediator<Cx, Ev, L>>
    for CxAwareAsyncBuilder<Cx, L>
{
    type Error = NoCxAvailable;

    open spec fn can_build(self) -> bool {
        self.context_model() is Some
    }

    open spec fn builds_to(self, m: CxAwareAsyncMediator<Cx, Ev, L>) -> bool {
        m.queue_model() == Seq::<Ev>::empty()
            && m.listener_model() == self.listener_model()
            && Some(m.context_model()) == self.context_model()
    }

    /// Produces the mediator — an empty queue, the staged listeners in
    /// registration order, and the staged context — exactly when a context
    /// was supplied, and reports [`NoCxAvailable`] otherwise.
    fn build(self) -> (r: Result<CxAwareAsyncMediator<Cx, Ev, L>, NoCxAvailable>) {
        let CxAwareAsyncBuilder { listeners, cx } = self;
        match cx {
            None => Err(NoCxAvailable),
            Some(cx) => Ok(CxAwareAsyncMediator::from_parts(
                BasicMediator::from_parts(listeners),
                cx,
            )),
        }
    }
}

impl<Cx, Ev, L: Listener<Ev>>
    crate::synchronous::BasicMediatorBuilderInterface<CxAwareAsyncMediator<Cx, Ev, L>, Ev, L>
    for CxAwareAsyncBuilder<Cx, L>
{
    open spec fn staged_listeners(self) -> Seq<L> {
        self.listener_model()
    }

    fn add_listener(self, f: L) -> (r: Self) {
        self.add_listener(f)
    }
}

impl<Cx, Ev, L: Listener<Ev>> CxAwareAsyncMediatorInternalHandle<Cx, Ev>
    for CxAwareAsyncMediator<Cx, Ev, L>
{
    type Inner = BasicMediator<Ev, L>;

    fn send<Req>(&mut self, req: Req)
        where BasicMediator<Ev, L>: CxAwareAsyncRequestHandler<Cx, Req, Ev>
    {
        self.send(req);
    }
}

impl<Cx, Ev, L: Listener<Ev>>
    CxAwareMediatorBuilderInterface<CxAwareAsyncMediator<Cx, Ev, L>, Cx, Ev>
    for CxAwareAsyncBuilder<Cx, L>
{
    open spec fn staged_context(self) -> Option<Cx> {
        self.context_model()
    }

    fn add_context(self, cx: Cx) -> (r: Self) {
        self.add_context(cx)
    }
}

} // verus!
