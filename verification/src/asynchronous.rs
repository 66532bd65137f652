use vstd::prelude::*;

use crate::contextaware::CxAwareAsyncMediator;
use crate::listener::Listener;
use crate::queue::QueueEmpty;

verus! {

/// Publish an event `Ev` from within a handler, in the concurrent
/// execution model.
///
/// The contract is the one of the direct model; a suspend-capable embedder
/// adds the waiting — an operation may have to wait for exclusive access to
/// the queue before its effect applies, and no effect is ever applied
/// partially.
pub trait AsyncMediatorInternal<Ev> {
    /// The published, undelivered events, oldest first.
    spec fn pending(&self) -> Seq<Ev>;

    /// Appends `event` at the tail of the pending queue.
    fn publish(&mut self, event: Ev)
        ensures
            final(self).pending() == old(self).pending().push(event),
    ;
}

/// Send a request `Req` for processing to the mediator, in the concurrent
/// execution model. This will call the statically chosen handler for the
/// request type.
pub trait AsyncMediatorInternalHandle<Ev> {
    /// Dispatches `req` to [`AsyncRequestHandler::handle`].
    fn send<Req>(&mut self, req: Req) where Self: AsyncRequestHandler<Req, Ev>;
}

/// Process the next event from the queue, in the concurrent execution
/// model. This will deliver it to every registered listener.
pub trait AsyncMediatorInternalNext {
    /// Removes the oldest pending event and fans it out; reports the empty
    /// condition when nothing is pending.
    fn next(&mut self) -> Result<(), QueueEmpty>;
}

/// Handles the request `Req` in the concurrent execution model.
/// Implemented by the embedder, with one implementation per request type.
pub trait AsyncRequestHandler<Req, Res> {
    /// Consumes `req`. Anything the handler wants to expose to the outside
    /// it publishes as events from within this call.
    fn handle(&mut self, req: Req);
}

impl<Cx, Ev, L: Listener<Ev>> AsyncMediatorInternal<Ev> for CxAwareAsyncMediator<Cx, Ev, L> {
    open spec fn pending(&self) -> Seq<Ev> {
        self.queue_model()
    }

    /// Instructs the inner basic mediator to publish `event`.
    fn publish(&mut self, event: Ev) {
        self.publish(event);
    }
}

impl<Cx, Ev, L: Listener<Ev>> AsyncMediatorInternalNext for CxAwareAsyncMediator<Cx, Ev, L> {
    /// Instructs the inner basic mediator to run one drain step.
    fn next(&mut self) -> Result<(), QueueEmpty> {
        self.next()
    }
}

} // verus!
