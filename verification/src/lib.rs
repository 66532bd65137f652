//! An in-process mediator runtime.
//!
//! Callers submit typed requests; one statically chosen handler per request
//! type processes each of them. Whatever a handler wants to broadcast it
//! publishes as typed events, which sit in a first-in-first-out queue until a
//! drain step ([`next`](synchronous::BasicMediator::next)) delivers the oldest
//! one to every registered listener.
//!
//! The mediators here run every operation to completion and carry full
//! functional contracts: the queue is first-in-first-out, one drain step
//! notifies every listener exactly once with the delivered event, events a
//! listener hands back during a drain step wait for a later one, and the
//! fallible builder produces a mediator exactly when its required context was
//! supplied. An embedder that wants the suspend-capable flavor wraps the two
//! halves of a context-aware mediator (see
//! [`contextaware::CxAwareAsyncMediator::into_parts`]) in its runtime's locks;
//! the contracts of the operations are the same either way.

pub mod builder;
pub mod listener;
pub mod queue;
pub mod synchronous;
pub mod contextaware;
pub mod asynchronous;
