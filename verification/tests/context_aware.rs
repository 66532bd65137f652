use std::cell::Cell;

use mediatrix::asynchronous::AsyncMediatorInternal;
use mediatrix::asynchronous::AsyncMediatorInternalNext;
use mediatrix::builder::TryBuilderFlow;
use mediatrix::builder::TryBuilderInternal;
use mediatrix::contextaware::CxAwareAsyncMediator;
use mediatrix::contextaware::CxAwareAsyncMediatorInternalHandle;
use mediatrix::contextaware::CxAwareAsyncRequestHandler;
use mediatrix::listener::LogListener;
use mediatrix::queue::QueueEmpty;
use mediatrix::synchronous::BasicMediator;

#[derive(Clone, Copy, Debug, PartialEq, Eq)]
enum CounterEvent {
    Incremented(u32),
}

type CounterMediator = CxAwareAsyncMediator<Cell<u32>, CounterEvent, LogListener<CounterEvent>>;

struct Increment;

impl CxAwareAsyncRequestHandler<Cell<u32>, Increment, CounterEvent>
    for BasicMediator<CounterEvent, LogListener<CounterEvent>>
{
    fn handle(&mut self, _req: Increment, cx: &Cell<u32>) {
        let new_value = cx.get() + 1;
        cx.set(new_value);
        self.publish(CounterEvent::Incremented(new_value));
    }
}

#[test]
fn building_without_context_fails() {
    let r: Result<CounterMediator, _> = CxAwareAsyncMediator::builder()
        .add_listener(LogListener::new())
        .build();
    assert!(r.is_err());
}

#[test]
fn building_with_context_succeeds() {
    let r: Result<CounterMediator, _> = CxAwareAsyncMediator::builder()
        .add_listener(LogListener::new())
        .add_context(Cell::new(5))
        .build();
    let m = r.unwrap();
    assert_eq!(m.context().get(), 5);
    assert_eq!(m.pending_len(), 0);
    assert_eq!(m.listeners().len(), 1);
}

#[test]
fn last_supplied_context_wins() {
    let r: Result<CounterMediator, _> = CxAwareAsyncMediator::builder()
        .add_context(Cell::new(1))
        .add_context(Cell::new(2))
        .build();
    let m = r.unwrap();
    assert_eq!(m.context().get(), 2);
}

#[test]
fn counter_scenario() {
    let mut m: CounterMediator = CxAwareAsyncMediator::builder()
        .add_listener(LogListener::new())
        .add_listener(LogListener::new())
        .add_context(Cell::new(0))
        .build()
        .unwrap();
    m.send(Increment);
    m.send(Increment);
    m.send(Increment);
    assert!(m.next().is_ok());
    assert!(m.next().is_ok());
    assert!(m.next().is_ok());
    let expected = vec![
        CounterEvent::Incremented(1),
        CounterEvent::Incremented(2),
        CounterEvent::Incremented(3),
    ];
    assert_eq!(*m.listeners()[0].events(), expected);
    assert_eq!(*m.listeners()[1].events(), expected);
    assert_eq!(m.context().get(), 3);
    assert_eq!(m.next(), Err(QueueEmpty));
}

#[test]
fn fresh_mediator_reports_empty() {
    let mut m: CounterMediator = CxAwareAsyncMediator::builder()
        .add_listener(LogListener::new())
        .add_context(Cell::new(0))
        .build()
        .unwrap();
    assert_eq!(m.next(), Err(QueueEmpty));
    assert!(m.listeners()[0].events().is_empty());
    assert_eq!(m.context().get(), 0);
}

#[test]
fn concurrent_interface_delegates() {
    let mut m: CounterMediator = CxAwareAsyncMediator::builder()
        .add_listener(LogListener::new())
        .add_context(Cell::new(0))
        .build()
        .unwrap();
    AsyncMediatorInternal::publish(&mut m, CounterEvent::Incremented(9));
    assert_eq!(m.pending_len(), 1);
    assert!(AsyncMediatorInternalNext::next(&mut m).is_ok());
    assert_eq!(*m.listeners()[0].events(), vec![CounterEvent::Incremented(9)]);
}

#[test]
fn send_through_the_interface_trait() {
    let mut m: CounterMediator = CxAwareAsyncMediator::builder()
        .add_listener(LogListener::new())
        .add_context(Cell::new(0))
        .build()
        .unwrap();
    <CounterMediator as CxAwareAsyncMediatorInternalHandle<Cell<u32>, CounterEvent>>::send(
        &mut m, Increment,
    );
    assert_eq!(m.context().get(), 1);
    assert_eq!(m.pending_len(), 1);
}

#[test]
fn into_parts_splits_the_mediator() {
    let mut m: CounterMediator = CxAwareAsyncMediator::builder()
        .add_listener(LogListener::new())
        .add_context(Cell::new(4))
        .build()
        .unwrap();
    m.publish(CounterEvent::Incremented(1));
    let (mut basic, cx) = m.into_parts();
    assert_eq!(cx.get(), 4);
    assert_eq!(basic.pending_len(), 1);
    assert!(basic.next().is_ok());
    assert_eq!(*basic.listeners()[0].events(), vec![CounterEvent::Incremented(1)]);
}
