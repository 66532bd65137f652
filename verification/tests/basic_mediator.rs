use mediatrix::builder::BuilderFlow;
use mediatrix::builder::BuilderInternal;
use mediatrix::listener::Listener;
use mediatrix::listener::LogListener;
use mediatrix::listener::ReplyOnce;
use mediatrix::queue::QueueEmpty;
use mediatrix::synchronous::BasicMediator;
use mediatrix::synchronous::RequestHandler;
use mediatrix::synchronous::SyncMediatorInternal;

#[derive(Clone, Copy, Debug, PartialEq, Eq)]
enum MyEvent {
    One,
    Two,
    Three,
}

type LogMediator = BasicMediator<MyEvent, LogListener<MyEvent>>;

fn log_mediator(listeners: usize) -> LogMediator {
    let mut builder = BasicMediator::builder();
    for _ in 0..listeners {
        builder = builder.add_listener(LogListener::new());
    }
    builder.build()
}

#[test]
fn fifo_delivery_order() {
    let mut m = log_mediator(1);
    m.publish(MyEvent::One);
    m.publish(MyEvent::Two);
    m.publish(MyEvent::Three);
    assert_eq!(m.pending_len(), 3);
    assert!(m.next().is_ok());
    assert_eq!(*m.listeners()[0].events(), vec![MyEvent::One]);
    assert!(m.next().is_ok());
    assert!(m.next().is_ok());
    assert_eq!(
        *m.listeners()[0].events(),
        vec![MyEvent::One, MyEvent::Two, MyEvent::Three]
    );
    assert_eq!(m.next(), Err(QueueEmpty));
}

#[test]
fn fan_out_notifies_every_listener_once() {
    let mut m = log_mediator(3);
    m.publish(MyEvent::Two);
    assert!(m.next().is_ok());
    for l in m.listeners() {
        assert_eq!(*l.events(), vec![MyEvent::Two]);
    }
    assert_eq!(m.pending_len(), 0);
}

#[test]
fn drain_delivers_whole_backlog() {
    let mut m = log_mediator(2);
    m.publish_all(vec![MyEvent::Three, MyEvent::One, MyEvent::Two]);
    assert_eq!(m.pending_len(), 3);
    m.drain();
    assert_eq!(m.pending_len(), 0);
    for l in m.listeners() {
        assert_eq!(*l.events(), vec![MyEvent::Three, MyEvent::One, MyEvent::Two]);
    }
}

#[test]
fn reentrant_publish_waits_for_next_drain() {
    let mut m: BasicMediator<MyEvent, ReplyOnce<MyEvent>> = BasicMediator::builder()
        .add_listener(ReplyOnce::new(MyEvent::Two))
        .build();
    m.publish(MyEvent::One);
    assert!(m.next().is_ok());
    // The follow-up was enqueued, not delivered within the same drain step.
    assert_eq!(*m.listeners()[0].events(), vec![MyEvent::One]);
    assert_eq!(m.pending_len(), 1);
    assert!(m.next().is_ok());
    assert_eq!(*m.listeners()[0].events(), vec![MyEvent::One, MyEvent::Two]);
    assert_eq!(m.next(), Err(QueueEmpty));
}

struct Ping;

impl RequestHandler<Ping, MyEvent> for LogMediator {
    fn handle(&mut self, _req: Ping) {
        self.publish(MyEvent::One);
    }
}

#[test]
fn send_dispatches_to_the_handler() {
    let mut m = log_mediator(1);
    m.send(Ping);
    assert_eq!(m.pending_len(), 1);
    m.send(Ping);
    assert_eq!(m.pending_len(), 2);
    assert!(m.next().is_ok());
    assert_eq!(*m.listeners()[0].events(), vec![MyEvent::One]);
}

#[test]
fn listeners_keep_registration_order() {
    let mut a = LogListener::new();
    let mut b = LogListener::new();
    // Tell the two apart by what they have already heard.
    a.notify(&MyEvent::One);
    b.notify(&MyEvent::Two);
    let m: LogMediator = BasicMediator::builder()
        .add_listener(a)
        .add_listener(b)
        .build();
    assert_eq!(m.listeners().len(), 2);
    assert_eq!(*m.listeners()[0].events(), vec![MyEvent::One]);
    assert_eq!(*m.listeners()[1].events(), vec![MyEvent::Two]);
}

#[test]
fn publish_through_the_interface_trait() {
    let mut m = log_mediator(1);
    SyncMediatorInternal::publish(&mut m, MyEvent::Three);
    assert_eq!(m.pending_len(), 1);
    assert!(m.next().is_ok());
    assert_eq!(*m.listeners()[0].events(), vec![MyEvent::Three]);
}

#[test]
fn fresh_basic_mediator_reports_empty() {
    let mut m = log_mediator(2);
    assert_eq!(m.next(), Err(QueueEmpty));
    for l in m.listeners() {
        assert!(l.events().is_empty());
    }
}
