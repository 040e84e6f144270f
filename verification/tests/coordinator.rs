use alglobo::bully::BullyState;
use alglobo::control_message::ControlMessage;
use alglobo::event::Event;
use alglobo::payments_queue::{ids_of, PaymentsQueue};
use alglobo::queue::Queue;
use alglobo::replication::Replication;
use alglobo::stats::Stats;
use alglobo::transaction::AlgloboTransaction;

fn record(id: u32, client: &str) -> AlgloboTransaction {
    AlgloboTransaction {
        id,
        client: client.into(),
        hotel_price: 1,
        airline_price: 2,
    }
}

#[test]
fn queue_is_first_in_first_out() {
    let mut queue = Queue::new(2);
    assert_eq!(queue.pop_front(), None);
    queue.push(record(1, "a"));
    queue.push(record(2, "b"));
    assert!(queue.is_full());
    assert_eq!(queue.pop_front(), Some(record(1, "a")));
    assert_eq!(queue.pop_front(), Some(record(2, "b")));
    assert_eq!(queue.pop_front(), None);
}

#[test]
fn payments_queue_skips_resolved_ids() {
    let pending = vec![record(1, "a"), record(2, "b"), record(3, "c"), record(4, "d")];
    let processed = vec![record(2, "b")];
    let failed = vec![record(4, "d")];
    let mut resolved = ids_of(&processed);
    resolved.extend(ids_of(&failed));
    let mut queue = PaymentsQueue::new(pending, resolved);
    assert_eq!(queue.pop(), Some(record(1, "a")));
    assert_eq!(queue.pop(), Some(record(3, "c")));
    assert_eq!(queue.pop(), None);
}

#[test]
fn payments_queue_keeps_everything_on_first_run() {
    let pending = vec![record(7, "x"), record(8, "y")];
    let mut queue = PaymentsQueue::new(pending, Vec::new());
    assert_eq!(queue.pop(), Some(record(7, "x")));
    assert_eq!(queue.pop(), Some(record(8, "y")));
    assert_eq!(queue.pop(), None);
}

#[test]
fn stats_reports_running_average() {
    let mut stats = Stats::new();
    assert_eq!(stats.handle(&Event::PaymentSuccess { duration: 100 }), Some(100));
    assert_eq!(stats.handle(&Event::PaymentSuccess { duration: 200 }), Some(150));
    assert_eq!(stats.tot_time, 300);
    assert_eq!(stats.payments_count, 2);
}

#[test]
fn stats_ignores_other_events() {
    let mut stats = Stats::new();
    assert_eq!(
        stats.handle(&Event::TxFailure {
            entity: 1,
            reason: "timeout".into()
        }),
        None
    );
    assert_eq!(
        stats.handle(&Event::TxSuccess {
            entity: 0,
            duration_ms: 5
        }),
        None
    );
    assert_eq!(stats.handle(&Event::PaymentFailed { reason: "no".into() }), None);
    assert_eq!(stats.payments_count, 0);
    assert_eq!(stats.tot_time, 0);
}

#[test]
fn replication_follows_its_strategy() {
    let mut strategy = BullyState::new(2);
    strategy.process_message(ControlMessage::Coordinator, 2, 0);
    let mut replication = Replication::new(strategy);
    assert!(replication.is_leader());
    assert_eq!(replication.get_current_id(), 2);
    assert!(!replication.has_finished());

    let sends = replication.graceful_quit();
    assert!(replication.has_finished());
    assert!(sends
        .iter()
        .all(|(to, msg)| *to != 2 && *msg == ControlMessage::GracefulQuit));
}
