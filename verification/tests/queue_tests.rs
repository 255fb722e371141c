use traffic_viewer::prefs::Preferences;
use traffic_viewer::queue::OutboundQueue;
use traffic_viewer::server::{
    accept_decision, on_new_connection, writer_step, AcceptAction, AcceptEvent, WriterStep,
};

#[test]
fn fifo_order_preserved() {
    let mut q = OutboundQueue::new();
    q.enqueue(String::from("first"));
    q.enqueue(String::from("second"));
    q.enqueue(String::from("third"));
    assert_eq!(q.len(), 3);
    assert_eq!(q.try_deliver(), Some(String::from("first")));
    assert_eq!(q.try_deliver(), Some(String::from("second")));
    assert_eq!(q.try_deliver(), Some(String::from("third")));
    assert_eq!(q.try_deliver(), None);
}

#[test]
fn fresh_connection_never_sees_stale_messages() {
    let mut q = OutboundQueue::new();
    q.enqueue(String::from("stale-one"));
    q.enqueue(String::from("stale-two"));
    // a new connection drains the queue before its writer starts
    q.drain();
    assert_eq!(q.len(), 0);
    q.enqueue(String::from("fresh"));
    let mut delivered: Vec<String> = Vec::new();
    while let Some(msg) = q.try_deliver() {
        delivered.push(msg);
    }
    assert_eq!(delivered, vec![String::from("fresh")]);
    assert!(!delivered.contains(&String::from("stale-one")));
    assert!(!delivered.contains(&String::from("stale-two")));
}

#[test]
fn accept_loop_policy() {
    assert!(matches!(accept_decision(&AcceptEvent::Connection), AcceptAction::ServeConnection));
    assert!(matches!(accept_decision(&AcceptEvent::WouldBlock), AcceptAction::SleepAndRetry));
    assert!(matches!(accept_decision(&AcceptEvent::OtherError), AcceptAction::StopServing));
}

#[test]
fn new_connection_starts_from_clean_slate() {
    let mut q = OutboundQueue::new();
    q.enqueue(String::from("addressed to an earlier client"));
    let mut prefs = Preferences::new(true, true, true, false);
    prefs.set_es_callsign(String::from("EGLL_TWR"));
    on_new_connection(&mut q, &mut prefs);
    assert_eq!(q.len(), 0);
    assert_eq!(prefs.es_callsign(), None);
    assert!(prefs.use_es_callsign());
}

#[test]
fn writer_policy() {
    let mut q = OutboundQueue::new();
    q.enqueue(String::from("line"));
    assert!(matches!(writer_step(true, false, &mut q), WriterStep::Stop));
    assert!(matches!(writer_step(false, true, &mut q), WriterStep::Stop));
    match writer_step(false, false, &mut q) {
        WriterStep::Write(msg) => assert_eq!(msg, "line"),
        _ => panic!("expected a write"),
    }
    assert!(matches!(writer_step(false, false, &mut q), WriterStep::Wait));
}

#[test]
fn deliver_on_empty_queue_is_none() {
    let mut q = OutboundQueue::new();
    assert_eq!(q.try_deliver(), None);
    q.drain();
    assert_eq!(q.try_deliver(), None);
}
