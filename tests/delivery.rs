use xsnotif::config::NotifierConfig;
use xsnotif::sender::{SenderAction, SenderEvent, Supervisor, UdpSender};

fn connect_target(a: &SenderAction) -> Option<(String, usize)> {
    match a {
        SenderAction::Connect(d) => Some((d.host.clone(), d.port)),
        _ => None,
    }
}

/// Starts a run and connects it, leaving it waiting for a message.
fn started(c: &NotifierConfig) -> UdpSender {
    let mut s = UdpSender::new();
    assert!(connect_target(&s.step(SenderEvent::Started, c)).is_some());
    assert!(matches!(s.step(SenderEvent::Connected, c), SenderAction::AwaitMessage));
    s
}

#[test]
fn new_run_connects_before_taking_a_message() {
    let c = NotifierConfig::default();
    let mut s = UdpSender::new();
    let a = s.step(SenderEvent::Started, &c);
    assert_eq!(connect_target(&a), Some(("localhost".to_string(), 42069)));
    assert!(matches!(s.step(SenderEvent::Connected, &c), SenderAction::AwaitMessage));
    assert!(matches!(s.step(SenderEvent::Dequeued, &c), SenderAction::Send));
    assert!(matches!(s.step(SenderEvent::Sent, &c), SenderAction::AwaitMessage));
    assert!(matches!(s.step(SenderEvent::Dequeued, &c), SenderAction::Send));
}

#[test]
fn connect_failure_in_new_run_consumes_no_message() {
    let c = NotifierConfig::default();
    let mut sup = Supervisor::new();
    for _ in 0..3 {
        let mut s = sup.start_sender();
        assert!(connect_target(&s.step(SenderEvent::Started, &c)).is_some());
        // the run ends before it ever asks for a message from the queue
        assert!(matches!(s.step(SenderEvent::ConnectFailed, &c), SenderAction::Exit));
        assert!(s.has_exited());
        assert!(sup.on_task_exit());
    }
    assert_eq!(sup.restarts, 3);
    let mut s = sup.start_sender();
    s.step(SenderEvent::Started, &c);
    assert!(matches!(s.step(SenderEvent::Connected, &c), SenderAction::AwaitMessage));
    assert!(matches!(s.step(SenderEvent::Dequeued, &c), SenderAction::Send));
}

#[test]
fn message_before_start_is_out_of_turn() {
    let c = NotifierConfig::default();
    let mut s = UdpSender::new();
    assert!(matches!(s.step(SenderEvent::Dequeued, &c), SenderAction::Exit));
}

#[test]
fn changed_destination_makes_a_new_socket() {
    let mut c = NotifierConfig::default();
    let mut s = started(&c);
    assert!(matches!(s.step(SenderEvent::Dequeued, &c), SenderAction::Send));
    s.step(SenderEvent::Sent, &c);
    c.port = 5000;
    let a = s.step(SenderEvent::Dequeued, &c);
    assert_eq!(connect_target(&a), Some(("localhost".to_string(), 5000)));
    assert!(matches!(s.step(SenderEvent::Connected, &c), SenderAction::Send));
    s.step(SenderEvent::Sent, &c);
    c.host = "10.0.0.2".to_string();
    let a = s.step(SenderEvent::Dequeued, &c);
    assert_eq!(connect_target(&a), Some(("10.0.0.2".to_string(), 5000)));
}

#[test]
fn failed_send_ends_run_and_restart_uses_fresh_socket() {
    let c = NotifierConfig::default();
    let mut sup = Supervisor::new();
    let mut s = sup.start_sender();
    s.step(SenderEvent::Started, &c);
    s.step(SenderEvent::Connected, &c);
    assert!(matches!(s.step(SenderEvent::Dequeued, &c), SenderAction::Send));
    assert!(matches!(s.step(SenderEvent::Sent, &c), SenderAction::AwaitMessage));
    assert!(matches!(s.step(SenderEvent::Dequeued, &c), SenderAction::Send));
    assert!(matches!(s.step(SenderEvent::SendFailed, &c), SenderAction::Exit));
    assert!(s.has_exited());
    assert!(sup.on_task_exit());
    assert_eq!(sup.restarts, 1);
    let mut s = sup.start_sender();
    // a fresh socket first; the failed message is gone, so the run then
    // waits for the next one
    assert!(connect_target(&s.step(SenderEvent::Started, &c)).is_some());
    assert!(matches!(s.step(SenderEvent::Connected, &c), SenderAction::AwaitMessage));
    assert!(matches!(s.step(SenderEvent::Dequeued, &c), SenderAction::Send));
    assert!(matches!(s.step(SenderEvent::Sent, &c), SenderAction::AwaitMessage));
}

#[test]
fn failed_reconnect_ends_run() {
    let mut c = NotifierConfig::default();
    let mut s = started(&c);
    c.port = 7000;
    assert!(connect_target(&s.step(SenderEvent::Dequeued, &c)).is_some());
    assert!(matches!(s.step(SenderEvent::ConnectFailed, &c), SenderAction::Exit));
    assert!(s.has_exited());
}

#[test]
fn out_of_turn_event_ends_run() {
    let c = NotifierConfig::default();
    let mut s = started(&c);
    assert!(matches!(s.step(SenderEvent::Sent, &c), SenderAction::Exit));
}

#[test]
fn supervisor_count_saturates() {
    let mut sup = Supervisor { restarts: u64::MAX };
    assert!(sup.on_task_exit());
    assert_eq!(sup.restarts, u64::MAX);
}
