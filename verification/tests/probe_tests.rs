use gwent::catalog::Voice;
use gwent::probe::{Probe, ProbeAction, ProbeEvent, ProbeStage};
use gwent::reconcile::{Notice, VoicesError};

fn catalog(list: &[&str]) -> Vec<Voice> {
    list.iter().map(|id| Voice { id: id.to_string(), name: format!("voice {id}") }).collect()
}

fn ids(list: &[&str]) -> Vec<String> {
    list.iter().map(|s| s.to_string()).collect()
}

#[test]
fn a_new_probe_waits_for_the_health_check() {
    assert_eq!(Probe::new().stage(), ProbeStage::Health);
}

#[test]
fn healthy_daemon_with_other_voices() {
    let known = catalog(&["en-a", "en-c"]);
    let mut probe = Probe::new();

    let step = probe.advance(&known, ProbeEvent::Status(200));
    assert_eq!(step.action, ProbeAction::GetVoices);
    assert_eq!(step.notices, vec![Notice::HealthPassed]);
    assert_eq!(probe.stage(), ProbeStage::VoicesHead);

    let step = probe.advance(&known, ProbeEvent::Status(200));
    assert_eq!(step.action, ProbeAction::ReadBody);
    assert_eq!(step.notices, vec![]);
    assert_eq!(probe.stage(), ProbeStage::VoicesBody);

    let step = probe.advance(&known, ProbeEvent::Body(br#"["en-a","en-b"]"#.to_vec()));
    assert_eq!(step.action, ProbeAction::Stop);
    assert_eq!(
        step.notices,
        vec![
            Notice::MissingFromDaemon { ids: ids(&["en-c"]) },
            Notice::AdditionalInDaemon { ids: ids(&["en-b"]) },
        ]
    );
    assert_eq!(probe.stage(), ProbeStage::Done);
}

#[test]
fn healthy_daemon_with_the_same_voices_logs_nothing_more() {
    let known = catalog(&["en-a", "en-b"]);
    let mut probe = Probe::new();
    probe.advance(&known, ProbeEvent::Status(204));
    probe.advance(&known, ProbeEvent::Status(200));
    let step = probe.advance(&known, ProbeEvent::Body(br#"[{"id":"en-b"},"en-a"]"#.to_vec()));
    assert_eq!(step.action, ProbeAction::Stop);
    assert_eq!(step.notices, vec![]);
}

#[test]
fn an_unhealthy_daemon_stops_the_probe() {
    for status in [199u16, 300, 404, 500, 503] {
        let mut probe = Probe::new();
        let step = probe.advance(&catalog(&["en-a"]), ProbeEvent::Status(status));
        assert_eq!(step.action, ProbeAction::Stop);
        assert_eq!(step.notices, vec![Notice::HealthRejected { status }]);
        assert_eq!(probe.stage(), ProbeStage::Done);
    }
}

#[test]
fn an_unreachable_daemon_stops_the_probe() {
    let mut probe = Probe::new();
    let step = probe.advance(&catalog(&["en-a"]), ProbeEvent::Failed("connection refused".into()));
    assert_eq!(step.action, ProbeAction::Stop);
    assert_eq!(step.notices, vec![Notice::Unreachable { reason: "connection refused".into() }]);
    assert_eq!(probe.stage(), ProbeStage::Done);
}

#[test]
fn an_error_status_on_voices_ends_the_probe_with_one_notice() {
    for status in [400u16, 404, 500, 599] {
        let mut probe = Probe::new();
        probe.advance(&catalog(&["en-a"]), ProbeEvent::Status(200));
        let step = probe.advance(&catalog(&["en-a"]), ProbeEvent::Status(status));
        assert_eq!(step.action, ProbeAction::Stop);
        assert_eq!(step.notices, vec![Notice::VoicesRefused { status }]);
        assert_eq!(probe.stage(), ProbeStage::Done);
    }
}

#[test]
fn other_statuses_on_voices_have_the_body_read() {
    for status in [200u16, 204, 299, 304, 399, 600] {
        let mut probe = Probe::new();
        probe.advance(&catalog(&["en-a"]), ProbeEvent::Status(200));
        let step = probe.advance(&catalog(&["en-a"]), ProbeEvent::Status(status));
        assert_eq!(step.action, ProbeAction::ReadBody);
        assert_eq!(step.notices, vec![]);
    }
}

#[test]
fn a_failed_request_for_voices_ends_the_probe_with_one_notice() {
    let mut probe = Probe::new();
    probe.advance(&catalog(&["en-a"]), ProbeEvent::Status(200));
    let step = probe.advance(&catalog(&["en-a"]), ProbeEvent::Failed("timed out".into()));
    assert_eq!(step.action, ProbeAction::Stop);
    assert_eq!(step.notices, vec![Notice::VoicesFailed { reason: "timed out".into() }]);
}

#[test]
fn a_failed_read_of_the_voices_ends_the_probe_with_one_notice() {
    let mut probe = Probe::new();
    probe.advance(&catalog(&["en-a"]), ProbeEvent::Status(200));
    probe.advance(&catalog(&["en-a"]), ProbeEvent::Status(200));
    let step = probe.advance(&catalog(&["en-a"]), ProbeEvent::Failed("reset".into()));
    assert_eq!(step.action, ProbeAction::Stop);
    assert_eq!(step.notices, vec![Notice::VoicesFailed { reason: "reset".into() }]);
}

#[test]
fn malformed_voices_end_the_probe_with_one_notice() {
    let cases: [(&[u8], VoicesError); 3] = [
        (b"not json", VoicesError::NotJson),
        (b"{\"voices\":[]}", VoicesError::NotAnArray),
        (b"", VoicesError::NotJson),
    ];
    for (body, error) in cases {
        let mut probe = Probe::new();
        probe.advance(&catalog(&["en-a"]), ProbeEvent::Status(200));
        probe.advance(&catalog(&["en-a"]), ProbeEvent::Status(200));
        let step = probe.advance(&catalog(&["en-a"]), ProbeEvent::Body(body.to_vec()));
        assert_eq!(step.action, ProbeAction::Stop);
        assert_eq!(step.notices, vec![Notice::VoicesUnreadable { error }]);
        assert_eq!(probe.stage(), ProbeStage::Done);
    }
}

#[test]
fn events_out_of_turn_end_the_probe() {
    let mut probe = Probe::new();
    let step = probe.advance(&catalog(&[]), ProbeEvent::Body(b"[]".to_vec()));
    assert_eq!(step.action, ProbeAction::Stop);
    assert_eq!(step.notices, vec![Notice::OutOfTurn]);
    assert_eq!(probe.stage(), ProbeStage::Done);

    let step = probe.advance(&catalog(&[]), ProbeEvent::Status(200));
    assert_eq!(step.action, ProbeAction::Stop);
    assert_eq!(step.notices, vec![Notice::OutOfTurn]);

    let mut probe = Probe::new();
    probe.advance(&catalog(&[]), ProbeEvent::Status(200));
    let step = probe.advance(&catalog(&[]), ProbeEvent::Body(b"[]".to_vec()));
    assert_eq!(step.notices, vec![Notice::OutOfTurn]);

    let mut probe = Probe::new();
    probe.advance(&catalog(&[]), ProbeEvent::Status(200));
    probe.advance(&catalog(&[]), ProbeEvent::Status(200));
    let step = probe.advance(&catalog(&[]), ProbeEvent::Status(200));
    assert_eq!(step.action, ProbeAction::Stop);
    assert_eq!(step.notices, vec![Notice::OutOfTurn]);
}

#[test]
fn repeated_catalog_entries_are_compared_once() {
    let known = catalog(&["en-a", "en-a", "en-c", "en-c"]);
    let mut probe = Probe::new();
    probe.advance(&known, ProbeEvent::Status(200));
    probe.advance(&known, ProbeEvent::Status(200));
    let step = probe.advance(&known, ProbeEvent::Body(b"[\"en-a\"]".to_vec()));
    assert_eq!(step.notices, vec![Notice::MissingFromDaemon { ids: ids(&["en-c"]) }]);
}
