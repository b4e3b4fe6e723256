use mech_car::link::{LinkAction, LinkEvent, LinkPhase, LinkStatus};

fn show(s: LinkStatus) -> LinkAction {
    LinkAction::Show(s)
}

#[test]
fn start_looks_for_a_controller() {
    let (p, a) = LinkPhase::start();
    assert_eq!(p, LinkPhase::Discovering);
    assert_eq!(a, vec![show(LinkStatus::Finding), LinkAction::Discover]);
}

#[test]
fn discovery_outcomes() {
    let d = LinkPhase::Discovering;
    assert_eq!(d.step(LinkEvent::ScanFailed), (LinkPhase::Idle, vec![show(LinkStatus::ScanError)]));
    assert_eq!(d.step(LinkEvent::DiscoveryTimedOut), (LinkPhase::Idle, vec![show(LinkStatus::NoXbox)]));
    assert_eq!(
        d.step(LinkEvent::ControllerFound),
        (LinkPhase::Connecting, vec![show(LinkStatus::Connecting), LinkAction::Connect])
    );
}

#[test]
fn happy_path_to_streaming() {
    let (p, _) = LinkPhase::start();
    let (p, _) = p.step(LinkEvent::ControllerFound);
    let (p, a) = p.step(LinkEvent::Connected);
    assert_eq!(p, LinkPhase::Securing);
    assert_eq!(a, vec![show(LinkStatus::Connected), LinkAction::RequestSecurity]);
    let (p, a) = p.step(LinkEvent::SecurityRequested);
    assert_eq!(p, LinkPhase::Pairing);
    assert_eq!(a, vec![show(LinkStatus::Pairing), LinkAction::AwaitConnectionEvent]);
    let (p, a) = p.step(LinkEvent::ConnectionParamsRequested);
    assert_eq!(p, LinkPhase::Pairing);
    assert_eq!(a, vec![LinkAction::AcceptConnectionParams, LinkAction::AwaitConnectionEvent]);
    let (p, a) = p.step(LinkEvent::PairingComplete { bonded: true });
    assert_eq!(p, LinkPhase::OpeningGatt);
    assert_eq!(a, vec![LinkAction::StoreBond, show(LinkStatus::Bonded), LinkAction::OpenGatt]);
    let (p, a) = p.step(LinkEvent::GattReady);
    assert_eq!(p, LinkPhase::Streaming);
    assert_eq!(a, vec![LinkAction::RunSession]);
    let (p, a) = p.step(LinkEvent::ConnectionParamsRequested);
    assert_eq!(p, LinkPhase::Streaming);
    assert_eq!(a, vec![LinkAction::AcceptConnectionParams]);
    let (p, a) = p.step(LinkEvent::SessionEnded);
    assert_eq!(p, LinkPhase::Connecting);
    assert_eq!(
        a,
        vec![
            show(LinkStatus::Reconnecting),
            LinkAction::Sleep { ms: 500 },
            show(LinkStatus::Connecting),
            LinkAction::Connect,
        ]
    );
}

#[test]
fn encryption_resumes_without_storing_a_bond() {
    let (p, a) = LinkPhase::Pairing.step(LinkEvent::Encrypted);
    assert_eq!(p, LinkPhase::OpeningGatt);
    assert_eq!(a, vec![show(LinkStatus::Bonded), LinkAction::OpenGatt]);
    let (p, a) = LinkPhase::Pairing.step(LinkEvent::PairingComplete { bonded: false });
    assert_eq!(p, LinkPhase::OpeningGatt);
    assert_eq!(a, vec![show(LinkStatus::Bonded), LinkAction::OpenGatt]);
}

#[test]
fn failures_retry_after_a_second() {
    let retry = |s| vec![show(s), LinkAction::Sleep { ms: 1000 }, show(LinkStatus::Connecting), LinkAction::Connect];
    assert_eq!(LinkPhase::Connecting.step(LinkEvent::ConnectFailed), (LinkPhase::Connecting, retry(LinkStatus::ConnectError)));
    assert_eq!(
        LinkPhase::Securing.step(LinkEvent::SecurityRequestFailed),
        (LinkPhase::Connecting, retry(LinkStatus::SecurityRequestError))
    );
    assert_eq!(LinkPhase::Pairing.step(LinkEvent::PairingFailed), (LinkPhase::Connecting, retry(LinkStatus::PairFail)));
    assert_eq!(LinkPhase::OpeningGatt.step(LinkEvent::GattFailed), (LinkPhase::Connecting, retry(LinkStatus::GattError)));
    assert_eq!(
        LinkPhase::Pairing.step(LinkEvent::Disconnected),
        (
            LinkPhase::Connecting,
            vec![LinkAction::Sleep { ms: 1000 }, show(LinkStatus::Connecting), LinkAction::Connect]
        )
    );
}

#[test]
fn unexpected_events_change_nothing() {
    assert_eq!(LinkPhase::Connecting.step(LinkEvent::GattReady), (LinkPhase::Connecting, vec![]));
    assert_eq!(LinkPhase::Idle.step(LinkEvent::ControllerFound), (LinkPhase::Idle, vec![]));
    assert_eq!(LinkPhase::Pairing.step(LinkEvent::OtherConnectionEvent), (LinkPhase::Pairing, vec![LinkAction::AwaitConnectionEvent]));
}

#[test]
fn stack_stop_is_final() {
    assert_eq!(LinkPhase::Idle.step(LinkEvent::StackStopped), (LinkPhase::Halted, vec![show(LinkStatus::RunnerDied)]));
    assert_eq!(LinkPhase::Halted.step(LinkEvent::ControllerFound), (LinkPhase::Halted, vec![]));
    assert_eq!(LinkPhase::Halted.step(LinkEvent::StackStopped), (LinkPhase::Halted, vec![]));
}

#[test]
fn status_texts() {
    let all = [
        (LinkStatus::Finding, "BT: finding"),
        (LinkStatus::ScanError, "BT: scan err"),
        (LinkStatus::NoXbox, "BT: no xbox"),
        (LinkStatus::Connecting, "CONNECTING"),
        (LinkStatus::ConnectError, "CONNECT ERR"),
        (LinkStatus::Connected, "CONNECTED"),
        (LinkStatus::SecurityRequestError, "SEC REQ ERR"),
        (LinkStatus::Pairing, "PAIRING..."),
        (LinkStatus::PairFail, "PAIR FAIL"),
        (LinkStatus::Bonded, "BONDED"),
        (LinkStatus::GattError, "GATT ERR"),
        (LinkStatus::Reconnecting, "RECONNECTING"),
        (LinkStatus::RunnerDied, "BT: runner died"),
    ];
    for (s, t) in all {
        assert_eq!(s.text(), t);
        assert!(t.len() <= 16);
    }
}
