use nat_lab::endpoint::Socket;
use nat_lab::no_relay::{
    DialerAction, DialerEvent, DialerPhase, HostAction, HostEvent, HostPhase, NoRelayAction,
    NoRelayCase, NoRelayError, NoRelayEvent, PeerError, PeerStep,
};
use nat_lab::topology::{without_relay, Device, Router};

const WAN: u32 = 0xc612_000b;

fn host(events: Vec<HostEvent>) -> HostPhase {
    let mut phase = HostPhase::Binding;
    for event in events {
        phase = phase.advance(WAN, event);
    }
    phase
}

fn dialer(events: Vec<DialerEvent>) -> DialerPhase {
    let mut phase = DialerPhase::Binding;
    for event in events {
        phase = phase.advance(event);
    }
    phase
}

#[test]
fn the_server_publishes_the_wan_address_and_waits() {
    assert_eq!(HostPhase::Binding.action(true), HostAction::Bind { relay: false, traversal: true });
    let bound = HostEvent::Bound { port: Some(4433) };
    let phase = host(vec![bound]);
    assert_eq!(phase.action(true), HostAction::Publish(Socket { ip: WAN, port: 4433 }));
    let phase = phase.advance(WAN, HostEvent::Published);
    assert_eq!(phase.action(true), HostAction::Wait { within_ms: 30_000 });
    let phase = phase.advance(WAN, HostEvent::DialerDone);
    assert_eq!(phase.action(true), HostAction::Close);
    let phase = phase.advance(WAN, HostEvent::Closed);
    assert_eq!(phase.action(true), HostAction::Stop);
    assert_eq!(phase, HostPhase::Stopped(Ok(())));
}

#[test]
fn a_reached_server_fails_after_closing() {
    let phase =
        host(vec![HostEvent::Bound { port: Some(1) }, HostEvent::Published, HostEvent::Arrived]);
    assert_eq!(phase.action(false), HostAction::Close);
    assert_eq!(
        phase.advance(WAN, HostEvent::Closed),
        HostPhase::Stopped(Err(PeerError::Unsolicited))
    );
}

#[test]
fn server_failures_without_relay() {
    assert_eq!(
        host(vec![HostEvent::Failed]),
        HostPhase::Stopped(Err(PeerError::Outside(PeerStep::Bind)))
    );
    assert_eq!(
        host(vec![HostEvent::Bound { port: None }]),
        HostPhase::Stopped(Err(PeerError::NoSocket))
    );
    assert_eq!(
        host(vec![HostEvent::Bound { port: Some(1) }, HostEvent::Failed]),
        HostPhase::Stopped(Err(PeerError::AddressReceiverGone))
    );
    assert_eq!(
        host(vec![HostEvent::Bound { port: Some(1) }, HostEvent::Published, HostEvent::Failed]),
        HostPhase::Stopped(Err(PeerError::Outside(PeerStep::AwaitPeer)))
    );
}

#[test]
fn the_dialer_must_not_get_through() {
    assert_eq!(DialerPhase::Binding.action(false), DialerAction::Bind { relay: false, traversal: false });
    let phase = dialer(vec![DialerEvent::Bound]);
    assert_eq!(phase.action(false), DialerAction::AwaitAddress { within_ms: 30_000 });
    let phase = phase.advance(DialerEvent::AddressReceived);
    assert_eq!(phase.action(false), DialerAction::Dial { within_ms: 10_000 });
    for (event, end) in vec![
        (DialerEvent::NotConnected, Ok(())),
        (DialerEvent::Connected, Err(PeerError::Connected)),
    ] {
        let phase = phase.advance(event);
        assert_eq!(phase.action(false), DialerAction::Signal);
        let phase = phase.advance(DialerEvent::Signalled);
        assert_eq!(phase.action(false), DialerAction::Close);
        let phase = phase.advance(DialerEvent::Closed);
        assert_eq!(phase.action(false), DialerAction::Stop);
        assert_eq!(phase, DialerPhase::Stopped(end));
    }
}

#[test]
fn dialer_failures_without_relay() {
    assert_eq!(
        dialer(vec![DialerEvent::Failed]),
        DialerPhase::Stopped(Err(PeerError::Outside(PeerStep::Bind)))
    );
    assert_eq!(
        dialer(vec![DialerEvent::Bound, DialerEvent::Failed]),
        DialerPhase::Stopped(Err(PeerError::Outside(PeerStep::AwaitAddress)))
    );
}

#[test]
fn peer_failures_are_named() {
    assert_eq!(PeerError::Outside(PeerStep::AwaitPeer).message(), None);
    assert_eq!(PeerError::NoSocket.message(), Some("bound IPv4 socket"));
    assert_eq!(PeerError::AddressReceiverGone.message(), Some("address receiver gone"));
    assert_eq!(
        PeerError::Unsolicited.message(),
        Some("unexpected unsolicited connection through NAT")
    );
    assert_eq!(PeerError::Connected.message(), Some("unexpected connection without rendezvous"));
}

fn built(enabled: bool) -> NoRelayCase {
    let mut case = NoRelayCase::start(enabled);
    for step in without_relay() {
        assert_eq!(case.action(), NoRelayAction::Build(step));
        case = case.advance(NoRelayEvent::Built);
    }
    assert_eq!(case.action(), NoRelayAction::AskWan { router: Router::NatA });
    case
}

#[test]
fn a_case_without_relay_goes_step_by_step() {
    for enabled in vec![false, true] {
        let case = built(enabled).advance(NoRelayEvent::Wan(Some(WAN)));
        assert_eq!(
            case.action(),
            NoRelayAction::StartPeers { server: Device::Home, client: Device::Phone, wan: WAN }
        );
        let case = case.advance(NoRelayEvent::PeersStarted);
        assert_eq!(case.action(), NoRelayAction::Join);
        assert!(case.outcome().is_none());
        let case = case.advance(NoRelayEvent::Joined { server_ok: true, client_ok: true });
        assert_eq!(case.action(), NoRelayAction::Release);
        let line = match case.outcome() {
            Some(Ok(document)) => document.line(),
            _ => panic!("no document"),
        };
        assert!(line.contains("\"connected\":false"));
        assert!(line.contains(&format!("\"client_nat_traversal\":{}", enabled)));
    }
}

fn error(case: NoRelayCase) -> NoRelayError {
    assert_eq!(case.action(), NoRelayAction::Abandon);
    match case.outcome() {
        Some(Err(error)) => error,
        _ => panic!("no error"),
    }
}

#[test]
fn cases_without_relay_can_fail() {
    let failed = error(NoRelayCase::start(true).advance(NoRelayEvent::Failed));
    assert_eq!(failed, NoRelayError::Build);
    assert_eq!(failed.message(), None);
    let failed = error(built(true).advance(NoRelayEvent::Wan(None)));
    assert_eq!(failed, NoRelayError::NoWanAddress);
    assert_eq!(failed.message(), Some("NAT has WAN address"));
    let failed = error(
        built(true).advance(NoRelayEvent::Wan(Some(WAN))).advance(NoRelayEvent::Failed),
    );
    assert_eq!(failed, NoRelayError::StartPeers);
    for (server_ok, client_ok, end) in vec![
        (false, false, NoRelayError::Server),
        (false, true, NoRelayError::Server),
        (true, false, NoRelayError::Client),
    ] {
        let case = built(true)
            .advance(NoRelayEvent::Wan(Some(WAN)))
            .advance(NoRelayEvent::PeersStarted)
            .advance(NoRelayEvent::Joined { server_ok, client_ok });
        assert_eq!(error(case), end);
    }
}
