use nat_lab::case::RelayCase;
use nat_lab::coordinator::{CaseAction, CaseError, CaseEvent, ConductStep, Coordinator};
use nat_lab::report::{FrameCounts, Report};
use nat_lab::topology::{with_relay, Device};

fn case(udp_blocked: bool) -> RelayCase {
    RelayCase { server: true, client: true, udp_blocked }
}

fn report() -> Report {
    Report {
        case: case(false),
        connect_ms: 31,
        initial_path: None,
        path_before_cut: None,
        direct: true,
        observed_ms: 950,
        payload_blake2b: "aa55".to_string(),
        post_cut_transfer: true,
        post_cut_error: None,
        frames: FrameCounts {
            add_address_rx: 0,
            add_address_tx: 0,
            reach_out_rx: 0,
            reach_out_tx: 0,
        },
    }
}

fn built(udp_blocked: bool) -> Coordinator {
    let mut coordinator = Coordinator::start(case(udp_blocked));
    for step in with_relay(udp_blocked) {
        assert_eq!(coordinator.action(), CaseAction::Build(step));
        coordinator = coordinator.advance(CaseEvent::Built);
    }
    coordinator
}

fn conduct() -> Vec<(CaseAction, CaseEvent, Option<ConductStep>)> {
    vec![
        (
            CaseAction::StartRelay { device: Device::Relay, within_ms: 30_000 },
            CaseEvent::RelayLine("READY\n".to_string()),
            Some(ConductStep::StartRelay),
        ),
        (
            CaseAction::StartPeers { server: Device::Home, client: Device::Phone },
            CaseEvent::PeersStarted,
            Some(ConductStep::StartPeers),
        ),
        (
            CaseAction::AwaitCut { within_ms: 75_000 },
            CaseEvent::CutRequested,
            Some(ConductStep::AwaitCut),
        ),
        (CaseAction::KillRelay, CaseEvent::RelayKilled, Some(ConductStep::KillRelay)),
        (
            CaseAction::ReapRelay { within_ms: 30_000 },
            CaseEvent::RelayReaped,
            Some(ConductStep::ReapRelay),
        ),
        (CaseAction::RemoveRelay { device: Device::Relay }, CaseEvent::RelayRemoved, Some(ConductStep::RemoveRelay)),
        (CaseAction::Acknowledge, CaseEvent::Acknowledged, None),
    ]
}

fn joining() -> Coordinator {
    let mut coordinator = built(false);
    for (action, event, _) in conduct() {
        assert_eq!(coordinator.action(), action);
        coordinator = coordinator.advance(event);
    }
    assert_eq!(coordinator.action(), CaseAction::Join);
    coordinator
}

#[test]
fn a_case_goes_step_by_step() {
    let coordinator =
        joining().advance(CaseEvent::Joined { server_ok: true, report: Some(report()) });
    assert_eq!(coordinator.action(), CaseAction::Release);
    let found = coordinator.outcome().unwrap().unwrap();
    assert_eq!(found.payload_blake2b, "aa55");
}

#[test]
fn the_udp_control_is_built_last() {
    assert_eq!(built(true).action(), CaseAction::StartRelay { device: Device::Relay, within_ms: 30_000 });
}

#[test]
fn a_silent_relay_fails_the_case() {
    let coordinator = built(false).advance(CaseEvent::RelayLine("oops\n".to_string()));
    assert_eq!(coordinator.action(), CaseAction::Abandon);
    let error = coordinator.outcome().unwrap().unwrap_err();
    assert_eq!(error.message(), Some("relay failed to start: oops\n".to_string()));
    let error = built(false).advance(CaseEvent::RelayLine(String::new())).outcome();
    assert!(matches!(error, Some(Err(CaseError::RelayNotReady { line })) if line.is_empty()));
}

#[test]
fn every_part_can_fail() {
    let error = Coordinator::start(case(false)).advance(CaseEvent::Failed).outcome();
    assert!(matches!(error, Some(Err(CaseError::Outside(ConductStep::Build)))));
    for stop in 0..conduct().len() {
        let mut coordinator = built(false);
        let mut expected = None;
        for (i, (_, event, step)) in conduct().into_iter().enumerate() {
            if i < stop {
                coordinator = coordinator.advance(event);
            } else if i == stop {
                expected = step;
            }
        }
        let error = coordinator.advance(CaseEvent::Failed).outcome().unwrap().unwrap_err();
        match (error, expected) {
            (CaseError::Outside(found), Some(step)) => {
                assert_eq!(found, step);
                assert_eq!(CaseError::Outside(found).message(), None);
            }
            (CaseError::AcknowledgmentReceiverGone, None) => {
                assert_eq!(
                    CaseError::AcknowledgmentReceiverGone.message(),
                    Some("cut acknowledgment receiver gone".to_string())
                );
            }
            (other, _) => panic!("{:?}", other),
        }
    }
}

#[test]
fn the_servers_failure_comes_first() {
    let error = joining().advance(CaseEvent::Joined { server_ok: false, report: None }).outcome();
    assert!(matches!(error, Some(Err(CaseError::Server))));
    let error = joining()
        .advance(CaseEvent::Joined { server_ok: false, report: Some(report()) })
        .outcome();
    assert!(matches!(error, Some(Err(CaseError::Server))));
    let error = joining().advance(CaseEvent::Joined { server_ok: true, report: None }).outcome();
    assert!(matches!(error, Some(Err(CaseError::Client))));
    assert_eq!(CaseError::Server.message(), None);
    assert_eq!(CaseError::Client.message(), None);
}

#[test]
fn the_relay_is_not_acknowledged_as_gone_before_it_is() {
    let mut coordinator = built(false);
    for (_, event, _) in conduct().into_iter().take(3) {
        coordinator = coordinator.advance(event);
    }
    let coordinator = coordinator.advance(CaseEvent::RelayRemoved).advance(CaseEvent::RelayReaped);
    assert_eq!(coordinator.action(), CaseAction::KillRelay);
    assert!(coordinator.outcome().is_none());
}
