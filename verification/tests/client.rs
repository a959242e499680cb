use nat_lab::address::Address;
use nat_lab::case::RelayCase;
use nat_lab::client::{
    Client, ClientAction, ClientError, ClientEvent, ClientStep, Transfer, TransferError,
};
use nat_lab::path::PathInfo;
use nat_lab::report::{FrameCounts, Report};

fn zero() -> FrameCounts {
    FrameCounts { add_address_rx: 0, add_address_tx: 0, reach_out_rx: 0, reach_out_tx: 0 }
}

fn relayed() -> Vec<PathInfo> {
    vec![PathInfo { selected: true, ip: false, remote: "https://relay.test/".to_string() }]
}

fn punched() -> Vec<PathInfo> {
    vec![
        PathInfo { selected: false, ip: false, remote: "https://relay.test/".to_string() },
        PathInfo { selected: true, ip: true, remote: "198.18.0.11:60101".to_string() },
    ]
}

fn intact(paths: Vec<PathInfo>) -> ClientEvent {
    ClientEvent::Transferred { outcome: Transfer::Intact("aa55".to_string()), paths }
}

fn broken(paths: Vec<PathInfo>) -> ClientEvent {
    let error = TransferError {
        brief: "payload exchange timed out: deadline has elapsed".to_string(),
        full: "payload exchange timed out\n\nCaused by:\n    deadline has elapsed".to_string(),
    };
    ClientEvent::Transferred { outcome: Transfer::Broken(error), paths }
}

fn observed(direct: bool, paths: Vec<PathInfo>, frames: FrameCounts) -> ClientEvent {
    ClientEvent::Observed { direct, paths, elapsed_ms: 950, frames }
}

fn run(case: RelayCase, events: Vec<ClientEvent>) -> Client {
    let mut client = Client::start(case);
    for event in events {
        client = client.advance(event);
    }
    client
}

fn opening() -> Vec<ClientEvent> {
    vec![
        ClientEvent::Bound,
        ClientEvent::AddressReceived(vec![Address::Relay("https://relay.test/".to_string())]),
        ClientEvent::Connected { elapsed_ms: 31, paths: relayed() },
        intact(relayed()),
    ]
}

fn end(case: RelayCase, more: Vec<ClientEvent>) -> Option<Result<Report, ClientError>> {
    let mut events = opening();
    events.extend(more);
    run(case, events).outcome()
}

fn failure(outcome: Option<Result<Report, ClientError>>) -> ClientError {
    outcome.unwrap().unwrap_err()
}

fn both() -> RelayCase {
    RelayCase { server: true, client: true, udp_blocked: false }
}

fn half() -> RelayCase {
    RelayCase { server: false, client: true, udp_blocked: false }
}

fn blocked() -> RelayCase {
    RelayCase { server: true, client: true, udp_blocked: true }
}

#[test]
fn the_dialer_goes_step_by_step() {
    let mut client = Client::start(both());
    let script = vec![
        (ClientAction::Bind { relay: true, traversal: true }, ClientEvent::Bound),
        (ClientAction::AwaitAddress { within_ms: 30_000 }, ClientEvent::AddressReceived(vec![])),
        (
            ClientAction::Connect { within_ms: 30_000 },
            ClientEvent::Connected { elapsed_ms: 31, paths: relayed() },
        ),
        (ClientAction::Transfer { within_ms: 8_000 }, intact(relayed())),
        (ClientAction::Observe { within_ms: 10_000 }, observed(true, punched(), zero())),
        (ClientAction::RequestCut, ClientEvent::CutRequested),
        (ClientAction::AwaitCut { within_ms: 30_000 }, ClientEvent::CutDone),
        (ClientAction::Transfer { within_ms: 8_000 }, intact(punched())),
        (ClientAction::SendFinish, ClientEvent::FinishSent),
        (ClientAction::Close, ClientEvent::Closed),
    ];
    for (action, event) in script {
        assert_eq!(client.action(), action);
        client = client.advance(event);
    }
    assert_eq!(client.action(), ClientAction::Stop);
    let report = client.outcome().unwrap().unwrap();
    assert_eq!(report.case, both());
    assert_eq!(report.connect_ms, 31);
    assert_eq!(report.initial_path, Some("https://relay.test/".to_string()));
    assert_eq!(report.path_before_cut, Some("198.18.0.11:60101".to_string()));
    assert!(report.direct);
    assert_eq!(report.observed_ms, 950);
    assert_eq!(report.payload_blake2b, "aa55");
    assert!(report.post_cut_transfer);
    assert_eq!(report.post_cut_error, None);
    assert_eq!(report.frames, zero());
}

#[test]
fn the_dialer_opts_in_by_its_own_setting() {
    let case = RelayCase { server: true, client: false, udp_blocked: false };
    assert_eq!(Client::start(case).action(), ClientAction::Bind { relay: true, traversal: false });
}

#[test]
fn a_relayed_case_reports_the_failed_second_exchange() {
    for case in vec![half(), blocked()] {
        let report = end(
            case,
            vec![
                observed(false, relayed(), zero()),
                ClientEvent::CutRequested,
                ClientEvent::CutDone,
                broken(relayed()),
                ClientEvent::FinishSent,
                ClientEvent::Closed,
            ],
        )
        .unwrap()
        .unwrap();
        assert!(!report.direct);
        assert!(!report.post_cut_transfer);
        assert_eq!(
            report.post_cut_error,
            Some("payload exchange timed out: deadline has elapsed".to_string())
        );
    }
}

#[test]
fn a_direct_hint_is_refused() {
    let client = run(
        both(),
        vec![
            ClientEvent::Bound,
            ClientEvent::AddressReceived(vec![
                Address::Relay("https://relay.test/".to_string()),
                Address::Ip("198.18.0.11:60101".to_string()),
            ]),
        ],
    );
    assert_eq!(client.action(), ClientAction::Stop);
    let error = failure(client.outcome());
    assert!(matches!(error, ClientError::DirectHint));
    assert_eq!(error.message(), Some("bootstrap must be relay-only".to_string()));
}

#[test]
fn a_failed_first_exchange_ends_the_dialer() {
    let mut events = opening();
    events.pop();
    events.push(broken(relayed()));
    let error = failure(run(both(), events).outcome());
    assert!(matches!(&error, ClientError::FirstTransfer(cause) if cause.full.contains("Caused by")));
    assert_eq!(error.message(), Some("transfer before relay cutoff".to_string()));
    assert!(error.has_outside_cause());
}

#[test]
fn an_unexpected_path_is_described() {
    let error = failure(end(half(), vec![observed(true, punched(), zero())]));
    assert_eq!(
        error.message(),
        Some(
            "unexpected direct-path outcome: server=false client=true blocked=false path=Some(\"198.18.0.11:60101\")"
                .to_string()
        )
    );
    let error = failure(end(both(), vec![observed(false, vec![], zero())]));
    assert_eq!(
        error.message(),
        Some(
            "unexpected direct-path outcome: server=true client=true blocked=false path=None"
                .to_string()
        )
    );
}

#[test]
fn a_relay_row_needs_a_selected_relay_path() {
    for case in vec![half(), blocked()] {
        for paths in vec![vec![], unselected()] {
            let error = failure(end(case, vec![observed(false, paths, zero())]));
            assert!(matches!(error, ClientError::UnexpectedPath { path: None, .. }));
        }
        let error = failure(end(case, vec![observed(false, punched(), zero())]));
        assert!(matches!(
            &error,
            ClientError::UnexpectedPath { path: Some(remote), .. } if remote == "198.18.0.11:60101"
        ));
        let mut both_selected = relayed();
        both_selected.extend(punched());
        let error = failure(end(case, vec![observed(false, both_selected, zero())]));
        assert!(matches!(error, ClientError::UnexpectedPath { .. }));
        assert!(end(case, vec![observed(false, relayed(), zero())]).is_none());
    }
}

fn unselected() -> Vec<PathInfo> {
    vec![PathInfo { selected: false, ip: false, remote: "https://relay.test/".to_string() }]
}

#[test]
fn the_direct_row_needs_a_selected_ip_path() {
    for paths in vec![vec![], relayed()] {
        let error = failure(end(both(), vec![observed(true, paths, zero())]));
        assert!(matches!(error, ClientError::UnexpectedPath { .. }));
    }
    assert!(end(both(), vec![observed(true, punched(), zero())]).is_none());
}

#[test]
fn paths_in_messages_are_escaped_like_std_does() {
    let remote = "a\"b\\c\n\u{7f}".to_string();
    let paths = vec![PathInfo { selected: true, ip: true, remote: remote.clone() }];
    let error = failure(end(half(), vec![observed(true, paths, zero())]));
    assert_eq!(
        error.message(),
        Some(format!(
            "unexpected direct-path outcome: server={} client={} blocked={} path={:?}",
            false,
            true,
            false,
            Some(remote)
        ))
    );
}

#[test]
fn traversal_frames_count_against_a_disabled_peer_only() {
    let frames = FrameCounts { reach_out_tx: 1, ..zero() };
    let error = failure(end(half(), vec![observed(false, relayed(), frames)]));
    assert!(matches!(error, ClientError::TraversalNegotiated));
    assert_eq!(error.message(), Some("disabled peer negotiated traversal".to_string()));
    assert!(end(blocked(), vec![observed(false, relayed(), frames)]).is_none());
    assert!(end(both(), vec![observed(true, punched(), frames)]).is_none());
}

#[test]
fn an_unexpected_second_exchange_is_described() {
    let cut = vec![ClientEvent::CutRequested, ClientEvent::CutDone];
    let mut events = vec![observed(false, relayed(), zero())];
    events.extend(cut);
    events.push(intact(relayed()));
    let error = failure(end(half(), events));
    assert_eq!(
        error.message(),
        Some("unexpected transfer after relay cutoff: Ok(\"aa55\")".to_string())
    );
    assert!(!error.has_outside_cause());
    let error = failure(end(
        both(),
        vec![
            observed(true, punched(), zero()),
            ClientEvent::CutRequested,
            ClientEvent::CutDone,
            broken(punched()),
        ],
    ));
    assert_eq!(
        error.message(),
        Some(
            "unexpected transfer after relay cutoff: Err(payload exchange timed out\n\nCaused by:\n    deadline has elapsed)"
                .to_string()
        )
    );
}

#[test]
fn a_second_exchange_over_the_relay_is_no_hole_punch() {
    let error = failure(end(
        both(),
        vec![
            observed(true, punched(), zero()),
            ClientEvent::CutRequested,
            ClientEvent::CutDone,
            intact(relayed()),
        ],
    ));
    assert!(matches!(error, ClientError::NotDirect));
    assert_eq!(error.message(), Some("successful cutoff transfer must use IP".to_string()));
}

#[test]
fn outside_failures_keep_their_step() {
    let error = failure(run(both(), vec![ClientEvent::Failed]).outcome());
    assert!(matches!(error, ClientError::Outside(ClientStep::Bind)));
    assert_eq!(error.message(), None);
    assert!(error.has_outside_cause());
    let error = failure(run(both(), vec![ClientEvent::Bound, ClientEvent::Failed]).outcome());
    assert!(matches!(error, ClientError::Outside(ClientStep::AwaitAddress)));
    let mut events = opening();
    events.truncate(2);
    events.push(ClientEvent::Failed);
    let error = failure(run(both(), events).outcome());
    assert!(matches!(error, ClientError::Outside(ClientStep::Connect)));
    let error =
        failure(end(both(), vec![observed(true, punched(), zero()), ClientEvent::Failed]));
    assert!(matches!(error, ClientError::CutReceiverGone));
    assert_eq!(error.message(), Some("cut receiver gone".to_string()));
    let error = failure(end(
        both(),
        vec![
            observed(true, punched(), zero()),
            ClientEvent::CutRequested,
            ClientEvent::Failed,
        ],
    ));
    assert!(matches!(error, ClientError::Outside(ClientStep::AwaitCut)));
}

#[test]
fn stray_events_change_nothing() {
    let client = run(both(), vec![ClientEvent::CutDone, ClientEvent::Closed, intact(punched())]);
    assert_eq!(client.action(), ClientAction::Bind { relay: true, traversal: true });
    assert!(client.outcome().is_none());
    let client = run(both(), vec![ClientEvent::Failed, ClientEvent::Bound, ClientEvent::Failed]);
    assert_eq!(client.action(), ClientAction::Stop);
    assert!(matches!(
        client.outcome(),
        Some(Err(ClientError::Outside(ClientStep::Bind)))
    ));
}
