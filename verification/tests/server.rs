use nat_lab::address::Address;
use nat_lab::case::RelayCase;
use nat_lab::server::{Server, ServerAction, ServerError, ServerEvent, ServerStep};

fn start() -> Server {
    Server::start(RelayCase { server: true, client: false, udp_blocked: false })
}

fn run(events: Vec<ServerEvent>) -> Server {
    let mut server = start();
    for event in events {
        server = server.advance(event);
    }
    server
}

fn serving(more: Vec<ServerEvent>) -> Server {
    let mut events = vec![
        ServerEvent::Bound,
        ServerEvent::Online(vec![]),
        ServerEvent::Published,
        ServerEvent::Accepted,
    ];
    events.extend(more);
    run(events)
}

#[test]
fn the_server_goes_step_by_step() {
    let mut server = start();
    let addresses = vec![
        Address::Ip("10.0.0.2:4433".to_string()),
        Address::Relay("https://relay.test/".to_string()),
    ];
    let script = vec![
        (ServerAction::Bind { relay: true, traversal: true }, ServerEvent::Bound),
        (ServerAction::AwaitOnline { within_ms: 30_000 }, ServerEvent::Online(addresses)),
        (ServerAction::Publish, ServerEvent::Published),
        (ServerAction::Accept { within_ms: 30_000 }, ServerEvent::Accepted),
        (ServerAction::Serve { within_ms: 80_000 }, ServerEvent::Echoed),
        (ServerAction::Serve { within_ms: 80_000 }, ServerEvent::Echoed),
        (ServerAction::Serve { within_ms: 80_000 }, ServerEvent::FinishReceived),
        (ServerAction::Close, ServerEvent::Closed),
    ];
    for (action, event) in script {
        assert_eq!(server.action(), action);
        assert_eq!(server.published().is_some(), action == ServerAction::Publish);
        if let Some(published) = server.published() {
            assert_eq!(published.len(), 1);
            assert!(matches!(&published[0], Address::Relay(url) if url == "https://relay.test/"));
        }
        assert_eq!(server.outcome(), None);
        server = server.advance(event);
    }
    assert_eq!(server.action(), ServerAction::Stop);
    assert_eq!(server.outcome(), Some(Ok(())));
}

#[test]
fn a_failed_echo_still_closes_the_endpoint() {
    let server = serving(vec![ServerEvent::Echoed, ServerEvent::EchoFailed]);
    assert_eq!(server.action(), ServerAction::Close);
    let server = server.advance(ServerEvent::Closed);
    assert_eq!(server.outcome(), Some(Err(ServerError::EchoFailed)));
}

#[test]
fn a_vanished_dialer_is_a_failure() {
    let server = serving(vec![ServerEvent::FinishDropped, ServerEvent::Closed]);
    assert_eq!(server.outcome(), Some(Err(ServerError::FinishDropped)));
}

#[test]
fn running_out_of_time_skips_the_close() {
    let server = serving(vec![ServerEvent::Failed]);
    assert_eq!(server.action(), ServerAction::Stop);
    assert_eq!(server.outcome(), Some(Err(ServerError::Outside(ServerStep::Serve))));
}

#[test]
fn early_failures_keep_their_step() {
    assert_eq!(
        run(vec![ServerEvent::Failed]).outcome(),
        Some(Err(ServerError::Outside(ServerStep::Bind)))
    );
    assert_eq!(
        run(vec![ServerEvent::Bound, ServerEvent::Failed]).outcome(),
        Some(Err(ServerError::Outside(ServerStep::AwaitOnline)))
    );
    let published = vec![ServerEvent::Bound, ServerEvent::Online(vec![])];
    assert_eq!(
        run(published).advance(ServerEvent::Failed).outcome(),
        Some(Err(ServerError::AddressReceiverGone))
    );
    for (event, error) in vec![
        (ServerEvent::NoIncoming, ServerError::NoIncoming),
        (ServerEvent::HandshakeFailed, ServerError::HandshakeFailed),
        (ServerEvent::Failed, ServerError::Outside(ServerStep::Accept)),
    ] {
        let server =
            run(vec![ServerEvent::Bound, ServerEvent::Online(vec![]), ServerEvent::Published]);
        assert_eq!(server.advance(event).outcome(), Some(Err(error)));
    }
}

#[test]
fn server_failures_are_named() {
    assert_eq!(ServerError::Outside(ServerStep::Bind).message(), None);
    assert_eq!(ServerError::AddressReceiverGone.message(), Some("address receiver gone"));
    assert_eq!(ServerError::NoIncoming.message(), Some("incoming connection"));
    assert_eq!(ServerError::HandshakeFailed.message(), Some("accept handshake"));
    assert_eq!(ServerError::EchoFailed.message(), None);
    assert_eq!(ServerError::FinishDropped.message(), None);
}
