use nat_lab::address::Address;
use nat_lab::case::RelayCase;
use nat_lab::client::{Client, ClientAction, ClientEvent, Transfer};
use nat_lab::coordinator::{CaseAction, CaseEvent, Coordinator};
use nat_lab::path::{Watch, WatchAction, PathInfo};
use nat_lab::report::FrameCounts;
use nat_lab::server::{Server, ServerAction, ServerEvent};
use nat_lab::transfer::{check_reply, echo, payload};

fn path(ip: bool, remote: &str) -> Vec<PathInfo> {
    vec![PathInfo { selected: true, ip, remote: remote.to_string() }]
}

fn exchange() -> Transfer {
    let sent = payload();
    let reply = echo(sent.clone()).unwrap();
    Transfer::Intact(check_reply(&sent, &reply).unwrap())
}

#[test]
fn a_punched_case_runs_through() {
    let case = RelayCase { server: true, client: true, udp_blocked: false };
    let mut conduct = Coordinator::start(case);
    while let CaseAction::Build(_) = conduct.action() {
        conduct = conduct.advance(CaseEvent::Built);
    }
    conduct = conduct.advance(CaseEvent::RelayLine("READY\n".to_string()));
    conduct = conduct.advance(CaseEvent::PeersStarted);

    let mut server = Server::start(case).advance(ServerEvent::Bound);
    server = server.advance(ServerEvent::Online(vec![
        Address::Ip("10.0.0.2:4433".to_string()),
        Address::Relay("https://relay.test/".to_string()),
    ]));
    let published = server.published().unwrap();
    let hints = published
        .iter()
        .map(|address| match address {
            Address::Relay(url) => Address::Relay(url.clone()),
            other => panic!("{:?}", other),
        })
        .collect();
    server = server.advance(ServerEvent::Published).advance(ServerEvent::Accepted);

    let mut client = Client::start(case).advance(ClientEvent::Bound);
    client = client.advance(ClientEvent::AddressReceived(hints));
    let relayed = path(false, "https://relay.test/");
    client = client.advance(ClientEvent::Connected { elapsed_ms: 31, paths: relayed });
    client = client.advance(ClientEvent::Transferred {
        outcome: exchange(),
        paths: path(false, "https://relay.test/"),
    });
    server = server.advance(ServerEvent::Echoed);
    let mut watch = Watch::start();
    watch.look(&path(false, "https://relay.test/"));
    watch.look(&path(true, "198.18.0.11:60101"));
    let direct = watch.action() == WatchAction::Stop { direct: true };
    client = client.advance(ClientEvent::Observed {
        direct,
        paths: path(true, "198.18.0.11:60101"),
        elapsed_ms: 950,
        frames: FrameCounts {
            add_address_rx: 1,
            add_address_tx: 1,
            reach_out_rx: 1,
            reach_out_tx: 1,
        },
    });
    assert_eq!(client.action(), ClientAction::RequestCut);
    client = client.advance(ClientEvent::CutRequested);

    conduct = conduct.advance(CaseEvent::CutRequested).advance(CaseEvent::RelayKilled);
    conduct = conduct.advance(CaseEvent::RelayReaped).advance(CaseEvent::RelayRemoved);
    assert_eq!(conduct.action(), CaseAction::Acknowledge);
    conduct = conduct.advance(CaseEvent::Acknowledged);

    client = client.advance(ClientEvent::CutDone);
    client = client.advance(ClientEvent::Transferred {
        outcome: exchange(),
        paths: path(true, "198.18.0.11:60101"),
    });
    server = server.advance(ServerEvent::Echoed);
    assert_eq!(client.action(), ClientAction::SendFinish);
    client = client.advance(ClientEvent::FinishSent).advance(ClientEvent::Closed);
    server = server.advance(ServerEvent::FinishReceived).advance(ServerEvent::Closed);
    assert_eq!(server.action(), ServerAction::Stop);

    let report = client.outcome().unwrap().unwrap();
    assert!(report.direct && report.post_cut_transfer);
    conduct = conduct.advance(CaseEvent::Joined {
        server_ok: server.outcome() == Some(Ok(())),
        report: Some(report),
    });
    assert_eq!(conduct.action(), CaseAction::Release);
    let line = conduct.outcome().unwrap().unwrap().document().line();
    assert!(line.contains("\"payload_blake2b\":\"417d3961500ceb59"));
    assert!(line.contains("\"path_before_cut\":\"198.18.0.11:60101\""));
}
