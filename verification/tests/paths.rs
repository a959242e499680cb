use nat_lab::address::{is_relay_bootstrap, relay_only, Address};
use nat_lab::path::{direct, selected, PathInfo, Watch, WatchAction};

fn path(selected: bool, ip: bool, remote: &str) -> PathInfo {
    PathInfo { selected, ip, remote: remote.to_string() }
}

#[test]
fn the_first_selected_path_counts() {
    assert_eq!(selected(&vec![]), None);
    assert_eq!(selected(&vec![path(false, true, "198.18.0.11:60101")]), None);
    assert_eq!(
        selected(&vec![
            path(false, true, "10.0.0.1:1"),
            path(true, false, "https://relay.test/"),
            path(true, true, "198.18.0.11:60101"),
        ]),
        Some("https://relay.test/".to_string())
    );
}

#[test]
fn direct_needs_a_selected_ip_path() {
    assert!(!direct(&vec![]));
    assert!(!direct(&vec![path(true, false, "r"), path(false, true, "i")]));
    assert!(direct(&vec![path(true, false, "r"), path(true, true, "i")]));
}

#[test]
fn the_watch_ends_at_the_first_direct_path() {
    let relayed = vec![path(true, false, "r"), path(false, true, "i")];
    let punched = vec![path(false, false, "r"), path(true, true, "i")];
    let mut watch = Watch::start();
    assert_eq!(watch.action(), WatchAction::Sleep { ms: 20 });
    watch.look(&relayed);
    assert_eq!(watch.action(), WatchAction::Sleep { ms: 20 });
    watch.look(&punched);
    assert_eq!(watch.action(), WatchAction::Stop { direct: true });
    watch.look(&relayed);
    watch.deadline();
    assert_eq!(watch.action(), WatchAction::Stop { direct: true });
}

#[test]
fn the_watch_gives_up_at_the_deadline() {
    let mut watch = Watch::start();
    watch.look(&vec![path(true, false, "r")]);
    watch.deadline();
    assert_eq!(watch.action(), WatchAction::Stop { direct: false });
    watch.look(&vec![path(true, true, "i")]);
    assert_eq!(watch.action(), WatchAction::Stop { direct: false });
}

#[test]
fn only_relay_addresses_are_published() {
    let all = vec![
        Address::Ip("198.18.0.11:60101".to_string()),
        Address::Relay("https://relay.test/".to_string()),
        Address::Other("7_00".to_string()),
        Address::Relay("https://other.test/".to_string()),
    ];
    assert!(!is_relay_bootstrap(&all));
    let kept = relay_only(&all);
    assert_eq!(kept.len(), 2);
    assert!(matches!(&kept[0], Address::Relay(url) if url == "https://relay.test/"));
    assert!(matches!(&kept[1], Address::Relay(url) if url == "https://other.test/"));
    assert!(is_relay_bootstrap(&kept));
}

#[test]
fn other_transports_do_not_spoil_a_bootstrap() {
    assert!(is_relay_bootstrap(&vec![]));
    assert!(is_relay_bootstrap(&vec![Address::Other("7_00".to_string())]));
}
