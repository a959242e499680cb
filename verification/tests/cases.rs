use nat_lab::case::{cases, LabCase, RelayCase};

fn relay(server: bool, client: bool, udp_blocked: bool) -> RelayCase {
    RelayCase { server, client, udp_blocked }
}

#[test]
fn cases_come_in_order() {
    assert_eq!(
        cases(),
        vec![
            LabCase::Relay(relay(false, false, false)),
            LabCase::Relay(relay(false, true, false)),
            LabCase::Relay(relay(true, false, false)),
            LabCase::Relay(relay(true, true, false)),
            LabCase::Relay(relay(true, true, true)),
            LabCase::NoRelay { enabled: false },
            LabCase::NoRelay { enabled: true },
        ]
    );
}

#[test]
fn only_two_willing_peers_with_udp_go_direct() {
    let table = vec![
        (relay(false, false, false), false),
        (relay(false, true, false), false),
        (relay(true, false, false), false),
        (relay(true, true, false), true),
        (relay(true, true, true), false),
        (relay(false, false, true), false),
        (relay(false, true, true), false),
        (relay(true, false, true), false),
    ];
    for (case, direct) in table {
        assert_eq!(case.expected_direct(), direct);
        assert_eq!(case.has_disabled_peer(), !(case.server && case.client));
    }
}

#[test]
fn names_are_spelled_out() {
    assert_eq!(
        LabCase::Relay(relay(true, false, false)).name(),
        "server-true-client-false-udp-blocked-false"
    );
    assert_eq!(
        LabCase::Relay(relay(true, true, true)).name(),
        "server-true-client-true-udp-blocked-true"
    );
    assert_eq!(LabCase::NoRelay { enabled: false }.name(), "no-relay-false");
    assert_eq!(LabCase::NoRelay { enabled: true }.name(), "no-relay-true");
}

#[test]
fn names_differ_pairwise() {
    let names: Vec<String> = cases().iter().map(|case| case.name()).collect();
    for i in 0..names.len() {
        for j in 0..i {
            assert_ne!(names[i], names[j]);
        }
    }
}

#[test]
fn limits_depend_on_the_relay() {
    let with = LabCase::Relay(relay(true, true, false));
    let without = LabCase::NoRelay { enabled: true };
    assert_eq!(with.limit_secs(), 120);
    assert_eq!(with.limit_message(), Some("case exceeded 120 seconds"));
    assert_eq!(without.limit_secs(), 60);
    assert_eq!(without.limit_message(), None);
}
