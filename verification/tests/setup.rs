use nat_lab::endpoint::{alpn, checks_certificates, endpoint, EndpointPlan, Missing, Socket};
use nat_lab::relay::{
    lab_relay, listeners, ready_word, relay_entry, relay_host, relay_ready, relay_url,
    RelayListeners,
};
use nat_lab::text::white_space;
use nat_lab::topology::{udp_filter, with_relay, without_relay, Device, Router, SetupStep};

#[test]
fn relay_lines_are_trimmed_like_std_does() {
    for line in vec![
        "READY\n",
        "READY",
        "  READY\r\n",
        "\u{3000}READY\u{a0}",
        "",
        " \n",
        "READ",
        "READYY",
        "NOT READY",
        "READY now",
        "ready",
        "R EADY",
        "\u{200b}READY",
    ] {
        assert_eq!(relay_ready(line), line.trim() == "READY", "{:?}", line);
    }
    assert!(relay_ready("READY\n"));
    assert!(!relay_ready("panic\n"));
}

#[test]
fn white_space_agrees_with_std() {
    for code in 0..=0x10ffffu32 {
        if let Some(c) = char::from_u32(code) {
            assert_eq!(white_space(c), c.is_whitespace(), "{:?}", c);
        }
    }
}

#[test]
fn the_relay_is_where_the_peers_look() {
    assert_eq!(
        listeners(),
        RelayListeners {
            http: Socket { ip: 0, port: 80 },
            https: Socket { ip: 0, port: 443 },
            quic: Some(Socket { ip: 0, port: 7842 }),
        }
    );
    assert_eq!(lab_relay().url, "https://relay.test");
    assert_eq!(lab_relay().quic_port, listeners().quic.map(|socket| socket.port));
    assert_eq!(relay_entry(None).quic_port, None);
    assert_eq!(relay_entry(Some(9)).quic_port, Some(9));
    assert_eq!(relay_url(), format!("https://{}", relay_host()));
    assert_eq!(ready_word(), "READY");
}

#[test]
fn endpoints_bind_an_ipv4_socket() {
    assert_eq!(
        endpoint(Some(0xc612_000b), true, false),
        Ok(EndpointPlan {
            nat_traversal: false,
            relay: Some(lab_relay()),
            check_certificates: false,
            bind: Socket { ip: 0xc612_000b, port: 0 },
            alpn: "zakura/nat-lab/1",
        })
    );
    assert_eq!(endpoint(None, true, true), Err(Missing::DeviceAddress));
    assert_eq!(alpn(), "zakura/nat-lab/1");
    assert!(!checks_certificates());
}

#[test]
fn traversal_changes_nothing_else_of_an_endpoint() {
    for relay in vec![false, true] {
        let off = endpoint(Some(7), relay, false).unwrap();
        let on = endpoint(Some(7), relay, true).unwrap();
        assert!(on.nat_traversal && !off.nat_traversal);
        assert_eq!(EndpointPlan { nat_traversal: false, ..on }, off);
        assert_eq!(off.relay, if relay { Some(lab_relay()) } else { None });
    }
}

#[test]
fn missing_things_are_named() {
    let table = vec![
        (Missing::RelayAddress, "relay IPv4"),
        (Missing::DeviceAddress, "device has IPv4"),
        (Missing::WanAddress, "NAT has WAN address"),
        (Missing::BoundSocket, "bound IPv4 socket"),
        (Missing::FilterInput, "piped nft stdin"),
        (Missing::FilterInstalled, "install isolated UDP filter"),
        (
            Missing::RelayProgram,
            "set ZAKURA_NAT_RELAY to the absolute path of the relay helper",
        ),
        (Missing::RelayOutput, "relay stdout"),
    ];
    for (missing, message) in table {
        assert_eq!(missing.message(), message);
    }
}

#[test]
fn networks_with_a_relay() {
    let steps = with_relay(false);
    assert_eq!(
        steps,
        vec![
            SetupStep::AddRouter { router: Router::Dc, moderate_nat: false, ipv4_only: true },
            SetupStep::AddDevice { device: Device::Relay, uplink: Router::Dc },
            SetupStep::NameRelay { device: Device::Relay },
            SetupStep::AddRouter { router: Router::NatA, moderate_nat: true, ipv4_only: true },
            SetupStep::AddRouter { router: Router::NatB, moderate_nat: true, ipv4_only: true },
            SetupStep::AddDevice { device: Device::Home, uplink: Router::NatA },
            SetupStep::AddDevice { device: Device::Phone, uplink: Router::NatB },
        ]
    );
    let mut blocked = steps.clone();
    blocked.push(SetupStep::DropUdp { device: Device::Phone });
    assert_eq!(with_relay(true), blocked);
    assert_eq!(without_relay(), steps[3..].to_vec());
}

#[test]
fn networks_have_labels() {
    assert_eq!(Router::Dc.label(), "dc");
    assert_eq!(Router::NatA.label(), "nat-a");
    assert_eq!(Router::NatB.label(), "nat-b");
    assert_eq!(Device::Relay.label(), "relay");
    assert_eq!(Device::Home.label(), "home");
    assert_eq!(Device::Phone.label(), "phone");
}

#[test]
fn the_filter_spares_dns() {
    assert_eq!(
        udp_filter().lines().collect::<Vec<_>>(),
        vec![
            "table inet nat_lab {",
            " chain output {",
            "  type filter hook output priority 0; policy accept;",
            "  udp dport != 53 drop",
            " }",
            "}",
        ]
    );
    assert!(udp_filter().ends_with("}\n"));
}
