//! The networks of a case, and the order in which they are built.

use vstd::prelude::*;

verus! {

/// A router of the lab.
#[derive(Clone, Copy, PartialEq, Eq, Structural, Debug)]
pub enum Router {
    /// The router in front of the relay.
    Dc,
    /// The router in front of the server.
    NatA,
    /// The router in front of the dialer.
    NatB,
}

/// A device of the lab.
#[derive(Clone, Copy, PartialEq, Eq, Structural, Debug)]
pub enum Device {
    /// The host of the relay.
    Relay,
    /// The host of the server.
    Home,
    /// The host of the dialer.
    Phone,
}

/// A step of building the networks.
#[derive(Clone, Copy, PartialEq, Eq, Structural, Debug)]
pub enum SetupStep {
    /// Add a router, with or without a moderate NAT, for IPv4 alone or not.
    AddRouter { router: Router, moderate_nat: bool, ipv4_only: bool },
    /// Add a device behind a router.
    AddDevice { device: Device, uplink: Router },
    /// Enter the relay's host name in the lab's DNS, for a device's address.
    NameRelay { device: Device },
    /// Make a device drop outgoing UDP, apart from DNS.
    DropUdp { device: Device },
}

impl Router {
    /// The label of the router.
    pub fn label(&self) -> (label: &'static str)
        ensures
            label@ == match self {
                Router::Dc => "dc"@,
                Router::NatA => "nat-a"@,
                Router::NatB => "nat-b"@,
            },
    {
        match self {
            Router::Dc => "dc",
            Router::NatA => "nat-a",
            Router::NatB => "nat-b",
        }
    }
}

impl Device {
    /// The label of the device.
    pub fn label(&self) -> (label: &'static str)
        ensures
            label@ == match self {
                Device::Relay => "relay"@,
                Device::Home => "home"@,
                Device::Phone => "phone"@,
            },
    {
        match self {
            Device::Relay => "relay",
            Device::Home => "home",
            Device::Phone => "phone",
        }
    }
}

/// The firewall rules that drop outgoing UDP and keep DNS and TCP.
pub fn udp_filter() -> (rules: &'static str)
    ensures
        rules@
            == "table inet nat_lab {\n chain output {\n  type filter hook output priority 0; policy accept;\n  udp dport != 53 drop\n }\n}\n"@,
{
    "table inet nat_lab {\n chain output {\n  type filter hook output priority 0; policy accept;\n  udp dport != 53 drop\n }\n}\n"
}

/// The networks of a case with a relay.
pub open spec fn relay_networks(udp_blocked: bool) -> Seq<SetupStep> {
    let common = seq![
        SetupStep::AddRouter { router: Router::Dc, moderate_nat: false, ipv4_only: true },
        SetupStep::AddDevice { device: Device::Relay, uplink: Router::Dc },
        SetupStep::NameRelay { device: Device::Relay },
        SetupStep::AddRouter { router: Router::NatA, moderate_nat: true, ipv4_only: true },
        SetupStep::AddRouter { router: Router::NatB, moderate_nat: true, ipv4_only: true },
        SetupStep::AddDevice { device: Device::Home, uplink: Router::NatA },
        SetupStep::AddDevice { device: Device::Phone, uplink: Router::NatB },
    ];
    if udp_blocked {
        common.push(SetupStep::DropUdp { device: Device::Phone })
    } else {
        common
    }
}

/// The networks of a case without a relay.
pub open spec fn peer_networks() -> Seq<SetupStep> {
    seq![
        SetupStep::AddRouter { router: Router::NatA, moderate_nat: true, ipv4_only: true },
        SetupStep::AddRouter { router: Router::NatB, moderate_nat: true, ipv4_only: true },
        SetupStep::AddDevice { device: Device::Home, uplink: Router::NatA },
        SetupStep::AddDevice { device: Device::Phone, uplink: Router::NatB },
    ]
}

/// Lists the steps that build the networks of a case with a relay.
pub fn with_relay(udp_blocked: bool) -> (steps: Vec<SetupStep>)
    ensures
        steps@ == relay_networks(udp_blocked),
{
    let mut steps: Vec<SetupStep> = Vec::new();
    steps.push(SetupStep::AddRouter { router: Router::Dc, moderate_nat: false, ipv4_only: true });
    steps.push(SetupStep::AddDevice { device: Device::Relay, uplink: Router::Dc });
    steps.push(SetupStep::NameRelay { device: Device::Relay });
    steps.push(SetupStep::AddRouter { router: Router::NatA, moderate_nat: true, ipv4_only: true });
    steps.push(SetupStep::AddRouter { router: Router::NatB, moderate_nat: true, ipv4_only: true });
    steps.push(SetupStep::AddDevice { device: Device::Home, uplink: Router::NatA });
    steps.push(SetupStep::AddDevice { device: Device::Phone, uplink: Router::NatB });
    if udp_blocked {
        steps.push(SetupStep::DropUdp { device: Device::Phone });
    }
    steps
}

/// Lists the steps that build the networks of a case without a relay.
pub fn without_relay() -> (steps: Vec<SetupStep>)
    ensures
        steps@ == peer_networks(),
{
    let mut steps: Vec<SetupStep> = Vec::new();
    steps.push(SetupStep::AddRouter { router: Router::NatA, moderate_nat: true, ipv4_only: true });
    steps.push(SetupStep::AddRouter { router: Router::NatB, moderate_nat: true, ipv4_only: true });
    steps.push(SetupStep::AddDevice { device: Device::Home, uplink: Router::NatA });
    steps.push(SetupStep::AddDevice { device: Device::Phone, uplink: Router::NatB });
    steps
}

/// Whether a router, with a NAT or without, is added for IPv4 alone in a list of
/// steps.
pub open spec fn has_router(steps: Seq<SetupStep>, router: Router, moderate_nat: bool) -> bool {
    steps.contains(SetupStep::AddRouter { router, moderate_nat, ipv4_only: true })
}

/// Whether a device is added behind a router in a list of steps.
pub open spec fn has_device(steps: Seq<SetupStep>, device: Device, uplink: Router) -> bool {
    steps.contains(SetupStep::AddDevice { device, uplink })
}

/// Whether each step of a list only needs what earlier steps have added.
pub open spec fn buildable(steps: Seq<SetupStep>) -> bool {
    forall|i: int|
        0 <= i < steps.len() ==> match #[trigger] steps[i] {
            SetupStep::AddRouter { .. } => true,
            SetupStep::AddDevice { uplink, .. } => exists|moderate_nat: bool|
                has_router(steps.take(i), uplink, moderate_nat),
            SetupStep::NameRelay { device } => exists|uplink: Router|
                has_device(steps.take(i), device, uplink),
            SetupStep::DropUdp { device } => exists|uplink: Router|
                has_device(steps.take(i), device, uplink),
        }
}

/// Whether every router of a list forwards IPv4 alone.
pub open spec fn only_ipv4(steps: Seq<SetupStep>) -> bool {
    forall|i: int|
        0 <= i < steps.len() ==> (#[trigger] steps[i] matches SetupStep::AddRouter {
            ipv4_only,
            ..
        } ==> ipv4_only)
}

/// Whether the peers sit behind different routers, each with a NAT.
pub open spec fn peers_behind_separate_nats(steps: Seq<SetupStep>) -> bool {
    exists|a: Router, b: Router|
        a != b && #[trigger] has_device(steps, Device::Home, a) && #[trigger] has_device(
            steps,
            Device::Phone,
            b,
        ) && has_router(steps, a, true) && has_router(steps, b, true)
}

proof fn lemma_added(steps: Seq<SetupStep>, i: int, k: int)
    requires
        0 <= k < i <= steps.len(),
    ensures
        steps.take(i).contains(steps[k]),
        steps.contains(steps[k]),
{
    assert(steps.take(i)[k] == steps[k]);
}

/// In a case with a relay the networks can be built in the order given, no step
/// comes twice, every router forwards IPv4 alone, the peers sit behind separate
/// NATs and the relay behind none, and UDP is dropped exactly in the UDP control, on the dialer alone.
pub proof fn law_relay_networks(udp_blocked: bool)
    ensures
        buildable(relay_networks(udp_blocked)),
        relay_networks(udp_blocked).no_duplicates(),
        only_ipv4(relay_networks(udp_blocked)),
        peers_behind_separate_nats(relay_networks(udp_blocked)),
        has_device(relay_networks(udp_blocked), Device::Relay, Router::Dc),
        has_router(relay_networks(udp_blocked), Router::Dc, false),
        !has_router(relay_networks(udp_blocked), Router::Dc, true),
        forall|device: Device|
            relay_networks(udp_blocked).contains(SetupStep::DropUdp { device }) <==> udp_blocked
                && device == Device::Phone,
{
    let steps = relay_networks(udp_blocked);
    lemma_added(steps, 1, 0);
    lemma_added(steps, 2, 1);
    lemma_added(steps, 5, 3);
    lemma_added(steps, 6, 4);
    lemma_added(steps, 6, 5);
    lemma_added(steps, 7, 6);
    assert(has_router(steps.take(1), Router::Dc, false));
    assert(has_device(steps.take(2), Device::Relay, Router::Dc));
    assert(has_router(steps.take(5), Router::NatA, true));
    assert(has_router(steps.take(6), Router::NatB, true));
    assert(has_device(steps.take(7), Device::Phone, Router::NatB));
    assert(has_device(steps, Device::Home, Router::NatA));
    assert(has_device(steps, Device::Phone, Router::NatB));
    if udp_blocked {
        lemma_added(steps, 8, 7);
    }
    assert forall|device: Device|
        steps.contains(SetupStep::DropUdp { device }) <==> udp_blocked && device
            == Device::Phone by {
        if steps.contains(SetupStep::DropUdp { device }) {
            let i = choose|i: int|
                0 <= i < steps.len() && steps[i] == (SetupStep::DropUdp { device });
            assert(i == 7);
        }
    }
}

/// In a case without a relay the networks can be built in the order given, no
/// step comes twice, every router forwards IPv4 alone, the peers sit behind the
/// same separate NATs, and nothing else is there.
pub proof fn law_peer_networks()
    ensures
        buildable(peer_networks()),
        peer_networks().no_duplicates(),
        only_ipv4(peer_networks()),
        peers_behind_separate_nats(peer_networks()),
        has_device(peer_networks(), Device::Home, Router::NatA),
        has_router(peer_networks(), Router::NatA, true),
        forall|step: SetupStep|
            peer_networks().contains(step) ==> #[trigger] relay_networks(false).contains(step),
        forall|uplink: Router| !has_device(peer_networks(), Device::Relay, uplink),
{
    let steps = peer_networks();
    lemma_added(steps, 2, 0);
    lemma_added(steps, 3, 1);
    lemma_added(steps, 4, 2);
    lemma_added(steps, 4, 3);
    assert(has_router(steps.take(2), Router::NatA, true));
    assert(has_router(steps.take(3), Router::NatB, true));
    assert(has_device(steps, Device::Home, Router::NatA));
    assert(has_device(steps, Device::Phone, Router::NatB));
    let full = relay_networks(false);
    assert forall|step: SetupStep| steps.contains(step) implies #[trigger] full.contains(step) by {
        let i = choose|i: int| 0 <= i < steps.len() && steps[i] == step;
        assert(full[i + 3] == step);
    }
}

/// In a case with a relay one device is entered as the relay in the lab's DNS, the
/// one behind the router without a NAT, and before any peer is there.
pub proof fn law_relay_is_named(udp_blocked: bool, device: Device)
    ensures
        relay_networks(udp_blocked).contains(SetupStep::NameRelay { device }) <==> has_device(
            relay_networks(udp_blocked),
            device,
            Router::Dc,
        ),
        has_device(relay_networks(udp_blocked), device, Router::Dc) <==> device == Device::Relay,
        forall|i: int, j: int|
            0 <= i < relay_networks(udp_blocked).len() && 0 <= j < relay_networks(udp_blocked).len()
                && #[trigger] relay_networks(udp_blocked)[i] is NameRelay && (
            #[trigger] relay_networks(udp_blocked)[j] matches SetupStep::AddDevice { device, .. }
                && device != Device::Relay) ==> i < j,
{
    let steps = relay_networks(udp_blocked);
    if device == Device::Relay {
        lemma_added(steps, 2, 1);
        lemma_added(steps, 3, 2);
    }
    if steps.contains(SetupStep::NameRelay { device }) {
        let i = choose|i: int|
            0 <= i < steps.len() && steps[i] == (SetupStep::NameRelay { device });
        assert(i == 2);
    }
    if has_device(steps, device, Router::Dc) {
        let i = choose|i: int|
            0 <= i < steps.len() && steps[i] == (SetupStep::AddDevice {
                device,
                uplink: Router::Dc,
            });
        assert(i == 1);
    }
}

/// Each device has one uplink: the relay the open router, the server the first
/// NAT and the dialer the second, in every case that has the device.
pub proof fn law_devices_have_one_uplink(udp_blocked: bool, device: Device, uplink: Router)
    ensures
        has_device(relay_networks(udp_blocked), device, uplink) <==> ((device == Device::Relay
            && uplink == Router::Dc) || (device == Device::Home && uplink == Router::NatA) || (device
            == Device::Phone && uplink == Router::NatB)),
        has_device(peer_networks(), device, uplink) <==> ((device == Device::Home && uplink
            == Router::NatA) || (device == Device::Phone && uplink == Router::NatB)),
        has_router(relay_networks(udp_blocked), uplink, true) <==> uplink != Router::Dc,
        has_router(peer_networks(), uplink, true) <==> uplink != Router::Dc,
        !has_router(peer_networks(), uplink, false),
{
    let steps = relay_networks(udp_blocked);
    lemma_added(steps, 2, 1);
    lemma_added(steps, 4, 3);
    lemma_added(steps, 5, 4);
    lemma_added(steps, 6, 5);
    lemma_added(steps, 7, 6);
    let peers = peer_networks();
    lemma_added(peers, 1, 0);
    lemma_added(peers, 2, 1);
    lemma_added(peers, 3, 2);
    lemma_added(peers, 4, 3);
    let step = SetupStep::AddDevice { device, uplink };
    if steps.contains(step) {
        let i = choose|i: int| 0 <= i < steps.len() && steps[i] == step;
        assert(i == 1 || i == 5 || i == 6);
    }
    if peers.contains(step) {
        let i = choose|i: int| 0 <= i < peers.len() && peers[i] == step;
        assert(i == 2 || i == 3);
    }
    if has_router(steps, uplink, true) {
        let i = choose|i: int|
            0 <= i < steps.len() && steps[i] == (SetupStep::AddRouter {
                router: uplink,
                moderate_nat: true,
                ipv4_only: true,
            });
        assert(i == 3 || i == 4);
    }
}

} // verus!
