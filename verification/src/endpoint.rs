//! How the endpoints of a case are set up.

use vstd::prelude::*;

use crate::relay;
use crate::relay::RelayEntry;
#[allow(unused_imports)]
use crate::relay::RelayEntryModel;

verus! {

/// The protocol that both peers speak.
pub fn alpn() -> (name: &'static str)
    ensures
        name@ == "zakura/nat-lab/1"@,
{
    "zakura/nat-lab/1"
}

/// Something that the lab needs and did not get.
#[derive(Clone, Copy, PartialEq, Eq, Structural, Debug)]
pub enum Missing {
    /// The relay's device has no IPv4 address.
    RelayAddress,
    /// A peer's device has no IPv4 address.
    DeviceAddress,
    /// The server's NAT has no address on the outside.
    WanAddress,
    /// The server's endpoint has no bound socket.
    BoundSocket,
    /// The firewall tool has no standard input.
    FilterInput,
    /// The firewall tool did not accept the rules.
    FilterInstalled,
    /// The program of the relay is not named.
    RelayProgram,
    /// The relay's process has no standard output.
    RelayOutput,
}

impl Missing {
    /// What is said of a missing thing.
    pub open spec fn text(self) -> Seq<char> {
        match self {
            Missing::RelayAddress => "relay IPv4"@,
            Missing::DeviceAddress => "device has IPv4"@,
            Missing::WanAddress => "NAT has WAN address"@,
            Missing::BoundSocket => "bound IPv4 socket"@,
            Missing::FilterInput => "piped nft stdin"@,
            Missing::FilterInstalled => "install isolated UDP filter"@,
            Missing::RelayProgram =>
                "set ZAKURA_NAT_RELAY to the absolute path of the relay helper"@,
            Missing::RelayOutput => "relay stdout"@,
        }
    }

    /// Says what is missing.
    pub fn message(&self) -> (message: &'static str)
        ensures
            message@ == self.text(),
    {
        match self {
            Missing::RelayAddress => "relay IPv4",
            Missing::DeviceAddress => "device has IPv4",
            Missing::WanAddress => "NAT has WAN address",
            Missing::BoundSocket => "bound IPv4 socket",
            Missing::FilterInput => "piped nft stdin",
            Missing::FilterInstalled => "install isolated UDP filter",
            Missing::RelayProgram => "set ZAKURA_NAT_RELAY to the absolute path of the relay helper",
            Missing::RelayOutput => "relay stdout",
        }
    }
}

/// An IPv4 socket address.
#[derive(Clone, Copy, PartialEq, Eq, Structural, Debug)]
pub struct Socket {
    /// The address as a number, first octet highest.
    pub ip: u32,
    pub port: u16,
}

/// How an endpoint is set up. Besides what is named here, the endpoint is
/// configured as in production.
#[derive(Clone, Copy, PartialEq, Eq, Debug)]
pub struct EndpointPlan {
    /// Whether the endpoint opts in to traversal.
    pub nat_traversal: bool,
    /// The one relay that the endpoint uses. Without it no relay is used.
    pub relay: Option<RelayEntry>,
    /// Whether the endpoint checks the certificate of a relay.
    pub check_certificates: bool,
    /// The socket to bind. An explicit IPv4 socket keeps IPv6 from bypassing
    /// the NAT.
    pub bind: Socket,
    /// The protocol that the endpoint accepts.
    pub alpn: &'static str,
}

/// What a plan says.
pub struct EndpointModel {
    pub nat_traversal: bool,
    pub relay: Option<RelayEntryModel>,
    pub check_certificates: bool,
    pub bind: Socket,
    pub alpn: Seq<char>,
}

impl View for EndpointPlan {
    type V = EndpointModel;

    open spec fn view(&self) -> EndpointModel {
        EndpointModel {
            nat_traversal: self.nat_traversal,
            relay: match self.relay {
                Some(entry) => Some(entry@),
                None => None,
            },
            check_certificates: self.check_certificates,
            bind: self.bind,
            alpn: self.alpn@,
        }
    }
}

/// Whether the endpoints check the certificate of a relay. The lab's relay signs
/// its own, so they do not.
pub fn checks_certificates() -> (checks: bool)
    ensures
        !checks,
{
    false
}

/// The plan of an endpoint on a device with this IPv4 address, if it has one,
/// with the lab's relay or without any.
pub open spec fn planned(ip: Option<u32>, relay: bool, enabled: bool) -> Result<
    EndpointModel,
    Missing,
> {
    match ip {
        Some(ip) => Ok(
            EndpointModel {
                nat_traversal: enabled,
                relay: if relay {
                    Some(relay::entry_with(Some(relay::QUIC_PORT)))
                } else {
                    None
                },
                check_certificates: false,
                bind: Socket { ip, port: 0 },
                alpn: "zakura/nat-lab/1"@,
            },
        ),
        None => Err(Missing::DeviceAddress),
    }
}

/// Plans an endpoint on a device, given the device's IPv4 address if it has
/// one, with the lab's relay or without any. The port is left to the system.
pub fn endpoint(ip: Option<u32>, relay: bool, enabled: bool) -> (plan: Result<
    EndpointPlan,
    Missing,
>)
    ensures
        match planned(ip, relay, enabled) {
            Ok(model) => plan matches Ok(found) && found@ == model,
            Err(missing) => plan matches Err(found) && found == missing,
        },
{
    match ip {
        Some(ip) => Ok(
            EndpointPlan {
                nat_traversal: enabled,
                relay: if relay {
                    Some(relay::lab_relay())
                } else {
                    None
                },
                check_certificates: checks_certificates(),
                bind: Socket { ip, port: 0 },
                alpn: alpn(),
            },
        ),
        None => Err(Missing::DeviceAddress),
    }
}

/// Opting in to traversal changes nothing else of an endpoint: on the same
/// device, relay, certificate check, socket and protocol stay the same, and
/// planning fails with one setting exactly if it fails with the other.
pub proof fn law_traversal_changes_nothing_else(ip: Option<u32>, relay: bool)
    ensures
        match (planned(ip, relay, false), planned(ip, relay, true)) {
            (Ok(off), Ok(on)) => {
                &&& !off.nat_traversal
                &&& on.nat_traversal
                &&& on.relay == off.relay
                &&& on.check_certificates == off.check_certificates
                &&& on.bind == off.bind
                &&& on.alpn == off.alpn
            },
            (Err(off), Err(on)) => on == off,
            _ => false,
        },
{
}

/// A plan's model keeps all that the plan says.
pub proof fn law_plan_is_kept_as_it_is(plan: EndpointPlan)
    ensures
        plan@.nat_traversal == plan.nat_traversal,
        plan@.relay is Some <==> plan.relay is Some,
        plan.relay is Some ==> plan@.relay->0.url == plan.relay->0.url@ && plan@.relay->0.quic_port
            == plan.relay->0.quic_port,
        plan@.check_certificates == plan.check_certificates,
        plan@.bind == plan.bind,
        plan@.alpn == plan.alpn@,
{
}

/// An endpoint can be planned exactly on a device that has an IPv4 address, and
/// binds that very address, with the port left to the system.
pub proof fn law_plan_binds_the_devices_own_address(ip: Option<u32>, relay: bool, enabled: bool)
    ensures
        planned(ip, relay, enabled) is Ok <==> ip is Some,
        planned(ip, relay, enabled) matches Ok(plan) ==> Some(plan.bind.ip) == ip && plan.bind.port
            == 0,
        planned(ip, relay, enabled) matches Err(missing) ==> missing is DeviceAddress,
{
}

/// Devices with different addresses never bind the same socket, whatever else is
/// set.
pub proof fn law_devices_bind_apart(
    a: u32,
    b: u32,
    relay_a: bool,
    relay_b: bool,
    enabled_a: bool,
    enabled_b: bool,
)
    requires
        a != b,
    ensures
        planned(Some(a), relay_a, enabled_a) matches Ok(one) && (planned(
            Some(b),
            relay_b,
            enabled_b,
        ) matches Ok(other) && one.bind != other.bind),
{
}

/// An endpoint opts in to traversal exactly if asked to, whatever the device and
/// with a relay or without.
pub proof fn law_plan_opts_in_as_asked(ip: u32, relay: bool, enabled: bool)
    ensures
        planned(Some(ip), relay, enabled) matches Ok(plan) && plan.nat_traversal == enabled,
{
}

/// An endpoint knows one relay or none. The one is the lab's, under its own host
/// name and with its port for address discovery, the same on every device, and no
/// public relay is ever among them.
pub proof fn law_plan_knows_the_lab_relay_alone(ip: u32, relay: bool, enabled: bool)
    ensures
        planned(Some(ip), relay, enabled) matches Ok(plan) && (plan.relay is Some <==> relay) && (
        plan.relay matches Some(entry) ==> entry.url == "https://relay.test"@ && entry.quic_port
            == Some(7842u16)),
{
}

/// All endpoints speak the same protocol and accept the certificate that the
/// lab's relay signs itself.
pub proof fn law_plans_speak_alike(ip: u32, relay: bool, enabled: bool)
    ensures
        planned(Some(ip), relay, enabled) matches Ok(plan) && plan.alpn == "zakura/nat-lab/1"@
            && !plan.check_certificates,
{
}

} // verus!
