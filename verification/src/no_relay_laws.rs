//! What each step of a case without a relay comes to, for its server, its dialer
//! and its conduct.

use vstd::prelude::*;

#[allow(unused_imports)]
use crate::endpoint::Socket;
#[allow(unused_imports)]
use crate::no_relay;
#[allow(unused_imports)]
use crate::no_relay::{
    DialerAction, DialerEvent, DialerPhase, HostAction, HostEvent, HostPhase, NoRelayAction,
    NoRelayError, NoRelayEvent, NoRelayPhase, PeerError, PeerStep,
};
#[allow(unused_imports)]
use crate::topology;
#[allow(unused_imports)]
use crate::topology::Router;

verus! {

/// The server gives its wait thirty seconds, and the dialer gives its attempt ten
/// and the wait for the address thirty.
pub proof fn law_no_relay_deadlines(enabled: bool, host: HostPhase, dialer: DialerPhase)
    ensures
        no_relay::host_action(enabled, host) matches HostAction::Wait { within_ms } ==> within_ms
            == 30_000,
        no_relay::dialer_action(enabled, dialer) matches DialerAction::AwaitAddress { within_ms }
            ==> within_ms == 30_000,
        no_relay::dialer_action(enabled, dialer) matches DialerAction::Dial { within_ms }
            ==> within_ms == 10_000,
{
}

/// The setting of a case makes no difference to its peers once they are bound, and
/// both begin by binding.
pub proof fn law_setting_matters_to_binding_alone(host: HostPhase, dialer: DialerPhase)
    ensures
        !(host is Binding) ==> no_relay::host_action(true, host) == no_relay::host_action(
            false,
            host,
        ),
        !(dialer is Binding) ==> no_relay::dialer_action(true, dialer) == no_relay::dialer_action(
            false,
            dialer,
        ),
        no_relay::host_action(true, HostPhase::Binding) is Bind,
        no_relay::host_action(false, HostPhase::Binding) is Bind,
        no_relay::dialer_action(true, DialerPhase::Binding) is Bind,
        no_relay::dialer_action(false, DialerPhase::Binding) is Bind,
{
}

/// An event moves the server exactly if it answers what the server is doing.
pub proof fn law_no_relay_host_heeds_answers_alone(
    wan: u32,
    enabled: bool,
    phase: HostPhase,
    event: HostEvent,
)
    ensures
        no_relay::host_step(wan, phase, event) != phase <==> (match no_relay::host_action(
            enabled,
            phase,
        ) {
            HostAction::Bind { .. } => event is Bound || event is Failed,
            HostAction::Publish(_) => event is Published || event is Failed,
            HostAction::Wait { .. } => event is Arrived || event is DialerDone || event is Failed,
            HostAction::Close => event is Closed,
            HostAction::Stop => false,
        }),
{
}

/// A bound server publishes the WAN address of its NAT with the port of its own
/// socket, for every address and every port. Without a socket it gives up.
pub proof fn law_no_relay_host_publishes_wan_and_own_port(wan: u32, enabled: bool, port: Option<u16>)
    ensures
        ({
            let next = no_relay::host_step(
                wan,
                HostPhase::Binding,
                HostEvent::Bound { port },
            );
            &&& port matches Some(own) ==> (no_relay::host_action(
                enabled,
                next,
            ) matches HostAction::Publish(socket) && socket.ip == wan && socket.port == own)
            &&& port is None ==> next == HostPhase::Stopped(Err(PeerError::NoSocket))
        }),
{
}

/// A published address is published as it is, whatever the WAN address is by then.
pub proof fn law_no_relay_host_publishes_what_it_holds(
    wan: u32,
    enabled: bool,
    socket: Socket,
    event: HostEvent,
)
    ensures
        no_relay::host_action(enabled, HostPhase::Publishing(socket)) == HostAction::Publish(socket),
        no_relay::host_step(wan, HostPhase::Publishing(socket), event) matches HostPhase::Publishing(
            kept,
        ) ==> kept == socket,
{
}

/// The server goes from binding over publishing to waiting, and closes its
/// endpoint exactly if its wait ended in time: as reached if a connection came in,
/// and as not reached if the dialer was done.
pub proof fn law_no_relay_host_goes_in_order(wan: u32, phase: HostPhase, event: HostEvent)
    requires
        no_relay::host_step(wan, phase, event) != phase,
    ensures
        no_relay::host_step(wan, phase, event) is Waiting <==> phase is Publishing
            && event is Published,
        no_relay::host_step(wan, phase, event) == (HostPhase::Closing { accepted: true })
            <==> phase is Waiting && event is Arrived,
        no_relay::host_step(wan, phase, event) == (HostPhase::Closing { accepted: false })
            <==> phase is Waiting && event is DialerDone,
        no_relay::host_step(wan, phase, event) is Publishing <==> (phase is Binding
            && (event matches HostEvent::Bound { port } && port is Some)),
        !(no_relay::host_step(wan, phase, event) is Binding),
{
}

/// How the server ends: well exactly if its endpoint closed after a wait in which
/// nothing came in, and else with what went wrong.
pub proof fn law_no_relay_host_ends_for_cause_alone(
    wan: u32,
    phase: HostPhase,
    event: HostEvent,
    result: Result<(), PeerError>,
)
    requires
        !(phase is Stopped),
        no_relay::host_step(wan, phase, event) == HostPhase::Stopped(result),
    ensures
        result is Ok <==> phase == (HostPhase::Closing { accepted: false }),
        result == Err::<(), PeerError>(PeerError::Unsolicited) <==> phase == (HostPhase::Closing {
            accepted: true,
        }),
        result == Err::<(), PeerError>(PeerError::NoSocket) <==> phase is Binding
            && event is Bound,
        result == Err::<(), PeerError>(PeerError::Outside(PeerStep::Bind)) <==> phase is Binding
            && event is Failed,
        result == Err::<(), PeerError>(PeerError::AddressReceiverGone) <==> phase is Publishing,
        result == Err::<(), PeerError>(PeerError::Outside(PeerStep::AwaitPeer))
            <==> phase is Waiting,
{
}

/// An event moves the dialer exactly if it answers what the dialer is doing. The
/// attempt to connect does not fail outside: a failed attempt is the good end.
pub proof fn law_no_relay_dialer_heeds_answers_alone(
    enabled: bool,
    phase: DialerPhase,
    event: DialerEvent,
)
    ensures
        no_relay::dialer_step(phase, event) != phase <==> (match no_relay::dialer_action(
            enabled,
            phase,
        ) {
            DialerAction::Bind { .. } => event is Bound || event is Failed,
            DialerAction::AwaitAddress { .. } => event is AddressReceived || event is Failed,
            DialerAction::Dial { .. } => event is Connected || event is NotConnected,
            DialerAction::Signal => event is Signalled,
            DialerAction::Close => event is Closed,
            DialerAction::Stop => false,
        }),
{
}

/// The dialer goes from binding over the address to its attempt, tells the server
/// when that is over, and closes. Whether it got through is settled by the attempt
/// and does not change afterwards.
pub proof fn law_no_relay_dialer_goes_in_order(phase: DialerPhase, event: DialerEvent, connected: bool)
    requires
        no_relay::dialer_step(phase, event) != phase,
    ensures
        no_relay::dialer_step(phase, event) is AwaitingAddress <==> phase is Binding
            && event is Bound,
        no_relay::dialer_step(phase, event) is Dialling <==> phase is AwaitingAddress
            && event is AddressReceived,
        no_relay::dialer_step(phase, event) == (DialerPhase::Signalling { connected })
            <==> phase is Dialling && (event is Connected <==> connected),
        no_relay::dialer_step(phase, event) == (DialerPhase::Closing { connected }) <==> phase == (
        DialerPhase::Signalling { connected }),
        !(no_relay::dialer_step(phase, event) is Binding),
{
}

/// How the dialer ends: well exactly if its endpoint closed after an attempt that
/// came to nothing, and else with what went wrong.
pub proof fn law_no_relay_dialer_ends_for_cause_alone(
    phase: DialerPhase,
    event: DialerEvent,
    result: Result<(), PeerError>,
)
    requires
        !(phase is Stopped),
        no_relay::dialer_step(phase, event) == DialerPhase::Stopped(result),
    ensures
        result is Ok <==> phase == (DialerPhase::Closing { connected: false }),
        result == Err::<(), PeerError>(PeerError::Connected) <==> phase == (DialerPhase::Closing {
            connected: true,
        }),
        result == Err::<(), PeerError>(PeerError::Outside(PeerStep::Bind)) <==> phase is Binding,
        result == Err::<(), PeerError>(PeerError::Outside(PeerStep::AwaitAddress))
            <==> phase is AwaitingAddress,
{
}

/// The WAN address that is asked for is that of the router in front of the
/// server's device, which has a NAT. The dialer's device is behind another. The
/// peers start with the address that was given.
pub proof fn law_wan_is_that_of_the_servers_nat(asking: NoRelayPhase, starting: NoRelayPhase)
    ensures
        no_relay::no_relay_action(asking) matches NoRelayAction::AskWan { router } ==> (
        no_relay::no_relay_action(starting) matches NoRelayAction::StartPeers {
            server,
            client,
            wan,
        } ==> topology::has_device(topology::peer_networks(), server, router)
            && topology::has_router(topology::peer_networks(), router, true)
            && !topology::has_device(topology::peer_networks(), client, router)
            && topology::has_device(topology::peer_networks(), client, Router::NatB) && starting
            == (NoRelayPhase::StartingPeers { wan })),
        no_relay::no_relay_action(NoRelayPhase::AskingWan) is AskWan,
{
    topology::law_devices_have_one_uplink(false, topology::Device::Home, Router::NatA);
    topology::law_devices_have_one_uplink(false, topology::Device::Phone, Router::NatA);
    topology::law_devices_have_one_uplink(false, topology::Device::Phone, Router::NatB);
}

/// An event moves a case exactly if it answers what the case is doing.
pub proof fn law_no_relay_case_heeds_answers_alone(phase: NoRelayPhase, event: NoRelayEvent)
    ensures
        no_relay::no_relay_step(phase, event) != phase <==> (match no_relay::no_relay_action(
            phase,
        ) {
            NoRelayAction::Build(_) => event is Built || event is Failed,
            NoRelayAction::AskWan { .. } => event is Wan,
            NoRelayAction::StartPeers { .. } => event is PeersStarted || event is Failed,
            NoRelayAction::Join => event is Joined,
            NoRelayAction::Release => false,
            NoRelayAction::Abandon => false,
        }),
{
}

/// A case goes from building over the WAN address to starting the peers and
/// waiting for them. Every WAN address is passed on as it is.
pub proof fn law_no_relay_case_goes_in_order(phase: NoRelayPhase, event: NoRelayEvent, wan: u32)
    requires
        no_relay::no_relay_step(phase, event) != phase,
        !(no_relay::no_relay_step(phase, event) is Failed),
    ensures
        phase is Building <==> no_relay::no_relay_step(phase, event) is Building
            || no_relay::no_relay_step(phase, event) is AskingWan,
        no_relay::no_relay_step(phase, event) == (NoRelayPhase::StartingPeers { wan })
            <==> phase is AskingWan && event == NoRelayEvent::Wan(Some(wan)),
        no_relay::no_relay_step(phase, event) is Joining <==> phase is StartingPeers,
        no_relay::no_relay_step(phase, event) is Done <==> phase is Joining && event == (
        NoRelayEvent::Joined { server_ok: true, client_ok: true }),
{
}

/// Building goes through the steps of the networks, none left out and none
/// repeated, and the WAN address is asked for only after the last.
pub proof fn law_no_relay_building_leaves_nothing_out(count: nat)
    requires
        count <= topology::peer_networks().len(),
    ensures
        count < topology::peer_networks().len() ==> no_relay::no_relay_action(
            no_relay::no_relay_run(Seq::new(count, |i: int| NoRelayEvent::Built)),
        ) == NoRelayAction::Build(topology::peer_networks()[count as int]),
        count == topology::peer_networks().len() ==> no_relay::no_relay_action(
            no_relay::no_relay_run(Seq::new(count, |i: int| NoRelayEvent::Built)),
        ) is AskWan,
        count < topology::peer_networks().len() ==> no_relay::no_relay_run(
            Seq::new(count, |i: int| NoRelayEvent::Built),
        ) == NoRelayPhase::Building(count as usize),
        topology::peer_networks().len() == 4,
    decreases count,
{
    if count > 0 {
        law_no_relay_building_leaves_nothing_out((count - 1) as nat);
        assert(Seq::new(count, |i: int| NoRelayEvent::Built).drop_last() =~= Seq::new(
            (count - 1) as nat,
            |i: int| NoRelayEvent::Built,
        ));
    }
}

/// A case fails for one of five causes and no other: the networks, a NAT without
/// an address on the outside, the start of the peers, the server, or the dialer
/// where the server did not fail.
pub proof fn law_no_relay_case_fails_for_cause_alone(
    phase: NoRelayPhase,
    event: NoRelayEvent,
    error: NoRelayError,
)
    requires
        !(phase is Failed),
        no_relay::no_relay_step(phase, event) == NoRelayPhase::Failed(error),
    ensures
        error is Build <==> phase is Building && event is Failed,
        error is NoWanAddress <==> phase is AskingWan && event == NoRelayEvent::Wan(None),
        error is StartPeers <==> phase is StartingPeers && event is Failed,
        error is Server <==> (phase is Joining && (event matches NoRelayEvent::Joined {
            server_ok,
            ..
        } && !server_ok)),
        error is Client <==> (phase is Joining && (event matches NoRelayEvent::Joined {
            server_ok,
            client_ok,
        } && server_ok && !client_ok)),
{
}

/// The lab is marked as good exactly if the case is done, and left alone exactly
/// if it failed.
pub proof fn law_no_relay_lab_is_released_when_done(phase: NoRelayPhase)
    ensures
        no_relay::no_relay_action(phase) is Release <==> phase is Done,
        no_relay::no_relay_action(phase) is Abandon <==> phase is Failed,
{
}

/// A peer has words of its own for every failure but those of a step outside, and
/// a case has none but for the missing WAN address.
pub proof fn law_no_relay_failures_are_spoken_of_once(peer: PeerError, error: NoRelayError)
    ensures
        peer.text() is None <==> peer is Outside,
        peer is NoSocket ==> peer.text() == Some("bound IPv4 socket"@),
        peer is AddressReceiverGone ==> peer.text() == Some("address receiver gone"@),
        peer is Unsolicited ==> peer.text() == Some(
            "unexpected unsolicited connection through NAT"@,
        ),
        peer is Connected ==> peer.text() == Some("unexpected connection without rendezvous"@),
        error.text() == (if error is NoWanAddress {
            Some("NAT has WAN address"@)
        } else {
            None
        }),
{
}

} // verus!
