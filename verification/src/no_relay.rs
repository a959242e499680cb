//! The cases without a relay. The dialer gets the server's identity, the WAN
//! address of the server's NAT and the server's own port. No mapping leads from
//! there to the server, so no connection may come about.

use vstd::prelude::*;

use crate::case::{OBSERVE_MS, SETUP_MS};
use crate::document::Document;
use crate::endpoint::{Missing, Socket};
use crate::report;
use crate::topology;
use crate::topology::{Device, Router, SetupStep};

verus! {

/// A step of a peer that needs the outside world.
#[derive(Clone, Copy, PartialEq, Eq, Structural, Debug)]
pub enum PeerStep {
    Bind,
    AwaitAddress,
    AwaitPeer,
}

/// Why a peer gave up.
#[derive(Clone, Copy, PartialEq, Eq, Structural, Debug)]
pub enum PeerError {
    /// Something outside failed or took too long.
    Outside(PeerStep),
    /// The server's endpoint has no socket.
    NoSocket,
    /// Nobody waits for the server's address.
    AddressReceiverGone,
    /// The server was reached through its NAT.
    Unsolicited,
    /// The dialer got through.
    Connected,
}

impl PeerError {
    /// What is said of the failure, where the outside does not say it.
    pub open spec fn text(self) -> Option<Seq<char>> {
        match self {
            PeerError::Outside(_) => None,
            PeerError::NoSocket => Some(Missing::BoundSocket.text()),
            PeerError::AddressReceiverGone => Some("address receiver gone"@),
            PeerError::Unsolicited => Some("unexpected unsolicited connection through NAT"@),
            PeerError::Connected => Some("unexpected connection without rendezvous"@),
        }
    }

    /// Says why the peer gave up, where the outside does not say it.
    pub fn message(&self) -> (message: Option<&'static str>)
        ensures
            match self.text() {
                Some(text) => message is Some && message->0@ == text,
                None => message is None,
            },
    {
        match self {
            PeerError::Outside(_) => None,
            PeerError::NoSocket => Some(Missing::BoundSocket.message()),
            PeerError::AddressReceiverGone => Some("address receiver gone"),
            PeerError::Unsolicited => Some("unexpected unsolicited connection through NAT"),
            PeerError::Connected => Some("unexpected connection without rendezvous"),
        }
    }
}

/// How far the server is.
#[derive(Clone, Copy, PartialEq, Eq, Debug)]
pub enum HostPhase {
    Binding,
    /// Publishing this address as its own.
    Publishing(Socket),
    /// Waiting for a connection, or for the dialer to be done.
    Waiting,
    /// Closing the endpoint, after a connection came in or not.
    Closing { accepted: bool },
    Stopped(Result<(), PeerError>),
}

/// What happened to the server.
#[derive(Clone, Copy, PartialEq, Eq, Structural, Debug)]
pub enum HostEvent {
    /// The endpoint is bound. The port of its first socket, if it has one.
    Bound { port: Option<u16> },
    /// The address was taken.
    Published,
    /// The endpoint stopped waiting for a connection: one came in.
    Arrived,
    /// The dialer is done, or gone.
    DialerDone,
    /// The endpoint is closed.
    Closed,
    /// What was attempted failed or took too long.
    Failed,
}

/// What the program does next for the server.
#[derive(Clone, Copy, PartialEq, Eq, Structural, Debug)]
pub enum HostAction {
    /// Bind an endpoint, with the lab's relay or without any, opting in to
    /// traversal or not.
    Bind { relay: bool, traversal: bool },
    /// Hand this address to the dialer.
    Publish(Socket),
    /// Wait for a connection, or for the dialer to be done.
    Wait { within_ms: u64 },
    /// Close the endpoint.
    Close,
    /// Nothing is left to do.
    Stop,
}

/// The phase of the server after an event, given the WAN address of its NAT. An
/// event that is not an answer to what the server is doing changes nothing. A
/// server that ran out of time stops without closing its endpoint.
pub open spec fn host_step(wan: u32, phase: HostPhase, event: HostEvent) -> HostPhase {
    match (phase, event) {
        (HostPhase::Binding, HostEvent::Bound { port: Some(port) }) => HostPhase::Publishing(
            Socket { ip: wan, port },
        ),
        (HostPhase::Binding, HostEvent::Bound { port: None }) => HostPhase::Stopped(
            Err(PeerError::NoSocket),
        ),
        (HostPhase::Binding, HostEvent::Failed) => HostPhase::Stopped(
            Err(PeerError::Outside(PeerStep::Bind)),
        ),
        (HostPhase::Publishing(_), HostEvent::Published) => HostPhase::Waiting,
        (HostPhase::Publishing(_), HostEvent::Failed) => HostPhase::Stopped(
            Err(PeerError::AddressReceiverGone),
        ),
        (HostPhase::Waiting, HostEvent::Arrived) => HostPhase::Closing { accepted: true },
        (HostPhase::Waiting, HostEvent::DialerDone) => HostPhase::Closing { accepted: false },
        (HostPhase::Waiting, HostEvent::Failed) => HostPhase::Stopped(
            Err(PeerError::Outside(PeerStep::AwaitPeer)),
        ),
        (HostPhase::Closing { accepted }, HostEvent::Closed) => HostPhase::Stopped(
            if accepted {
                Err(PeerError::Unsolicited)
            } else {
                Ok(())
            },
        ),
        _ => phase,
    }
}

/// What the server does in a phase.
pub open spec fn host_action(enabled: bool, phase: HostPhase) -> HostAction {
    match phase {
        HostPhase::Binding => HostAction::Bind { relay: false, traversal: enabled },
        HostPhase::Publishing(socket) => HostAction::Publish(socket),
        HostPhase::Waiting => HostAction::Wait { within_ms: SETUP_MS },
        HostPhase::Closing { .. } => HostAction::Close,
        HostPhase::Stopped(_) => HostAction::Stop,
    }
}

impl HostPhase {
    /// Tells what to do next.
    pub fn action(self, enabled: bool) -> (action: HostAction)
        ensures
            action == host_action(enabled, self),
    {
        match self {
            HostPhase::Binding => HostAction::Bind { relay: false, traversal: enabled },
            HostPhase::Publishing(socket) => HostAction::Publish(socket),
            HostPhase::Waiting => HostAction::Wait { within_ms: SETUP_MS },
            HostPhase::Closing { .. } => HostAction::Close,
            HostPhase::Stopped(_) => HostAction::Stop,
        }
    }

    /// Takes note of what happened.
    pub fn advance(self, wan: u32, event: HostEvent) -> (next: HostPhase)
        ensures
            next == host_step(wan, self, event),
    {
        match (self, event) {
            (HostPhase::Binding, HostEvent::Bound { port: Some(port) }) => HostPhase::Publishing(
                Socket { ip: wan, port },
            ),
            (HostPhase::Binding, HostEvent::Bound { port: None }) => HostPhase::Stopped(
                Err(PeerError::NoSocket),
            ),
            (HostPhase::Binding, HostEvent::Failed) => HostPhase::Stopped(
                Err(PeerError::Outside(PeerStep::Bind)),
            ),
            (HostPhase::Publishing(_), HostEvent::Published) => HostPhase::Waiting,
            (HostPhase::Publishing(_), HostEvent::Failed) => HostPhase::Stopped(
                Err(PeerError::AddressReceiverGone),
            ),
            (HostPhase::Waiting, HostEvent::Arrived) => HostPhase::Closing { accepted: true },
            (HostPhase::Waiting, HostEvent::DialerDone) => HostPhase::Closing { accepted: false },
            (HostPhase::Waiting, HostEvent::Failed) => HostPhase::Stopped(
                Err(PeerError::Outside(PeerStep::AwaitPeer)),
            ),
            (HostPhase::Closing { accepted }, HostEvent::Closed) => {
                if accepted {
                    HostPhase::Stopped(Err(PeerError::Unsolicited))
                } else {
                    HostPhase::Stopped(Ok(()))
                }
            },
            _ => self,
        }
    }
}

/// How far the dialer is.
#[derive(Clone, Copy, PartialEq, Eq, Debug)]
pub enum DialerPhase {
    Binding,
    AwaitingAddress,
    Dialling,
    /// Telling the server that it is done, after getting through or not.
    Signalling { connected: bool },
    /// Closing the endpoint, after getting through or not.
    Closing { connected: bool },
    Stopped(Result<(), PeerError>),
}

/// What happened to the dialer.
#[derive(Clone, Copy, PartialEq, Eq, Structural, Debug)]
pub enum DialerEvent {
    /// The endpoint is bound.
    Bound,
    /// The server's address arrived.
    AddressReceived,
    /// The attempt to connect succeeded in time.
    Connected,
    /// The attempt to connect failed, or took too long.
    NotConnected,
    /// The server was told, or is past listening.
    Signalled,
    /// The endpoint is closed.
    Closed,
    /// What was attempted failed or took too long.
    Failed,
}

/// What the program does next for the dialer.
#[derive(Clone, Copy, PartialEq, Eq, Structural, Debug)]
pub enum DialerAction {
    /// Bind an endpoint, with the lab's relay or without any, opting in to
    /// traversal or not.
    Bind { relay: bool, traversal: bool },
    /// Wait for the server's address.
    AwaitAddress { within_ms: u64 },
    /// Try to connect.
    Dial { within_ms: u64 },
    /// Tell the server that the attempt is over.
    Signal,
    /// Close the endpoint.
    Close,
    /// Nothing is left to do.
    Stop,
}

/// The phase of the dialer after an event. An event that is not an answer to
/// what the dialer is doing changes nothing.
pub open spec fn dialer_step(phase: DialerPhase, event: DialerEvent) -> DialerPhase {
    match (phase, event) {
        (DialerPhase::Binding, DialerEvent::Bound) => DialerPhase::AwaitingAddress,
        (DialerPhase::Binding, DialerEvent::Failed) => DialerPhase::Stopped(
            Err(PeerError::Outside(PeerStep::Bind)),
        ),
        (DialerPhase::AwaitingAddress, DialerEvent::AddressReceived) => DialerPhase::Dialling,
        (DialerPhase::AwaitingAddress, DialerEvent::Failed) => DialerPhase::Stopped(
            Err(PeerError::Outside(PeerStep::AwaitAddress)),
        ),
        (DialerPhase::Dialling, DialerEvent::Connected) => DialerPhase::Signalling {
            connected: true,
        },
        (DialerPhase::Dialling, DialerEvent::NotConnected) => DialerPhase::Signalling {
            connected: false,
        },
        (DialerPhase::Signalling { connected }, DialerEvent::Signalled) => DialerPhase::Closing {
            connected,
        },
        (DialerPhase::Closing { connected }, DialerEvent::Closed) => DialerPhase::Stopped(
            if connected {
                Err(PeerError::Connected)
            } else {
                Ok(())
            },
        ),
        _ => phase,
    }
}

/// What the dialer does in a phase.
pub open spec fn dialer_action(enabled: bool, phase: DialerPhase) -> DialerAction {
    match phase {
        DialerPhase::Binding => DialerAction::Bind { relay: false, traversal: enabled },
        DialerPhase::AwaitingAddress => DialerAction::AwaitAddress { within_ms: SETUP_MS },
        DialerPhase::Dialling => DialerAction::Dial { within_ms: OBSERVE_MS },
        DialerPhase::Signalling { .. } => DialerAction::Signal,
        DialerPhase::Closing { .. } => DialerAction::Close,
        DialerPhase::Stopped(_) => DialerAction::Stop,
    }
}

impl DialerPhase {
    /// Tells what to do next.
    pub fn action(self, enabled: bool) -> (action: DialerAction)
        ensures
            action == dialer_action(enabled, self),
    {
        match self {
            DialerPhase::Binding => DialerAction::Bind { relay: false, traversal: enabled },
            DialerPhase::AwaitingAddress => DialerAction::AwaitAddress { within_ms: SETUP_MS },
            DialerPhase::Dialling => DialerAction::Dial { within_ms: OBSERVE_MS },
            DialerPhase::Signalling { .. } => DialerAction::Signal,
            DialerPhase::Closing { .. } => DialerAction::Close,
            DialerPhase::Stopped(_) => DialerAction::Stop,
        }
    }

    /// Takes note of what happened.
    pub fn advance(self, event: DialerEvent) -> (next: DialerPhase)
        ensures
            next == dialer_step(self, event),
    {
        match (self, event) {
            (DialerPhase::Binding, DialerEvent::Bound) => DialerPhase::AwaitingAddress,
            (DialerPhase::Binding, DialerEvent::Failed) => DialerPhase::Stopped(
                Err(PeerError::Outside(PeerStep::Bind)),
            ),
            (DialerPhase::AwaitingAddress, DialerEvent::AddressReceived) => DialerPhase::Dialling,
            (DialerPhase::AwaitingAddress, DialerEvent::Failed) => DialerPhase::Stopped(
                Err(PeerError::Outside(PeerStep::AwaitAddress)),
            ),
            (DialerPhase::Dialling, DialerEvent::Connected) => DialerPhase::Signalling {
                connected: true,
            },
            (DialerPhase::Dialling, DialerEvent::NotConnected) => DialerPhase::Signalling {
                connected: false,
            },
            (DialerPhase::Signalling { connected }, DialerEvent::Signalled) => {
                DialerPhase::Closing { connected }
            },
            (DialerPhase::Closing { connected }, DialerEvent::Closed) => {
                if connected {
                    DialerPhase::Stopped(Err(PeerError::Connected))
                } else {
                    DialerPhase::Stopped(Ok(()))
                }
            },
            _ => self,
        }
    }
}

/// Why a case without a relay failed.
#[derive(Clone, Copy, PartialEq, Eq, Structural, Debug)]
pub enum NoRelayError {
    /// The networks could not be built.
    Build,
    /// The server's NAT has no address on the outside.
    NoWanAddress,
    /// The peers could not be started.
    StartPeers,
    /// The server failed.
    Server,
    /// The server did not fail, and the dialer did.
    Client,
}

impl NoRelayError {
    /// What is said of the failure, where nobody else says it.
    pub open spec fn text(self) -> Option<Seq<char>> {
        match self {
            NoRelayError::NoWanAddress => Some(Missing::WanAddress.text()),
            _ => None,
        }
    }

    /// Says why the case failed, where nobody else says it.
    pub fn message(&self) -> (message: Option<&'static str>)
        ensures
            match self.text() {
                Some(text) => message is Some && message->0@ == text,
                None => message is None,
            },
    {
        match self {
            NoRelayError::NoWanAddress => Some(Missing::WanAddress.message()),
            _ => None,
        }
    }
}

/// How far a case without a relay is.
#[derive(Clone, Copy, PartialEq, Eq, Structural, Debug)]
pub enum NoRelayPhase {
    /// Building the networks, at this step.
    Building(usize),
    /// Asking for the WAN address of the server's NAT.
    AskingWan,
    /// Starting the peers, with the WAN address of the server's NAT.
    StartingPeers { wan: u32 },
    Joining,
    Done,
    Failed(NoRelayError),
}

/// What happened in a case without a relay.
#[derive(Clone, Copy, PartialEq, Eq, Structural, Debug)]
pub enum NoRelayEvent {
    /// A step of building the networks is done.
    Built,
    /// The WAN address of the server's NAT, if it has one.
    Wan(Option<u32>),
    /// Both peers are running.
    PeersStarted,
    /// Both peers ended, each well or not.
    Joined { server_ok: bool, client_ok: bool },
    /// What was attempted failed.
    Failed,
}

/// What the program does next for a case without a relay.
#[derive(Clone, Copy, PartialEq, Eq, Structural, Debug)]
pub enum NoRelayAction {
    /// Perform a step of building the networks.
    Build(SetupStep),
    /// Ask for the WAN address of the server's NAT, which is on this router.
    AskWan { router: Router },
    /// Start both peers on these devices, with the WAN address of the server's
    /// NAT.
    StartPeers { server: Device, client: Device, wan: u32 },
    /// Wait for both peers to end.
    Join,
    /// Mark the lab as good and take it down.
    Release,
    /// Leave the lab as it is.
    Abandon,
}

/// The phase of a case without a relay after an event. An event that is not an
/// answer to what the case is doing changes nothing.
pub open spec fn no_relay_step(phase: NoRelayPhase, event: NoRelayEvent) -> NoRelayPhase {
    match (phase, event) {
        (NoRelayPhase::Building(at), NoRelayEvent::Built) => if at + 1
            < topology::peer_networks().len() {
            NoRelayPhase::Building((at + 1) as usize)
        } else {
            NoRelayPhase::AskingWan
        },
        (NoRelayPhase::Building(_), NoRelayEvent::Failed) => NoRelayPhase::Failed(
            NoRelayError::Build,
        ),
        (NoRelayPhase::AskingWan, NoRelayEvent::Wan(Some(wan))) => NoRelayPhase::StartingPeers {
            wan,
        },
        (NoRelayPhase::AskingWan, NoRelayEvent::Wan(None)) => NoRelayPhase::Failed(
            NoRelayError::NoWanAddress,
        ),
        (NoRelayPhase::StartingPeers { .. }, NoRelayEvent::PeersStarted) => NoRelayPhase::Joining,
        (NoRelayPhase::StartingPeers { .. }, NoRelayEvent::Failed) => NoRelayPhase::Failed(
            NoRelayError::StartPeers,
        ),
        (NoRelayPhase::Joining, NoRelayEvent::Joined { server_ok, client_ok }) => if !server_ok {
            NoRelayPhase::Failed(NoRelayError::Server)
        } else if !client_ok {
            NoRelayPhase::Failed(NoRelayError::Client)
        } else {
            NoRelayPhase::Done
        },
        _ => phase,
    }
}

/// What the program does in a phase of a case without a relay.
pub open spec fn no_relay_action(phase: NoRelayPhase) -> NoRelayAction {
    match phase {
        NoRelayPhase::Building(at) => NoRelayAction::Build(topology::peer_networks()[at as int]),
        NoRelayPhase::AskingWan => NoRelayAction::AskWan { router: Router::NatA },
        NoRelayPhase::StartingPeers { wan } => NoRelayAction::StartPeers {
            server: Device::Home,
            client: Device::Phone,
            wan,
        },
        NoRelayPhase::Joining => NoRelayAction::Join,
        NoRelayPhase::Done => NoRelayAction::Release,
        NoRelayPhase::Failed(_) => NoRelayAction::Abandon,
    }
}

/// The conduct of a case without a relay.
pub struct NoRelayCase {
    enabled: bool,
    phase: NoRelayPhase,
}

impl NoRelayCase {
    /// A case that is still building has a step to perform.
    #[verifier::type_invariant]
    spec fn in_range(self) -> bool {
        self.phase matches NoRelayPhase::Building(at) ==> at < topology::peer_networks().len()
    }

    /// Whether the peers opt in to traversal.
    pub closed spec fn enabled(self) -> bool {
        self.enabled
    }

    /// How far the case is.
    pub closed spec fn phase(self) -> NoRelayPhase {
        self.phase
    }

    /// Starts a case.
    pub fn start(enabled: bool) -> (case: NoRelayCase)
        ensures
            case.enabled() == enabled,
            case.phase() == NoRelayPhase::Building(0),
    {
        NoRelayCase { enabled, phase: NoRelayPhase::Building(0) }
    }

    /// Tells what to do next.
    pub fn action(&self) -> (action: NoRelayAction)
        ensures
            action == no_relay_action(self.phase()),
    {
        proof {
            use_type_invariant(self);
        }
        match self.phase {
            NoRelayPhase::Building(at) => NoRelayAction::Build(topology::without_relay()[at]),
            NoRelayPhase::AskingWan => NoRelayAction::AskWan { router: Router::NatA },
            NoRelayPhase::StartingPeers { wan } => NoRelayAction::StartPeers {
                server: Device::Home,
                client: Device::Phone,
                wan,
            },
            NoRelayPhase::Joining => NoRelayAction::Join,
            NoRelayPhase::Done => NoRelayAction::Release,
            NoRelayPhase::Failed(_) => NoRelayAction::Abandon,
        }
    }

    /// Takes note of what happened.
    pub fn advance(self, event: NoRelayEvent) -> (case: NoRelayCase)
        ensures
            case.enabled() == self.enabled(),
            case.phase() == no_relay_step(self.phase(), event),
    {
        proof {
            use_type_invariant(&self);
        }
        let phase = match (self.phase, event) {
            (NoRelayPhase::Building(at), NoRelayEvent::Built) => {
                if at + 1 < topology::without_relay().len() {
                    NoRelayPhase::Building(at + 1)
                } else {
                    NoRelayPhase::AskingWan
                }
            },
            (NoRelayPhase::Building(_), NoRelayEvent::Failed) => NoRelayPhase::Failed(
                NoRelayError::Build,
            ),
            (NoRelayPhase::AskingWan, NoRelayEvent::Wan(Some(wan))) => {
                NoRelayPhase::StartingPeers { wan }
            },
            (NoRelayPhase::AskingWan, NoRelayEvent::Wan(None)) => NoRelayPhase::Failed(
                NoRelayError::NoWanAddress,
            ),
            (NoRelayPhase::StartingPeers { .. }, NoRelayEvent::PeersStarted) => {
                NoRelayPhase::Joining
            },
            (NoRelayPhase::StartingPeers { .. }, NoRelayEvent::Failed) => NoRelayPhase::Failed(
                NoRelayError::StartPeers,
            ),
            (NoRelayPhase::Joining, NoRelayEvent::Joined { server_ok, client_ok }) => {
                if !server_ok {
                    NoRelayPhase::Failed(NoRelayError::Server)
                } else if !client_ok {
                    NoRelayPhase::Failed(NoRelayError::Client)
                } else {
                    NoRelayPhase::Done
                }
            },
            (phase, _) => phase,
        };
        NoRelayCase { enabled: self.enabled, phase }
    }

    /// Gives the end of the case, if it has come to one: its document, or why
    /// there is none.
    pub fn outcome(&self) -> (outcome: Option<Result<Document, NoRelayError>>)
        ensures
            match self.phase() {
                NoRelayPhase::Done => outcome matches Some(Ok(document)) && document@
                    == report::no_relay_fields(self.enabled()),
                NoRelayPhase::Failed(error) => outcome matches Some(Err(found)) && found == error,
                _ => outcome is None,
            },
            outcome is Some <==> self.phase() is Done || self.phase() is Failed,
            outcome matches Some(Ok(_)) ==> self.phase() is Done,
            outcome matches Some(Err(error)) ==> self.phase() == NoRelayPhase::Failed(error),
    {
        match self.phase {
            NoRelayPhase::Done => Some(Ok(report::no_relay_document(self.enabled))),
            NoRelayPhase::Failed(error) => Some(Err(error)),
            _ => None,
        }
    }
}

/// Where the server stands after a series of events.
pub open spec fn host_run(wan: u32, events: Seq<HostEvent>) -> HostPhase
    decreases events.len(),
{
    if events.len() == 0 {
        HostPhase::Binding
    } else {
        host_step(wan, host_run(wan, events.drop_last()), events.last())
    }
}

/// Where the dialer stands after a series of events.
pub open spec fn dialer_run(events: Seq<DialerEvent>) -> DialerPhase
    decreases events.len(),
{
    if events.len() == 0 {
        DialerPhase::Binding
    } else {
        dialer_step(dialer_run(events.drop_last()), events.last())
    }
}

/// Where a case without a relay stands after a series of events.
pub open spec fn no_relay_run(events: Seq<NoRelayEvent>) -> NoRelayPhase
    decreases events.len(),
{
    if events.len() == 0 {
        NoRelayPhase::Building(0)
    } else {
        no_relay_step(no_relay_run(events.drop_last()), events.last())
    }
}

proof fn lemma_contains_lasts<E>(events: Seq<E>)
    requires
        events.len() > 0,
    ensures
        forall|e: E| #[trigger]
            events.drop_last().contains(e) ==> events.contains(e),
        events.contains(events.last()),
{
    assert forall|e: E| #[trigger] events.drop_last().contains(e) implies events.contains(e) by {
        let i = choose|i: int| 0 <= i < events.len() - 1 && events.drop_last()[i] == e;
        assert(events[i] == e);
    }
    assert(events[events.len() - 1] == events.last());
}

/// Whether the server, while it waited for a connection, met this event at this
/// point.
pub open spec fn wait_ended_by(wan: u32, events: Seq<HostEvent>, i: int, event: HostEvent) -> bool {
    0 <= i < events.len() && host_run(wan, events.take(i)) is Waiting && events[i] == event
}

/// Whether the dialer, while it tried to connect, met this event at this point.
pub open spec fn dial_ended_by(events: Seq<DialerEvent>, i: int, event: DialerEvent) -> bool {
    0 <= i < events.len() && dialer_run(events.take(i)) is Dialling && events[i] == event
}

spec fn host_accounted_for(wan: u32, events: Seq<HostEvent>, phase: HostPhase) -> bool {
    &&& phase matches HostPhase::Publishing(socket) ==> socket.ip == wan && events.contains(
        HostEvent::Bound { port: Some(socket.port) },
    )
    &&& (phase == HostPhase::Closing { accepted: false } || phase == HostPhase::Stopped(Ok(())))
        ==> exists|i: int| wait_ended_by(wan, events, i, HostEvent::DialerDone)
    &&& (phase == HostPhase::Closing { accepted: true } || phase == HostPhase::Stopped(
        Err(PeerError::Unsolicited),
    )) ==> exists|i: int| wait_ended_by(wan, events, i, HostEvent::Arrived)
    &&& (phase == HostPhase::Stopped(Ok(())) || phase == HostPhase::Stopped(
        Err(PeerError::Unsolicited),
    )) ==> events.contains(HostEvent::Closed)
}

proof fn lemma_host_accounted_for(wan: u32, events: Seq<HostEvent>)
    ensures
        host_accounted_for(wan, events, host_run(wan, events)),
    decreases events.len(),
{
    if events.len() > 0 {
        let past = events.drop_last();
        let last = events.len() - 1;
        lemma_host_accounted_for(wan, past);
        lemma_contains_lasts(events);
        assert(events.take(last) =~= past);
        assert forall|i: int, event: HostEvent| #[trigger]
            wait_ended_by(wan, past, i, event) implies wait_ended_by(wan, events, i, event) by {
            assert(past.take(i) =~= events.take(i));
        }
        if host_run(wan, past) is Waiting {
            assert(wait_ended_by(wan, events, last, events.last()));
        }
    }
}

spec fn dialer_accounted_for(events: Seq<DialerEvent>, phase: DialerPhase) -> bool {
    &&& (phase == DialerPhase::Signalling { connected: false } || phase == DialerPhase::Closing {
        connected: false,
    } || phase == DialerPhase::Stopped(Ok(()))) ==> exists|i: int|
        dial_ended_by(events, i, DialerEvent::NotConnected)
    &&& (phase == DialerPhase::Signalling { connected: true } || phase == DialerPhase::Closing {
        connected: true,
    } || phase == DialerPhase::Stopped(Err(PeerError::Connected))) ==> exists|i: int|
        dial_ended_by(events, i, DialerEvent::Connected)
    &&& (phase is Closing || phase == DialerPhase::Stopped(Ok(())) || phase
        == DialerPhase::Stopped(Err(PeerError::Connected))) ==> events.contains(
        DialerEvent::Signalled,
    )
}

proof fn lemma_dialer_accounted_for(events: Seq<DialerEvent>)
    ensures
        dialer_accounted_for(events, dialer_run(events)),
    decreases events.len(),
{
    if events.len() > 0 {
        let past = events.drop_last();
        let last = events.len() - 1;
        lemma_dialer_accounted_for(past);
        lemma_contains_lasts(events);
        assert(events.take(last) =~= past);
        assert forall|i: int, event: DialerEvent| #[trigger]
            dial_ended_by(past, i, event) implies dial_ended_by(events, i, event) by {
            assert(past.take(i) =~= events.take(i));
        }
        if dialer_run(past) is Dialling {
            assert(dial_ended_by(events, last, events.last()));
        }
    }
}

/// The address that the server publishes is the WAN address of its NAT with the
/// port of its own socket.
pub proof fn law_hint_is_wan_address(wan: u32, events: Seq<HostEvent>, socket: Socket)
    requires
        host_run(wan, events) == HostPhase::Publishing(socket),
    ensures
        socket.ip == wan,
        events.contains(HostEvent::Bound { port: Some(socket.port) }),
{
    lemma_host_accounted_for(wan, events);
}

/// The server ends well only if its wait ended with the dialer being done, and
/// fails as reached only if its wait ended with a connection. Either way it
/// closed its endpoint first.
pub proof fn law_host_ends_well_alone(wan: u32, events: Seq<HostEvent>)
    ensures
        host_run(wan, events) == HostPhase::Stopped(Ok(())) ==> events.contains(HostEvent::Closed)
            && exists|i: int| wait_ended_by(wan, events, i, HostEvent::DialerDone),
        host_run(wan, events) == HostPhase::Stopped(Err(PeerError::Unsolicited))
            ==> events.contains(HostEvent::Closed) && exists|i: int|
            wait_ended_by(wan, events, i, HostEvent::Arrived),
{
    lemma_host_accounted_for(wan, events);
}

/// Once the server's wait is over, closing the endpoint decides: the server ends
/// well if nothing came in, and fails if something did.
pub proof fn law_closing_decides_for_the_host(wan: u32, events: Seq<HostEvent>)
    ensures
        host_run(wan, events) == (HostPhase::Closing { accepted: false }) ==> host_run(
            wan,
            events.push(HostEvent::Closed),
        ) == HostPhase::Stopped(Ok(())),
        host_run(wan, events) == (HostPhase::Closing { accepted: true }) ==> host_run(
            wan,
            events.push(HostEvent::Closed),
        ) == HostPhase::Stopped(Err(PeerError::Unsolicited)),
{
    assert(events.push(HostEvent::Closed).drop_last() =~= events);
}

/// The dialer ends well only if its attempt to connect came to nothing, and
/// fails as connected only if it got through. Either way it told the server of
/// the end of the attempt.
pub proof fn law_dialer_ends_well_unconnected(events: Seq<DialerEvent>)
    ensures
        dialer_run(events) == DialerPhase::Stopped(Ok(())) ==> events.contains(
            DialerEvent::Signalled,
        ) && exists|i: int| dial_ended_by(events, i, DialerEvent::NotConnected),
        dialer_run(events) == DialerPhase::Stopped(Err(PeerError::Connected)) ==> events.contains(
            DialerEvent::Signalled,
        ) && exists|i: int| dial_ended_by(events, i, DialerEvent::Connected),
{
    lemma_dialer_accounted_for(events);
}

/// A case without a relay ends well only if both peers did: the server without
/// a connection, and the dialer without one.
pub proof fn law_no_relay_case_ends_well(events: Seq<NoRelayEvent>)
    requires
        no_relay_run(events) is Done,
    ensures
        events.contains(NoRelayEvent::Joined { server_ok: true, client_ok: true }),
    decreases events.len(),
{
    if events.len() > 0 {
        lemma_contains_lasts(events);
        if no_relay_run(events.drop_last()) is Done {
            law_no_relay_case_ends_well(events.drop_last());
        }
    }
}

/// Whether a case counts a peer as ended well only if it did.
pub open spec fn counts_only_good_ends(
    wan: u32,
    events: Seq<NoRelayEvent>,
    hosted: Seq<HostEvent>,
    dialled: Seq<DialerEvent>,
) -> bool {
    forall|i: int|
        0 <= i < events.len() ==> (#[trigger] events[i] matches NoRelayEvent::Joined {
            server_ok,
            client_ok,
        } ==> (server_ok ==> host_run(wan, hosted) == HostPhase::Stopped(Ok(()))) && (client_ok
            ==> dialer_run(dialled) == DialerPhase::Stopped(Ok(()))))
}

/// Without a relay no connection comes about in a case that ends well: the
/// dialer's attempt to connect came to nothing, and the server's wait ended with
/// the dialer being done and nothing coming in.
pub proof fn law_no_connection_without_relay(
    wan: u32,
    events: Seq<NoRelayEvent>,
    hosted: Seq<HostEvent>,
    dialled: Seq<DialerEvent>,
)
    requires
        counts_only_good_ends(wan, events, hosted, dialled),
        no_relay_run(events) is Done,
    ensures
        exists|i: int| dial_ended_by(dialled, i, DialerEvent::NotConnected),
        exists|j: int| wait_ended_by(wan, hosted, j, HostEvent::DialerDone),
{
    law_no_relay_case_ends_well(events);
    let joined = NoRelayEvent::Joined { server_ok: true, client_ok: true };
    let i = choose|i: int| 0 <= i < events.len() && events[i] == joined;
    assert(events[i] == joined);
    law_host_ends_well_alone(wan, hosted);
    law_dialer_ends_well_unconnected(dialled);
}

/// The peers are started with the address that was given as the WAN address of
/// the server's NAT.
pub proof fn law_peers_get_the_wan_address(events: Seq<NoRelayEvent>, wan: u32)
    requires
        no_relay_run(events) == (NoRelayPhase::StartingPeers { wan }),
    ensures
        events.contains(NoRelayEvent::Wan(Some(wan))),
    decreases events.len(),
{
    if events.len() > 0 {
        lemma_contains_lasts(events);
        if no_relay_run(events.drop_last()) is StartingPeers {
            law_peers_get_the_wan_address(events.drop_last(), wan);
        }
    }
}

/// Neither peer of a case without a relay ever asks for an endpoint with one,
/// and both opt in to traversal alike.
pub proof fn law_peers_bind_without_relay(
    enabled: bool,
    host: HostPhase,
    dialer: DialerPhase,
)
    ensures
        host_action(enabled, host) matches HostAction::Bind { relay, traversal } ==> !relay
            && traversal == enabled,
        dialer_action(enabled, dialer) matches DialerAction::Bind { relay, traversal } ==> !relay
            && traversal == enabled,
{
}

/// While a case without a relay is building, there is a step to perform.
pub proof fn law_no_relay_building_has_a_step(events: Seq<NoRelayEvent>)
    ensures
        no_relay_run(events) matches NoRelayPhase::Building(at) ==> at
            < topology::peer_networks().len(),
    decreases events.len(),
{
    if events.len() > 0 {
        law_no_relay_building_has_a_step(events.drop_last());
    }
}

/// A case without a relay, with any WAN address, in which the peers end well,
/// ends well.
pub proof fn law_smooth_no_relay_case_ends_well(wan: u32)
    ensures
        no_relay_run(
            seq![
                NoRelayEvent::Built,
                NoRelayEvent::Built,
                NoRelayEvent::Built,
                NoRelayEvent::Built,
                NoRelayEvent::Wan(Some(wan)),
                NoRelayEvent::PeersStarted,
                NoRelayEvent::Joined { server_ok: true, client_ok: true },
            ],
        ) is Done,
{
    let events = seq![
        NoRelayEvent::Built,
        NoRelayEvent::Built,
        NoRelayEvent::Built,
        NoRelayEvent::Built,
        NoRelayEvent::Wan(Some(wan)),
        NoRelayEvent::PeersStarted,
        NoRelayEvent::Joined { server_ok: true, client_ok: true },
    ];
    assert(no_relay_run(events.take(0)) == NoRelayPhase::Building(0));
    assert(events.take(1).drop_last() =~= events.take(0));
    assert(no_relay_run(events.take(1)) == NoRelayPhase::Building(1));
    assert(events.take(2).drop_last() =~= events.take(1));
    assert(no_relay_run(events.take(2)) == NoRelayPhase::Building(2));
    assert(events.take(3).drop_last() =~= events.take(2));
    assert(no_relay_run(events.take(3)) == NoRelayPhase::Building(3));
    assert(events.take(4).drop_last() =~= events.take(3));
    assert(no_relay_run(events.take(4)) == NoRelayPhase::AskingWan);
    assert(events.take(5).drop_last() =~= events.take(4));
    assert(no_relay_run(events.take(5)) == NoRelayPhase::StartingPeers { wan });
    assert(events.take(6).drop_last() =~= events.take(5));
    assert(no_relay_run(events.take(6)) == NoRelayPhase::Joining);
    assert(events.drop_last() =~= events.take(6));
}

} // verus!
