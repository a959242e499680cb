//! The server of a case with a relay.
//!
//! The server publishes its relay addresses, accepts one connection, and echoes
//! payloads on it until it is told to finish.

use vstd::prelude::*;

use crate::address;
use crate::address::Address;
#[allow(unused_imports)]
use crate::address::AddressModel;
use crate::case::RelayCase;
use crate::case::{SERVE_MS, SETUP_MS};

verus! {

/// A step of the server that needs the outside world.
#[derive(Clone, Copy, PartialEq, Eq, Structural, Debug)]
pub enum ServerStep {
    Bind,
    AwaitOnline,
    Accept,
    Serve,
}

/// Why the server gave up.
#[derive(Clone, Copy, PartialEq, Eq, Structural, Debug)]
pub enum ServerError {
    /// Something outside failed or took too long.
    Outside(ServerStep),
    /// Nobody waits for the server's addresses.
    AddressReceiverGone,
    /// The endpoint was closed before a connection came in.
    NoIncoming,
    /// A connection came in and its handshake failed.
    HandshakeFailed,
    /// A payload could not be echoed.
    EchoFailed,
    /// The dialer went away without saying that it is finished.
    FinishDropped,
}

impl ServerError {
    /// What is said of the failure, on top of what the outside reports.
    pub open spec fn text(self) -> Option<Seq<char>> {
        match self {
            ServerError::Outside(_) => None,
            ServerError::AddressReceiverGone => Some("address receiver gone"@),
            ServerError::NoIncoming => Some("incoming connection"@),
            ServerError::HandshakeFailed => Some("accept handshake"@),
            ServerError::EchoFailed => None,
            ServerError::FinishDropped => None,
        }
    }

    /// Says why the server gave up, where it knows more than the outside.
    pub fn message(&self) -> (message: Option<&'static str>)
        ensures
            match self.text() {
                Some(text) => message is Some && message->0@ == text,
                None => message is None,
            },
    {
        match self {
            ServerError::Outside(_) => None,
            ServerError::AddressReceiverGone => Some("address receiver gone"),
            ServerError::NoIncoming => Some("incoming connection"),
            ServerError::HandshakeFailed => Some("accept handshake"),
            ServerError::EchoFailed => None,
            ServerError::FinishDropped => None,
        }
    }
}

/// What happened to the server.
#[derive(Debug)]
pub enum ServerEvent {
    /// The endpoint is bound.
    Bound,
    /// The endpoint is online and knows its addresses.
    Online(Vec<Address>),
    /// The addresses were taken.
    Published,
    /// A connection is up.
    Accepted,
    /// The endpoint was closed before a connection came in.
    NoIncoming,
    /// The handshake of a connection failed.
    HandshakeFailed,
    /// A payload was echoed.
    Echoed,
    /// A payload could not be echoed.
    EchoFailed,
    /// The dialer said that it is finished.
    FinishReceived,
    /// The dialer went away without saying that it is finished.
    FinishDropped,
    /// The endpoint is closed.
    Closed,
    /// What was attempted failed or took too long.
    Failed,
}

/// What is known of an event.
pub enum ServerEventModel {
    Bound,
    Online(Seq<AddressModel>),
    Published,
    Accepted,
    NoIncoming,
    HandshakeFailed,
    Echoed,
    EchoFailed,
    FinishReceived,
    FinishDropped,
    Closed,
    Failed,
}

impl View for ServerEvent {
    type V = ServerEventModel;

    open spec fn view(&self) -> ServerEventModel {
        match self {
            ServerEvent::Bound => ServerEventModel::Bound,
            ServerEvent::Online(addresses) => ServerEventModel::Online(
                address::address_models(addresses@),
            ),
            ServerEvent::Published => ServerEventModel::Published,
            ServerEvent::Accepted => ServerEventModel::Accepted,
            ServerEvent::NoIncoming => ServerEventModel::NoIncoming,
            ServerEvent::HandshakeFailed => ServerEventModel::HandshakeFailed,
            ServerEvent::Echoed => ServerEventModel::Echoed,
            ServerEvent::EchoFailed => ServerEventModel::EchoFailed,
            ServerEvent::FinishReceived => ServerEventModel::FinishReceived,
            ServerEvent::FinishDropped => ServerEventModel::FinishDropped,
            ServerEvent::Closed => ServerEventModel::Closed,
            ServerEvent::Failed => ServerEventModel::Failed,
        }
    }
}

enum Phase {
    Binding,
    AwaitingOnline,
    Publishing(Vec<Address>),
    Accepting,
    Serving,
    Closing(Result<(), ServerError>),
    Stopped(Result<(), ServerError>),
}

/// How far the server is.
pub enum ServerPhase {
    Binding,
    AwaitingOnline,
    /// Publishing these addresses.
    Publishing(Seq<AddressModel>),
    Accepting,
    Serving,
    /// Closing the endpoint, to stop with this result.
    Closing(Result<(), ServerError>),
    Stopped(Result<(), ServerError>),
}

impl View for Phase {
    type V = ServerPhase;

    closed spec fn view(&self) -> ServerPhase {
        match self {
            Phase::Binding => ServerPhase::Binding,
            Phase::AwaitingOnline => ServerPhase::AwaitingOnline,
            Phase::Publishing(addresses) => ServerPhase::Publishing(
                address::address_models(addresses@),
            ),
            Phase::Accepting => ServerPhase::Accepting,
            Phase::Serving => ServerPhase::Serving,
            Phase::Closing(result) => ServerPhase::Closing(*result),
            Phase::Stopped(result) => ServerPhase::Stopped(*result),
        }
    }
}

/// What the server makes of a failure outside, or of a step that took too long.
/// A server that ran out of time stops without closing its endpoint.
pub open spec fn server_after_failure(phase: ServerPhase) -> ServerPhase {
    match phase {
        ServerPhase::Binding => ServerPhase::Stopped(Err(ServerError::Outside(ServerStep::Bind))),
        ServerPhase::AwaitingOnline => ServerPhase::Stopped(
            Err(ServerError::Outside(ServerStep::AwaitOnline)),
        ),
        ServerPhase::Publishing(_) => ServerPhase::Stopped(Err(ServerError::AddressReceiverGone)),
        ServerPhase::Accepting => ServerPhase::Stopped(
            Err(ServerError::Outside(ServerStep::Accept)),
        ),
        ServerPhase::Serving => ServerPhase::Stopped(Err(ServerError::Outside(ServerStep::Serve))),
        _ => phase,
    }
}

/// The phase of the server after an event. An event that is not an answer to
/// what the server is doing changes nothing.
pub open spec fn server_step(phase: ServerPhase, event: ServerEventModel) -> ServerPhase {
    match (phase, event) {
        (ServerPhase::Binding, ServerEventModel::Bound) => ServerPhase::AwaitingOnline,
        (
            ServerPhase::AwaitingOnline,
            ServerEventModel::Online(addresses),
        ) => ServerPhase::Publishing(address::relay_addresses(addresses)),
        (ServerPhase::Publishing(_), ServerEventModel::Published) => ServerPhase::Accepting,
        (ServerPhase::Accepting, ServerEventModel::Accepted) => ServerPhase::Serving,
        (ServerPhase::Accepting, ServerEventModel::NoIncoming) => ServerPhase::Stopped(
            Err(ServerError::NoIncoming),
        ),
        (ServerPhase::Accepting, ServerEventModel::HandshakeFailed) => ServerPhase::Stopped(
            Err(ServerError::HandshakeFailed),
        ),
        (ServerPhase::Serving, ServerEventModel::EchoFailed) => ServerPhase::Closing(
            Err(ServerError::EchoFailed),
        ),
        (ServerPhase::Serving, ServerEventModel::FinishReceived) => ServerPhase::Closing(Ok(())),
        (ServerPhase::Serving, ServerEventModel::FinishDropped) => ServerPhase::Closing(
            Err(ServerError::FinishDropped),
        ),
        (ServerPhase::Closing(result), ServerEventModel::Closed) => ServerPhase::Stopped(result),
        (phase, ServerEventModel::Failed) => server_after_failure(phase),
        (phase, _) => phase,
    }
}

/// What the program does next for the server.
#[derive(Clone, Copy, PartialEq, Eq, Structural, Debug)]
pub enum ServerAction {
    /// Bind an endpoint, with the lab's relay or without any, opting in to
    /// traversal or not.
    Bind { relay: bool, traversal: bool },
    /// Wait until the endpoint is online.
    AwaitOnline { within_ms: u64 },
    /// Hand the published addresses to the dialer.
    Publish,
    /// Accept a connection and complete its handshake.
    Accept { within_ms: u64 },
    /// Echo payloads until told to finish. The time is for all of them.
    Serve { within_ms: u64 },
    /// Close the endpoint.
    Close,
    /// Nothing is left to do.
    Stop,
}

/// What the server does in a phase.
pub open spec fn server_action(case: RelayCase, phase: ServerPhase) -> ServerAction {
    match phase {
        ServerPhase::Binding => ServerAction::Bind { relay: true, traversal: case.server },
        ServerPhase::AwaitingOnline => ServerAction::AwaitOnline { within_ms: SETUP_MS },
        ServerPhase::Publishing(_) => ServerAction::Publish,
        ServerPhase::Accepting => ServerAction::Accept { within_ms: SETUP_MS },
        ServerPhase::Serving => ServerAction::Serve { within_ms: SERVE_MS },
        ServerPhase::Closing(_) => ServerAction::Close,
        ServerPhase::Stopped(_) => ServerAction::Stop,
    }
}

/// The server of a case.
pub struct Server {
    case: RelayCase,
    phase: Phase,
}

impl Server {
    /// The case that the server runs.
    pub closed spec fn case(self) -> RelayCase {
        self.case
    }

    /// How far the server is.
    pub closed spec fn phase(self) -> ServerPhase {
        self.phase@
    }

    /// Starts the server of a case.
    pub fn start(case: RelayCase) -> (server: Server)
        ensures
            server.case() == case,
            server.phase() == ServerPhase::Binding,
    {
        Server { case, phase: Phase::Binding }
    }

    /// Tells what to do next.
    pub fn action(&self) -> (action: ServerAction)
        ensures
            action == server_action(self.case(), self.phase()),
    {
        match &self.phase {
            Phase::Binding => ServerAction::Bind { relay: true, traversal: self.case.server },
            Phase::AwaitingOnline => ServerAction::AwaitOnline { within_ms: SETUP_MS },
            Phase::Publishing(_) => ServerAction::Publish,
            Phase::Accepting => ServerAction::Accept { within_ms: SETUP_MS },
            Phase::Serving => ServerAction::Serve { within_ms: SERVE_MS },
            Phase::Closing(_) => ServerAction::Close,
            Phase::Stopped(_) => ServerAction::Stop,
        }
    }

    /// Gives the addresses to publish, while the server publishes them.
    pub fn published(&self) -> (addresses: Option<&Vec<Address>>)
        ensures
            match self.phase() {
                ServerPhase::Publishing(models) => addresses is Some && address::address_models(
                    addresses->0@,
                ) == models,
                _ => addresses is None,
            },
            addresses is Some <==> self.phase() is Publishing,
    {
        match &self.phase {
            Phase::Publishing(addresses) => Some(addresses),
            _ => None,
        }
    }

    /// Takes note of what happened.
    pub fn advance(self, event: ServerEvent) -> (server: Server)
        ensures
            server.case() == self.case(),
            server.phase() == server_step(self.phase(), event@),
    {
        let case = self.case;
        let phase = match (self.phase, event) {
            (Phase::Binding, ServerEvent::Bound) => Phase::AwaitingOnline,
            (Phase::AwaitingOnline, ServerEvent::Online(addresses)) => Phase::Publishing(
                address::relay_only(&addresses),
            ),
            (Phase::Publishing(_), ServerEvent::Published) => Phase::Accepting,
            (Phase::Accepting, ServerEvent::Accepted) => Phase::Serving,
            (Phase::Accepting, ServerEvent::NoIncoming) => Phase::Stopped(
                Err(ServerError::NoIncoming),
            ),
            (Phase::Accepting, ServerEvent::HandshakeFailed) => Phase::Stopped(
                Err(ServerError::HandshakeFailed),
            ),
            (Phase::Serving, ServerEvent::EchoFailed) => Phase::Closing(
                Err(ServerError::EchoFailed),
            ),
            (Phase::Serving, ServerEvent::FinishReceived) => Phase::Closing(Ok(())),
            (Phase::Serving, ServerEvent::FinishDropped) => Phase::Closing(
                Err(ServerError::FinishDropped),
            ),
            (Phase::Closing(result), ServerEvent::Closed) => Phase::Stopped(result),
            (phase, ServerEvent::Failed) => give_up(phase),
            (phase, _) => phase,
        };
        Server { case, phase }
    }

    /// Gives the end of the server, if it has come to one.
    pub fn outcome(&self) -> (outcome: Option<Result<(), ServerError>>)
        ensures
            outcome == match self.phase() {
                ServerPhase::Stopped(result) => Some(result),
                _ => None,
            },
            outcome is Some <==> self.phase() is Stopped,
            outcome matches Some(result) ==> self.phase() == ServerPhase::Stopped(result),
    {
        match &self.phase {
            Phase::Stopped(result) => Some(*result),
            _ => None,
        }
    }
}

fn give_up(phase: Phase) -> (next: Phase)
    ensures
        next@ == server_after_failure(phase@),
{
    match phase {
        Phase::Binding => Phase::Stopped(Err(ServerError::Outside(ServerStep::Bind))),
        Phase::AwaitingOnline => Phase::Stopped(Err(ServerError::Outside(ServerStep::AwaitOnline))),
        Phase::Publishing(_) => Phase::Stopped(Err(ServerError::AddressReceiverGone)),
        Phase::Accepting => Phase::Stopped(Err(ServerError::Outside(ServerStep::Accept))),
        Phase::Serving => Phase::Stopped(Err(ServerError::Outside(ServerStep::Serve))),
        phase => phase,
    }
}

/// Where the server stands after a series of events.
pub open spec fn server_run(events: Seq<ServerEventModel>) -> ServerPhase
    decreases events.len(),
{
    if events.len() == 0 {
        ServerPhase::Binding
    } else {
        server_step(server_run(events.drop_last()), events.last())
    }
}

/// Whether an event occurred.
pub open spec fn occurred(events: Seq<ServerEventModel>, event: ServerEventModel) -> bool {
    events.contains(event)
}

proof fn lemma_occurred_lasts(events: Seq<ServerEventModel>, event: ServerEventModel)
    requires
        events.len() > 0,
    ensures
        occurred(events.drop_last(), event) ==> occurred(events, event),
        events.last() == event ==> occurred(events, event),
{
    if occurred(events.drop_last(), event) {
        let i = choose|i: int| 0 <= i < events.len() - 1 && events.drop_last()[i] == event;
        assert(events[i] == event);
    }
    assert(events[events.len() - 1] == events.last());
}

/// What the past must look like for the server to stand where it stands.
spec fn accounted_for(events: Seq<ServerEventModel>, phase: ServerPhase) -> bool {
    &&& phase matches ServerPhase::Publishing(addresses) ==> exists|all: Seq<AddressModel>|
        addresses == #[trigger] address::relay_addresses(all)
    &&& (phase is Serving || phase is Closing || phase == ServerPhase::Stopped(Ok(())))
        ==> occurred(events, ServerEventModel::Accepted) && occurred(
        events,
        ServerEventModel::Published,
    )
    &&& (phase is Accepting) ==> occurred(events, ServerEventModel::Published)
    &&& (phase == ServerPhase::Closing(Ok(())) || phase == ServerPhase::Stopped(Ok(())))
        ==> occurred(events, ServerEventModel::FinishReceived)
    &&& (phase matches ServerPhase::Stopped(result) && (result is Ok || result == Err::<
        (),
        ServerError,
    >(ServerError::EchoFailed) || result == Err::<(), ServerError>(ServerError::FinishDropped)))
        ==> occurred(events, ServerEventModel::Closed)
    &&& phase matches ServerPhase::Closing(result) ==> (result is Ok || result == Err::<
        (),
        ServerError,
    >(ServerError::EchoFailed) || result == Err::<(), ServerError>(ServerError::FinishDropped))
}

proof fn lemma_accounted_for(events: Seq<ServerEventModel>)
    ensures
        accounted_for(events, server_run(events)),
    decreases events.len(),
{
    if events.len() > 0 {
        let past = events.drop_last();
        lemma_accounted_for(past);
        lemma_occurred_lasts(events, ServerEventModel::Accepted);
        lemma_occurred_lasts(events, ServerEventModel::Published);
        lemma_occurred_lasts(events, ServerEventModel::FinishReceived);
        lemma_occurred_lasts(events, ServerEventModel::Closed);
    }
}

/// The server only ever publishes relay addresses, and the dialer accepts what
/// it publishes.
pub proof fn law_published_addresses_are_relays(
    events: Seq<ServerEventModel>,
    addresses: Seq<AddressModel>,
)
    requires
        server_run(events) == ServerPhase::Publishing(addresses),
    ensures
        forall|i: int| 0 <= i < addresses.len() ==> (#[trigger] addresses[i]) is Relay,
        address::lacks_ip(addresses),
{
    lemma_accounted_for(events);
    let all = choose|all: Seq<AddressModel>| addresses == #[trigger] address::relay_addresses(all);
    address::law_bootstrap_is_relay_only(all);
}

/// The server ends well only if it published its addresses, accepted a
/// connection, was told to finish, and closed its endpoint.
pub proof fn law_server_ends_well_when_told(events: Seq<ServerEventModel>)
    requires
        server_run(events) == ServerPhase::Stopped(Ok(())),
    ensures
        occurred(events, ServerEventModel::Published),
        occurred(events, ServerEventModel::Accepted),
        occurred(events, ServerEventModel::FinishReceived),
        occurred(events, ServerEventModel::Closed),
{
    lemma_accounted_for(events);
}

/// A server whose echoing ended, well or badly, closed its endpoint before it
/// stopped. Only running out of time skips that.
pub proof fn law_serving_server_closes(
    events: Seq<ServerEventModel>,
    result: Result<(), ServerError>,
)
    requires
        server_run(events) == ServerPhase::Stopped(result),
        result is Ok || result == Err::<(), ServerError>(ServerError::EchoFailed) || result == Err::<
            (),
            ServerError,
        >(ServerError::FinishDropped),
    ensures
        occurred(events, ServerEventModel::Closed),
{
    lemma_accounted_for(events);
}

/// A serving server echoes any number of payloads.
pub proof fn law_server_keeps_echoing(events: Seq<ServerEventModel>, count: nat)
    requires
        server_run(events) is Serving,
    ensures
        server_run(events + Seq::new(count, |i: int| ServerEventModel::Echoed)) is Serving,
    decreases count,
{
    let echoes = Seq::new(count, |i: int| ServerEventModel::Echoed);
    if count == 0 {
        assert(events + echoes =~= events);
    } else {
        let fewer = Seq::new((count - 1) as nat, |i: int| ServerEventModel::Echoed);
        law_server_keeps_echoing(events, (count - 1) as nat);
        assert((events + echoes).drop_last() =~= events + fewer);
    }
}

/// A server to which nothing bad happens ends well, after any number of echoes.
pub proof fn law_smooth_server_ends_well(addresses: Seq<AddressModel>, count: nat)
    ensures
        server_run(
            seq![
                ServerEventModel::Bound,
                ServerEventModel::Online(addresses),
                ServerEventModel::Published,
                ServerEventModel::Accepted,
            ] + Seq::new(count, |i: int| ServerEventModel::Echoed) + seq![
                ServerEventModel::FinishReceived,
                ServerEventModel::Closed,
            ],
        ) == ServerPhase::Stopped(Ok(())),
{
    let opening = seq![
        ServerEventModel::Bound,
        ServerEventModel::Online(addresses),
        ServerEventModel::Published,
        ServerEventModel::Accepted,
    ];
    let echoes = Seq::new(count, |i: int| ServerEventModel::Echoed);
    let ending = seq![ServerEventModel::FinishReceived, ServerEventModel::Closed];
    assert(server_run(opening.take(0)) is Binding);
    assert(opening.take(1).drop_last() =~= opening.take(0));
    assert(server_run(opening.take(1)) is AwaitingOnline);
    assert(opening.take(2).drop_last() =~= opening.take(1));
    assert(server_run(opening.take(2)) is Publishing);
    assert(opening.take(3).drop_last() =~= opening.take(2));
    assert(server_run(opening.take(3)) is Accepting);
    assert(opening.drop_last() =~= opening.take(3));
    assert(server_run(opening) is Serving);
    law_server_keeps_echoing(opening, count);
    let events = opening + echoes + ending;
    assert(events.drop_last().drop_last() =~= opening + echoes);
    assert(server_run(events.drop_last()) == ServerPhase::Closing(Ok(())));
}

/// Whenever the server binds an endpoint, it does so with the relay, and opts in
/// to traversal by its own setting. The dialer's setting and the fate of UDP make
/// no difference to anything the server does.
pub proof fn law_server_binds_by_its_own_setting(
    case: RelayCase,
    other: RelayCase,
    phase: ServerPhase,
)
    ensures
        server_action(case, phase) matches ServerAction::Bind { relay, traversal } ==> relay
            && traversal == case.server,
        server_action(case, ServerPhase::Binding) is Bind,
        case.server == other.server ==> server_action(case, phase) == server_action(other, phase),
{
}

/// The server gives each step its time: thirty seconds to come online and to
/// accept, and eighty to all of its echoing.
pub proof fn law_server_deadlines(case: RelayCase, phase: ServerPhase)
    ensures
        server_action(case, phase) matches ServerAction::AwaitOnline { within_ms } ==> within_ms
            == 30_000,
        server_action(case, phase) matches ServerAction::Accept { within_ms } ==> within_ms
            == 30_000,
        server_action(case, phase) matches ServerAction::Serve { within_ms } ==> within_ms
            == 80_000,
{
}

/// An event moves the server exactly if it answers what the server is doing. An
/// echo that worked does not move it.
pub proof fn law_server_heeds_answers_alone(
    case: RelayCase,
    phase: ServerPhase,
    event: ServerEventModel,
)
    ensures
        server_step(phase, event) != phase <==> (match server_action(case, phase) {
            ServerAction::Bind { .. } => event is Bound || event is Failed,
            ServerAction::AwaitOnline { .. } => event is Online || event is Failed,
            ServerAction::Publish => event is Published || event is Failed,
            ServerAction::Accept { .. } => event is Accepted || event is NoIncoming
                || event is HandshakeFailed || event is Failed,
            ServerAction::Serve { .. } => event is EchoFailed || event is FinishReceived
                || event is FinishDropped || event is Failed,
            ServerAction::Close => event is Closed,
            ServerAction::Stop => false,
        }),
{
}

/// A server that moves and does not end moves one step down the line: bind, come
/// online, publish, accept, serve. It closes its endpoint exactly after serving,
/// unless it ran out of time.
pub proof fn law_server_goes_in_order(phase: ServerPhase, event: ServerEventModel)
    requires
        server_step(phase, event) != phase,
    ensures
        server_step(phase, event) is AwaitingOnline <==> phase is Binding && event is Bound,
        server_step(phase, event) is Publishing <==> phase is AwaitingOnline && event is Online,
        server_step(phase, event) is Accepting <==> phase is Publishing && event is Published,
        server_step(phase, event) is Serving <==> phase is Accepting && event is Accepted,
        server_step(phase, event) is Closing <==> phase is Serving && !(event is Failed),
        !(server_step(phase, event) is Binding),
{
}

/// The result with which a server stops, or will once its endpoint is closed.
pub open spec fn result_in(phase: ServerPhase) -> Option<Result<(), ServerError>> {
    match phase {
        ServerPhase::Closing(result) => Some(result),
        ServerPhase::Stopped(result) => Some(result),
        _ => None,
    }
}

/// A server ends well exactly if it was serving and was told to finish. Every
/// other end names what went wrong: the step at which something outside failed,
/// or what became of the addresses, the connection, the echo or the dialer.
pub proof fn law_server_ends_for_cause_alone(
    phase: ServerPhase,
    event: ServerEventModel,
    result: Result<(), ServerError>,
)
    requires
        result_in(phase) is None,
        result_in(server_step(phase, event)) == Some(result),
    ensures
        result is Ok <==> phase is Serving && event is FinishReceived,
        result == Err::<(), ServerError>(ServerError::Outside(ServerStep::Bind))
            <==> phase is Binding,
        result == Err::<(), ServerError>(ServerError::Outside(ServerStep::AwaitOnline))
            <==> phase is AwaitingOnline,
        result == Err::<(), ServerError>(ServerError::AddressReceiverGone) <==> phase is Publishing,
        result == Err::<(), ServerError>(ServerError::Outside(ServerStep::Accept))
            <==> phase is Accepting && event is Failed,
        result == Err::<(), ServerError>(ServerError::NoIncoming) <==> event is NoIncoming,
        result == Err::<(), ServerError>(ServerError::HandshakeFailed)
            <==> event is HandshakeFailed,
        result == Err::<(), ServerError>(ServerError::EchoFailed) <==> event is EchoFailed,
        result == Err::<(), ServerError>(ServerError::FinishDropped) <==> event is FinishDropped,
        result == Err::<(), ServerError>(ServerError::Outside(ServerStep::Serve))
            <==> phase is Serving && event is Failed,
{
}

/// The result of a server does not change once it is known, and a stopped server
/// stays stopped.
pub proof fn law_server_result_is_final(
    phase: ServerPhase,
    event: ServerEventModel,
    result: Result<(), ServerError>,
)
    requires
        result_in(phase) == Some(result),
    ensures
        result_in(server_step(phase, event)) == Some(result),
        phase is Stopped ==> server_step(phase, event) is Stopped,
        phase is Closing ==> (server_step(phase, event) is Stopped <==> event is Closed),
{
}

/// When the server comes online, it publishes every relay address that its
/// endpoint has, wherever it stands in the list, and nothing else.
pub proof fn law_server_publishes_every_relay(
    addresses: Seq<AddressModel>,
    address: AddressModel,
)
    ensures
        server_step(
            ServerPhase::AwaitingOnline,
            ServerEventModel::Online(addresses),
        ) matches ServerPhase::Publishing(published) && (published.contains(address)
            <==> addresses.contains(address) && address is Relay),
{
    address::law_kept_are_the_relays(addresses, address);
}

/// What the server publishes of two lists of addresses in a row is what it would
/// publish of the first, followed by what it would publish of the second. A relay
/// address alone is published as it is, and any other address alone gives nothing.
pub proof fn law_server_publishes_address_by_address(
    address: AddressModel,
    left: Seq<AddressModel>,
    right: Seq<AddressModel>,
)
    ensures
        server_step(ServerPhase::AwaitingOnline, ServerEventModel::Online(left + right))
            == ServerPhase::Publishing(
            server_step(
                ServerPhase::AwaitingOnline,
                ServerEventModel::Online(left),
            )->Publishing_0 + server_step(
                ServerPhase::AwaitingOnline,
                ServerEventModel::Online(right),
            )->Publishing_0,
        ),
        address is Relay ==> server_step(
            ServerPhase::AwaitingOnline,
            ServerEventModel::Online(seq![address]),
        ) == ServerPhase::Publishing(seq![address]),
        !(address is Relay) ==> server_step(
            ServerPhase::AwaitingOnline,
            ServerEventModel::Online(seq![address]),
        ) == ServerPhase::Publishing(Seq::empty()),
{
    address::law_relays_are_kept_one_by_one(address, left, right);
    if !(address is Relay) {
        assert(address::relay_addresses(seq![address]) =~= Seq::empty());
    }
}

/// Whether the server, while it waited to be online, heard of these addresses at
/// this point.
pub open spec fn came_online_at(
    events: Seq<ServerEventModel>,
    at: int,
    all: Seq<AddressModel>,
) -> bool {
    &&& 0 <= at < events.len()
    &&& server_run(events.take(at)) is AwaitingOnline
    &&& events[at] == ServerEventModel::Online(all)
}

/// Whenever the server is publishing, what it publishes are exactly the relay
/// addresses that its endpoint had when it came online.
pub proof fn law_published_are_the_endpoints_relays(
    events: Seq<ServerEventModel>,
    published: Seq<AddressModel>,
)
    requires
        server_run(events) == ServerPhase::Publishing(published),
    ensures
        exists|at: int, all: Seq<AddressModel>| #[trigger]
            came_online_at(events, at, all) && published == address::relay_addresses(all)
                && forall|address: AddressModel| #[trigger]
                published.contains(address) <==> all.contains(address) && address is Relay,
    decreases events.len(),
{
    if events.len() > 0 {
        let past = events.drop_last();
        let last = events.len() - 1;
        assert(events.take(last) =~= past);
        if server_run(past) is AwaitingOnline {
            let all = events.last()->Online_0;
            assert(came_online_at(events, last, all));
            assert forall|address: AddressModel| #[trigger]
                published.contains(address) <==> all.contains(address) && address is Relay by {
                address::law_kept_are_the_relays(all, address);
            }
        } else {
            law_published_are_the_endpoints_relays(past, published);
            let (at, all) = choose|at: int, all: Seq<AddressModel>| #[trigger]
                came_online_at(past, at, all) && published == address::relay_addresses(all)
                    && forall|address: AddressModel| #[trigger]
                    published.contains(address) <==> all.contains(address) && address is Relay;
            assert(events.take(at) =~= past.take(at));
            assert(came_online_at(events, at, all));
        }
    }
}

/// The model of an event keeps its kind, and the addresses that it brings.
pub proof fn law_server_events_are_kept_as_they_are(event: ServerEvent)
    ensures
        match event {
            ServerEvent::Bound => event@ is Bound,
            ServerEvent::Online(addresses) => event@ == ServerEventModel::Online(
                address::address_models(addresses@),
            ),
            ServerEvent::Published => event@ is Published,
            ServerEvent::Accepted => event@ is Accepted,
            ServerEvent::NoIncoming => event@ is NoIncoming,
            ServerEvent::HandshakeFailed => event@ is HandshakeFailed,
            ServerEvent::Echoed => event@ is Echoed,
            ServerEvent::EchoFailed => event@ is EchoFailed,
            ServerEvent::FinishReceived => event@ is FinishReceived,
            ServerEvent::FinishDropped => event@ is FinishDropped,
            ServerEvent::Closed => event@ is Closed,
            ServerEvent::Failed => event@ is Failed,
        },
{
}

/// The server adds words of its own to a failure exactly where the addresses were
/// not taken or no connection came about. Of the other failures the outside says
/// all there is to say.
pub proof fn law_server_speaks_of_its_own_failures(error: ServerError)
    ensures
        error.text() == (if error is AddressReceiverGone {
            Some("address receiver gone"@)
        } else if error is NoIncoming {
            Some("incoming connection"@)
        } else if error is HandshakeFailed {
            Some("accept handshake"@)
        } else {
            None
        }),
{
}

} // verus!
