//! The conduct of a case with a relay: build the networks, start the relay and
//! the peers, cut the relay when the dialer asks for it, and collect results.

use vstd::prelude::*;
use vstd::string::*;

use crate::case::RelayCase;
use crate::case::{CUT_MS, SETUP_MS};
use crate::relay;
use crate::report::Report;
#[allow(unused_imports)]
use crate::report::ReportModel;
use crate::text;
use crate::topology;
#[allow(unused_imports)]
use crate::topology::Router;
use crate::topology::{Device, SetupStep};

verus! {

/// A part of the conduct that needs the outside world.
#[derive(Clone, Copy, PartialEq, Eq, Structural, Debug)]
pub enum ConductStep {
    Build,
    StartRelay,
    StartPeers,
    AwaitCut,
    KillRelay,
    ReapRelay,
    RemoveRelay,
}

/// Why a case failed.
#[derive(Debug)]
pub enum CaseError {
    /// Something outside failed or took too long.
    Outside(ConductStep),
    /// The relay's first line is not the one that says it is up.
    RelayNotReady { line: String },
    /// Nobody waits to hear that the relay is gone.
    AcknowledgmentReceiverGone,
    /// The server failed.
    Server,
    /// The server did not fail, and the dialer did.
    Client,
}

/// What is known of a failure.
pub enum CaseErrorModel {
    Outside(ConductStep),
    RelayNotReady { line: Seq<char> },
    AcknowledgmentReceiverGone,
    Server,
    Client,
}

impl View for CaseError {
    type V = CaseErrorModel;

    open spec fn view(&self) -> CaseErrorModel {
        match self {
            CaseError::Outside(step) => CaseErrorModel::Outside(*step),
            CaseError::RelayNotReady { line } => CaseErrorModel::RelayNotReady { line: line@ },
            CaseError::AcknowledgmentReceiverGone => CaseErrorModel::AcknowledgmentReceiverGone,
            CaseError::Server => CaseErrorModel::Server,
            CaseError::Client => CaseErrorModel::Client,
        }
    }
}

impl CaseErrorModel {
    /// What is said of the failure, where nobody else says it.
    pub open spec fn text(self) -> Option<Seq<char>> {
        match self {
            CaseErrorModel::Outside(_) => None,
            CaseErrorModel::RelayNotReady { line } => Some("relay failed to start: "@ + line),
            CaseErrorModel::AcknowledgmentReceiverGone => Some(
                "cut acknowledgment receiver gone"@,
            ),
            CaseErrorModel::Server => None,
            CaseErrorModel::Client => None,
        }
    }
}

impl CaseError {
    /// Says why the case failed, where nobody else says it.
    pub fn message(&self) -> (message: Option<String>)
        ensures
            text::optional_view(message) == self@.text(),
    {
        match self {
            CaseError::Outside(_) => None,
            CaseError::RelayNotReady { line } => {
                let mut message = String::from_str("relay failed to start: ");
                message.append(line.as_str());
                Some(message)
            },
            CaseError::AcknowledgmentReceiverGone => Some(
                String::from_str("cut acknowledgment receiver gone"),
            ),
            CaseError::Server => None,
            CaseError::Client => None,
        }
    }
}

/// What happened in a case.
#[derive(Debug)]
pub enum CaseEvent {
    /// A step of building the networks is done.
    Built,
    /// The relay printed its first line.
    RelayLine(String),
    /// Both peers are running.
    PeersStarted,
    /// The dialer asks for the relay to be cut.
    CutRequested,
    /// The relay was told to end.
    RelayKilled,
    /// The relay's process is gone.
    RelayReaped,
    /// The relay's device is gone.
    RelayRemoved,
    /// The dialer has heard that the relay is gone.
    Acknowledged,
    /// Both peers ended: whether the server ended well, and the dialer's report
    /// if it has one.
    Joined { server_ok: bool, report: Option<Report> },
    /// What was attempted failed or took too long.
    Failed,
}

/// What is known of an event.
pub enum CaseEventModel {
    Built,
    RelayLine(Seq<char>),
    PeersStarted,
    CutRequested,
    RelayKilled,
    RelayReaped,
    RelayRemoved,
    Acknowledged,
    Joined { server_ok: bool, report: Option<ReportModel> },
    Failed,
}

impl View for CaseEvent {
    type V = CaseEventModel;

    open spec fn view(&self) -> CaseEventModel {
        match self {
            CaseEvent::Built => CaseEventModel::Built,
            CaseEvent::RelayLine(line) => CaseEventModel::RelayLine(line@),
            CaseEvent::PeersStarted => CaseEventModel::PeersStarted,
            CaseEvent::CutRequested => CaseEventModel::CutRequested,
            CaseEvent::RelayKilled => CaseEventModel::RelayKilled,
            CaseEvent::RelayReaped => CaseEventModel::RelayReaped,
            CaseEvent::RelayRemoved => CaseEventModel::RelayRemoved,
            CaseEvent::Acknowledged => CaseEventModel::Acknowledged,
            CaseEvent::Joined { server_ok, report } => CaseEventModel::Joined {
                server_ok: *server_ok,
                report: match report {
                    Some(report) => Some(report@),
                    None => None,
                },
            },
            CaseEvent::Failed => CaseEventModel::Failed,
        }
    }
}

enum Phase {
    Building(usize),
    StartingRelay,
    StartingPeers,
    AwaitingCut,
    KillingRelay,
    ReapingRelay,
    RemovingRelay,
    Acknowledging,
    Joining,
    Done(Report),
    Failed(CaseError),
}

/// How far a case is.
pub enum CasePhase {
    /// Building the networks, at this step.
    Building(nat),
    StartingRelay,
    StartingPeers,
    AwaitingCut,
    KillingRelay,
    ReapingRelay,
    RemovingRelay,
    Acknowledging,
    Joining,
    Done(ReportModel),
    Failed(CaseErrorModel),
}

impl View for Phase {
    type V = CasePhase;

    closed spec fn view(&self) -> CasePhase {
        match self {
            Phase::Building(at) => CasePhase::Building(*at as nat),
            Phase::StartingRelay => CasePhase::StartingRelay,
            Phase::StartingPeers => CasePhase::StartingPeers,
            Phase::AwaitingCut => CasePhase::AwaitingCut,
            Phase::KillingRelay => CasePhase::KillingRelay,
            Phase::ReapingRelay => CasePhase::ReapingRelay,
            Phase::RemovingRelay => CasePhase::RemovingRelay,
            Phase::Acknowledging => CasePhase::Acknowledging,
            Phase::Joining => CasePhase::Joining,
            Phase::Done(report) => CasePhase::Done(report@),
            Phase::Failed(error) => CasePhase::Failed(error@),
        }
    }
}

/// What the case makes of the relay's first line.
pub open spec fn after_line(line: Seq<char>) -> CasePhase {
    if relay::says_ready(line) {
        CasePhase::StartingPeers
    } else {
        CasePhase::Failed(CaseErrorModel::RelayNotReady { line })
    }
}

/// What the case makes of the peers' results. A failure of the server comes
/// first.
pub open spec fn after_join(server_ok: bool, report: Option<ReportModel>) -> CasePhase {
    if !server_ok {
        CasePhase::Failed(CaseErrorModel::Server)
    } else {
        match report {
            Some(report) => CasePhase::Done(report),
            None => CasePhase::Failed(CaseErrorModel::Client),
        }
    }
}

/// What the case makes of a failure outside.
pub open spec fn case_after_failure(phase: CasePhase) -> CasePhase {
    match phase {
        CasePhase::Building(_) => CasePhase::Failed(CaseErrorModel::Outside(ConductStep::Build)),
        CasePhase::StartingRelay => CasePhase::Failed(
            CaseErrorModel::Outside(ConductStep::StartRelay),
        ),
        CasePhase::StartingPeers => CasePhase::Failed(
            CaseErrorModel::Outside(ConductStep::StartPeers),
        ),
        CasePhase::AwaitingCut => CasePhase::Failed(CaseErrorModel::Outside(ConductStep::AwaitCut)),
        CasePhase::KillingRelay => CasePhase::Failed(
            CaseErrorModel::Outside(ConductStep::KillRelay),
        ),
        CasePhase::ReapingRelay => CasePhase::Failed(
            CaseErrorModel::Outside(ConductStep::ReapRelay),
        ),
        CasePhase::RemovingRelay => CasePhase::Failed(
            CaseErrorModel::Outside(ConductStep::RemoveRelay),
        ),
        CasePhase::Acknowledging => CasePhase::Failed(CaseErrorModel::AcknowledgmentReceiverGone),
        _ => phase,
    }
}

/// The phase of a case after an event. An event that is not an answer to what
/// the case is doing changes nothing.
pub open spec fn case_step(case: RelayCase, phase: CasePhase, event: CaseEventModel) -> CasePhase {
    match (phase, event) {
        (
            CasePhase::Building(at),
            CaseEventModel::Built,
        ) => if at + 1 < topology::relay_networks(case.udp_blocked).len() {
            CasePhase::Building(at + 1)
        } else {
            CasePhase::StartingRelay
        },
        (CasePhase::StartingRelay, CaseEventModel::RelayLine(line)) => after_line(line),
        (CasePhase::StartingPeers, CaseEventModel::PeersStarted) => CasePhase::AwaitingCut,
        (CasePhase::AwaitingCut, CaseEventModel::CutRequested) => CasePhase::KillingRelay,
        (CasePhase::KillingRelay, CaseEventModel::RelayKilled) => CasePhase::ReapingRelay,
        (CasePhase::ReapingRelay, CaseEventModel::RelayReaped) => CasePhase::RemovingRelay,
        (CasePhase::RemovingRelay, CaseEventModel::RelayRemoved) => CasePhase::Acknowledging,
        (CasePhase::Acknowledging, CaseEventModel::Acknowledged) => CasePhase::Joining,
        (CasePhase::Joining, CaseEventModel::Joined { server_ok, report }) => after_join(
            server_ok,
            report,
        ),
        (phase, CaseEventModel::Failed) => case_after_failure(phase),
        (phase, _) => phase,
    }
}

/// What the program does next for a case.
#[derive(Clone, Copy, PartialEq, Eq, Structural, Debug)]
pub enum CaseAction {
    /// Perform a step of building the networks.
    Build(SetupStep),
    /// Start the relay on this device and read its first line. The time is for
    /// the line.
    StartRelay { device: Device, within_ms: u64 },
    /// Start both peers on these devices.
    StartPeers { server: Device, client: Device },
    /// Wait for the dialer to ask for the cut.
    AwaitCut { within_ms: u64 },
    /// Tell the relay's process to end.
    KillRelay,
    /// Wait for the relay's process to end.
    ReapRelay { within_ms: u64 },
    /// Remove the relay's device, this one.
    RemoveRelay { device: Device },
    /// Tell the dialer that the relay is gone.
    Acknowledge,
    /// Wait for both peers to end.
    Join,
    /// Mark the lab as good and take it down.
    Release,
    /// Leave the lab as it is.
    Abandon,
}

/// What the program does in a phase of a case.
pub open spec fn case_action(case: RelayCase, phase: CasePhase) -> CaseAction {
    match phase {
        CasePhase::Building(at) => CaseAction::Build(
            topology::relay_networks(case.udp_blocked)[at as int],
        ),
        CasePhase::StartingRelay => CaseAction::StartRelay {
            device: Device::Relay,
            within_ms: SETUP_MS,
        },
        CasePhase::StartingPeers => CaseAction::StartPeers {
            server: Device::Home,
            client: Device::Phone,
        },
        CasePhase::AwaitingCut => CaseAction::AwaitCut { within_ms: CUT_MS },
        CasePhase::KillingRelay => CaseAction::KillRelay,
        CasePhase::ReapingRelay => CaseAction::ReapRelay { within_ms: SETUP_MS },
        CasePhase::RemovingRelay => CaseAction::RemoveRelay { device: Device::Relay },
        CasePhase::Acknowledging => CaseAction::Acknowledge,
        CasePhase::Joining => CaseAction::Join,
        CasePhase::Done(_) => CaseAction::Release,
        CasePhase::Failed(_) => CaseAction::Abandon,
    }
}

/// The conduct of a case.
pub struct Coordinator {
    case: RelayCase,
    phase: Phase,
}

impl Coordinator {
    /// A case that is still building has a step to perform.
    #[verifier::type_invariant]
    spec fn in_range(self) -> bool {
        self.phase matches Phase::Building(at) ==> at < topology::relay_networks(
            self.case.udp_blocked,
        ).len()
    }

    /// The case.
    pub closed spec fn case(self) -> RelayCase {
        self.case
    }

    /// How far the case is.
    pub closed spec fn phase(self) -> CasePhase {
        self.phase@
    }

    /// Starts a case.
    pub fn start(case: RelayCase) -> (coordinator: Coordinator)
        ensures
            coordinator.case() == case,
            coordinator.phase() == CasePhase::Building(0),
    {
        Coordinator { case, phase: Phase::Building(0) }
    }

    /// Tells what to do next.
    pub fn action(&self) -> (action: CaseAction)
        ensures
            action == case_action(self.case(), self.phase()),
    {
        proof {
            use_type_invariant(self);
        }
        match &self.phase {
            Phase::Building(at) => CaseAction::Build(
                topology::with_relay(self.case.udp_blocked)[*at],
            ),
            Phase::StartingRelay => CaseAction::StartRelay {
                device: Device::Relay,
                within_ms: SETUP_MS,
            },
            Phase::StartingPeers => CaseAction::StartPeers {
                server: Device::Home,
                client: Device::Phone,
            },
            Phase::AwaitingCut => CaseAction::AwaitCut { within_ms: CUT_MS },
            Phase::KillingRelay => CaseAction::KillRelay,
            Phase::ReapingRelay => CaseAction::ReapRelay { within_ms: SETUP_MS },
            Phase::RemovingRelay => CaseAction::RemoveRelay { device: Device::Relay },
            Phase::Acknowledging => CaseAction::Acknowledge,
            Phase::Joining => CaseAction::Join,
            Phase::Done(_) => CaseAction::Release,
            Phase::Failed(_) => CaseAction::Abandon,
        }
    }

    /// Takes note of what happened.
    pub fn advance(self, event: CaseEvent) -> (coordinator: Coordinator)
        ensures
            coordinator.case() == self.case(),
            coordinator.phase() == case_step(self.case(), self.phase(), event@),
    {
        proof {
            use_type_invariant(&self);
        }
        let case = self.case;
        let phase = match (self.phase, event) {
            (Phase::Building(at), CaseEvent::Built) => {
                if at + 1 < topology::with_relay(case.udp_blocked).len() {
                    Phase::Building(at + 1)
                } else {
                    Phase::StartingRelay
                }
            },
            (Phase::StartingRelay, CaseEvent::RelayLine(line)) => {
                if relay::relay_ready(line.as_str()) {
                    Phase::StartingPeers
                } else {
                    Phase::Failed(CaseError::RelayNotReady { line })
                }
            },
            (Phase::StartingPeers, CaseEvent::PeersStarted) => Phase::AwaitingCut,
            (Phase::AwaitingCut, CaseEvent::CutRequested) => Phase::KillingRelay,
            (Phase::KillingRelay, CaseEvent::RelayKilled) => Phase::ReapingRelay,
            (Phase::ReapingRelay, CaseEvent::RelayReaped) => Phase::RemovingRelay,
            (Phase::RemovingRelay, CaseEvent::RelayRemoved) => Phase::Acknowledging,
            (Phase::Acknowledging, CaseEvent::Acknowledged) => Phase::Joining,
            (Phase::Joining, CaseEvent::Joined { server_ok, report }) => {
                if !server_ok {
                    Phase::Failed(CaseError::Server)
                } else {
                    match report {
                        Some(report) => Phase::Done(report),
                        None => Phase::Failed(CaseError::Client),
                    }
                }
            },
            (phase, CaseEvent::Failed) => give_up(phase),
            (phase, _) => phase,
        };
        Coordinator { case, phase }
    }

    /// Gives the end of the case, if it has come to one: the report, or why
    /// there is none.
    pub fn outcome(self) -> (outcome: Option<Result<Report, CaseError>>)
        ensures
            match self.phase() {
                CasePhase::Done(report) => outcome matches Some(Ok(found)) && found@ == report,
                CasePhase::Failed(error) => outcome matches Some(Err(found)) && found@ == error,
                _ => outcome is None,
            },
            outcome is Some <==> self.phase() is Done || self.phase() is Failed,
            outcome matches Some(Ok(report)) ==> self.phase() == CasePhase::Done(report@),
            outcome matches Some(Err(error)) ==> self.phase() == CasePhase::Failed(error@),
    {
        match self.phase {
            Phase::Done(report) => Some(Ok(report)),
            Phase::Failed(error) => Some(Err(error)),
            _ => None,
        }
    }
}

fn give_up(phase: Phase) -> (next: Phase)
    ensures
        next@ == case_after_failure(phase@),
        next is Building ==> next == phase,
{
    match phase {
        Phase::Building(_) => Phase::Failed(CaseError::Outside(ConductStep::Build)),
        Phase::StartingRelay => Phase::Failed(CaseError::Outside(ConductStep::StartRelay)),
        Phase::StartingPeers => Phase::Failed(CaseError::Outside(ConductStep::StartPeers)),
        Phase::AwaitingCut => Phase::Failed(CaseError::Outside(ConductStep::AwaitCut)),
        Phase::KillingRelay => Phase::Failed(CaseError::Outside(ConductStep::KillRelay)),
        Phase::ReapingRelay => Phase::Failed(CaseError::Outside(ConductStep::ReapRelay)),
        Phase::RemovingRelay => Phase::Failed(CaseError::Outside(ConductStep::RemoveRelay)),
        Phase::Acknowledging => Phase::Failed(CaseError::AcknowledgmentReceiverGone),
        phase => phase,
    }
}

/// Where a case stands after a series of events.
pub open spec fn case_run(case: RelayCase, events: Seq<CaseEventModel>) -> CasePhase
    decreases events.len(),
{
    if events.len() == 0 {
        CasePhase::Building(0)
    } else {
        case_step(case, case_run(case, events.drop_last()), events.last())
    }
}

/// Whether these events, in this order, are the dialer's request, the end of the
/// relay's process, its reaping, and the removal of its device.
pub open spec fn cut_at(
    events: Seq<CaseEventModel>,
    asked: int,
    killed: int,
    reaped: int,
    removed: int,
) -> bool {
    &&& 0 <= asked < killed < reaped < removed < events.len()
    &&& events[asked] == CaseEventModel::CutRequested
    &&& events[killed] == CaseEventModel::RelayKilled
    &&& events[reaped] == CaseEventModel::RelayReaped
    &&& events[removed] == CaseEventModel::RelayRemoved
}

/// Whether the relay was cut at the dialer's request.
pub open spec fn relay_cut(events: Seq<CaseEventModel>) -> bool {
    exists|asked: int, killed: int, reaped: int, removed: int|
        cut_at(events, asked, killed, reaped, removed)
}

spec fn asked(events: Seq<CaseEventModel>, a: int) -> bool {
    0 <= a < events.len() && events[a] == CaseEventModel::CutRequested
}

spec fn killed(events: Seq<CaseEventModel>, a: int, k: int) -> bool {
    asked(events, a) && a < k < events.len() && events[k] == CaseEventModel::RelayKilled
}

spec fn reaped(events: Seq<CaseEventModel>, a: int, k: int, r: int) -> bool {
    killed(events, a, k) && k < r < events.len() && events[r] == CaseEventModel::RelayReaped
}

spec fn ready_line(events: Seq<CaseEventModel>, i: int) -> bool {
    0 <= i < events.len() && (events[i] matches CaseEventModel::RelayLine(line)
        && relay::says_ready(line))
}

/// What the past must look like for a case to stand where it stands.
spec fn accounted_for(case: RelayCase, events: Seq<CaseEventModel>, phase: CasePhase) -> bool {
    &&& phase matches CasePhase::Building(at) ==> at < topology::relay_networks(
        case.udp_blocked,
    ).len()
    &&& !(phase is Building || phase is StartingRelay || phase is Failed) ==> exists|i: int|
        ready_line(events, i)
    &&& phase is KillingRelay ==> exists|a: int| asked(events, a)
    &&& phase is ReapingRelay ==> exists|a: int, k: int| killed(events, a, k)
    &&& phase is RemovingRelay ==> exists|a: int, k: int, r: int| reaped(events, a, k, r)
    &&& (phase is Acknowledging || phase is Joining || phase is Done) ==> relay_cut(events)
    &&& phase matches CasePhase::Done(report) ==> events.contains(
        CaseEventModel::Joined { server_ok: true, report: Some(report) },
    )
}

proof fn lemma_accounted_for(case: RelayCase, events: Seq<CaseEventModel>)
    ensures
        accounted_for(case, events, case_run(case, events)),
    decreases events.len(),
{
    if events.len() > 0 {
        let past = events.drop_last();
        let event = events.last();
        let last = events.len() - 1;
        lemma_accounted_for(case, past);
        let before = case_run(case, past);
        let phase = case_run(case, events);
        assert(forall|i: int| 0 <= i < past.len() ==> past[i] == #[trigger] events[i]);
        assert(events[last] == event);
        if !(phase is Building || phase is StartingRelay || phase is Failed) {
            if before is StartingRelay {
                assert(ready_line(events, last));
            } else {
                let i = choose|i: int| ready_line(past, i);
                assert(ready_line(events, i));
            }
        }
        if phase is KillingRelay {
            if before is AwaitingCut {
                assert(asked(events, last));
            } else {
                let a = choose|a: int| asked(past, a);
                assert(asked(events, a));
            }
        }
        if phase is ReapingRelay {
            if before is KillingRelay {
                let a = choose|a: int| asked(past, a);
                assert(killed(events, a, last));
            } else {
                let (a, k) = choose|a: int, k: int| killed(past, a, k);
                assert(killed(events, a, k));
            }
        }
        if phase is RemovingRelay {
            if before is ReapingRelay {
                let (a, k) = choose|a: int, k: int| killed(past, a, k);
                assert(reaped(events, a, k, last));
            } else {
                let (a, k, r) = choose|a: int, k: int, r: int| reaped(past, a, k, r);
                assert(reaped(events, a, k, r));
            }
        }
        if phase is Acknowledging || phase is Joining || phase is Done {
            if before is RemovingRelay {
                let (a, k, r) = choose|a: int, k: int, r: int| reaped(past, a, k, r);
                assert(cut_at(events, a, k, r, last));
            } else {
                let (a, k, r, m) = choose|a: int, k: int, r: int, m: int| cut_at(past, a, k, r, m);
                assert(cut_at(events, a, k, r, m));
            }
        }
        if let CasePhase::Done(report) = phase {
            let joined = CaseEventModel::Joined { server_ok: true, report: Some(report) };
            if before is Joining {
                assert(events[last] == joined);
            } else {
                let i = choose|i: int| 0 <= i < past.len() && past[i] == joined;
                assert(events[i] == joined);
            }
        }
    }
}

/// The dialer hears that the relay is gone only after it asked for that, and
/// only after the relay's process was told to end, has ended, and its device
/// was removed.
pub proof fn law_acknowledged_relay_is_gone(case: RelayCase, events: Seq<CaseEventModel>)
    requires
        case_action(case, case_run(case, events)) is Acknowledge,
    ensures
        relay_cut(events),
{
    lemma_accounted_for(case, events);
}

/// The peers start only after the relay said that it is up.
pub proof fn law_peers_start_after_relay(case: RelayCase, events: Seq<CaseEventModel>)
    requires
        case_action(case, case_run(case, events)) is StartPeers,
    ensures
        exists|i: int|
            0 <= i < events.len() && (#[trigger] events[i] matches CaseEventModel::RelayLine(line)
                && relay::says_ready(line)),
{
    lemma_accounted_for(case, events);
    let i = choose|i: int| ready_line(events, i);
    assert(events[i] is RelayLine);
}

/// A case ends well only with a relay that was cut at the dialer's request, a
/// server that ended well, and the dialer's own report.
pub proof fn law_case_ends_well(
    case: RelayCase,
    events: Seq<CaseEventModel>,
    report: ReportModel,
)
    requires
        case_run(case, events) == CasePhase::Done(report),
    ensures
        relay_cut(events),
        events.contains(CaseEventModel::Joined { server_ok: true, report: Some(report) }),
{
    lemma_accounted_for(case, events);
}

/// While a case is building, there is a step to perform, whatever happened.
pub proof fn law_building_has_a_step(case: RelayCase, events: Seq<CaseEventModel>, at: nat)
    requires
        case_run(case, events) == CasePhase::Building(at),
    ensures
        at < topology::relay_networks(case.udp_blocked).len(),
{
    lemma_accounted_for(case, events);
}

/// The first steps of a case build its networks, one step after the other.
pub proof fn law_building_follows_the_plan(case: RelayCase, count: nat)
    requires
        count <= topology::relay_networks(case.udp_blocked).len(),
    ensures
        case_run(case, Seq::new(count, |i: int| CaseEventModel::Built)) == (if count
            < topology::relay_networks(case.udp_blocked).len() {
            CasePhase::Building(count)
        } else {
            CasePhase::StartingRelay
        }),
    decreases count,
{
    if count > 0 {
        law_building_follows_the_plan(case, (count - 1) as nat);
        assert(Seq::new(count, |i: int| CaseEventModel::Built).drop_last() =~= Seq::new(
            (count - 1) as nat,
            |i: int| CaseEventModel::Built,
        ));
    }
}

/// Once its networks are built, a case in which nothing fails ends with the
/// dialer's report.
pub proof fn law_smooth_case_ends_well(
    case: RelayCase,
    events: Seq<CaseEventModel>,
    line: Seq<char>,
    report: ReportModel,
)
    requires
        case_run(case, events) is StartingRelay,
        relay::says_ready(line),
    ensures
        case_run(
            case,
            events.push(CaseEventModel::RelayLine(line)).push(CaseEventModel::PeersStarted).push(
                CaseEventModel::CutRequested,
            ).push(CaseEventModel::RelayKilled).push(CaseEventModel::RelayReaped).push(
                CaseEventModel::RelayRemoved,
            ).push(CaseEventModel::Acknowledged).push(
                CaseEventModel::Joined { server_ok: true, report: Some(report) },
            ),
        ) == CasePhase::Done(report),
{
    let a = events.push(CaseEventModel::RelayLine(line));
    assert(a.drop_last() =~= events);
    let b = a.push(CaseEventModel::PeersStarted);
    assert(b.drop_last() =~= a);
    let c = b.push(CaseEventModel::CutRequested);
    assert(c.drop_last() =~= b);
    let d = c.push(CaseEventModel::RelayKilled);
    assert(d.drop_last() =~= c);
    let e = d.push(CaseEventModel::RelayReaped);
    assert(e.drop_last() =~= d);
    let f = e.push(CaseEventModel::RelayRemoved);
    assert(f.drop_last() =~= e);
    let g = f.push(CaseEventModel::Acknowledged);
    assert(g.drop_last() =~= f);
    let h = g.push(CaseEventModel::Joined { server_ok: true, report: Some(report) });
    assert(h.drop_last() =~= g);
    assert(case_run(case, a) is StartingPeers);
    assert(case_run(case, b) is AwaitingCut);
    assert(case_run(case, c) is KillingRelay);
    assert(case_run(case, d) is ReapingRelay);
    assert(case_run(case, e) is RemovingRelay);
    assert(case_run(case, f) is Acknowledging);
    assert(case_run(case, g) is Joining);
}

/// Every device in the conduct of a case is the right one: the relay starts on the
/// device that is entered as the relay, that device is the one removed, the server
/// and the dialer start behind different NATs, and UDP is dropped on no device but
/// the dialer's.
pub proof fn law_conduct_uses_the_right_devices(case: RelayCase, phase: CasePhase)
    ensures
        case_action(case, phase) matches CaseAction::StartRelay { device, .. }
            ==> topology::relay_networks(case.udp_blocked).contains(SetupStep::NameRelay { device }),
        case_action(case, phase) matches CaseAction::RemoveRelay { device }
            ==> topology::relay_networks(case.udp_blocked).contains(SetupStep::NameRelay { device }),
        case_action(case, phase) matches CaseAction::StartPeers { server, client }
            ==> topology::has_device(
            topology::relay_networks(case.udp_blocked),
            server,
            Router::NatA,
        ) && topology::has_device(
            topology::relay_networks(case.udp_blocked),
            client,
            Router::NatB,
        ) && (case.udp_blocked ==> topology::relay_networks(case.udp_blocked).contains(
            SetupStep::DropUdp { device: client },
        )),
{
    topology::law_relay_networks(case.udp_blocked);
    topology::law_relay_is_named(case.udp_blocked, Device::Relay);
    topology::law_devices_have_one_uplink(case.udp_blocked, Device::Home, Router::NatA);
    topology::law_devices_have_one_uplink(case.udp_blocked, Device::Phone, Router::NatB);
}

/// The conduct of a case gives each wait its time: thirty seconds to the relay's
/// first line and to its end, and seventy-five to the dialer's request for the
/// cut.
pub proof fn law_conduct_deadlines(case: RelayCase, phase: CasePhase)
    ensures
        case_action(case, phase) matches CaseAction::StartRelay { within_ms, .. } ==> within_ms
            == 30_000,
        case_action(case, phase) matches CaseAction::AwaitCut { within_ms } ==> within_ms == 75_000,
        case_action(case, phase) matches CaseAction::ReapRelay { within_ms } ==> within_ms
            == 30_000,
{
}

/// An event moves a case exactly if it answers what the case is doing.
pub proof fn law_conduct_heeds_answers_alone(
    case: RelayCase,
    phase: CasePhase,
    event: CaseEventModel,
)
    ensures
        case_step(case, phase, event) != phase <==> (match case_action(case, phase) {
            CaseAction::Build(_) => event is Built || event is Failed,
            CaseAction::StartRelay { .. } => event is RelayLine || event is Failed,
            CaseAction::StartPeers { .. } => event is PeersStarted || event is Failed,
            CaseAction::AwaitCut { .. } => event is CutRequested || event is Failed,
            CaseAction::KillRelay => event is RelayKilled || event is Failed,
            CaseAction::ReapRelay { .. } => event is RelayReaped || event is Failed,
            CaseAction::RemoveRelay { .. } => event is RelayRemoved || event is Failed,
            CaseAction::Acknowledge => event is Acknowledged || event is Failed,
            CaseAction::Join => event is Joined,
            CaseAction::Release => false,
            CaseAction::Abandon => false,
        }),
{
}

/// A case that moves and does not fail moves one step down the line: build, start
/// the relay, start the peers, wait for the request, end the relay's process, wait
/// for its end, remove its device, tell the dialer, wait for both peers.
pub proof fn law_conduct_goes_in_order(case: RelayCase, phase: CasePhase, event: CaseEventModel)
    requires
        case_step(case, phase, event) != phase,
        !(case_step(case, phase, event) is Failed),
    ensures
        phase is Building <==> case_step(case, phase, event) is Building || case_step(
            case,
            phase,
            event,
        ) is StartingRelay,
        phase is StartingRelay <==> case_step(case, phase, event) is StartingPeers,
        phase is StartingPeers <==> case_step(case, phase, event) is AwaitingCut,
        phase is AwaitingCut <==> case_step(case, phase, event) is KillingRelay,
        phase is KillingRelay <==> case_step(case, phase, event) is ReapingRelay,
        phase is ReapingRelay <==> case_step(case, phase, event) is RemovingRelay,
        phase is RemovingRelay <==> case_step(case, phase, event) is Acknowledging,
        phase is Acknowledging <==> case_step(case, phase, event) is Joining,
        phase is Joining <==> case_step(case, phase, event) is Done,
{
}

/// Building goes through the steps of the case's networks, none left out and none
/// repeated: after so many steps the next one is performed, and the relay starts
/// only after the last.
pub proof fn law_building_leaves_nothing_out(case: RelayCase, count: nat)
    ensures
        count < topology::relay_networks(case.udp_blocked).len() ==> case_action(
            case,
            case_run(case, Seq::new(count, |i: int| CaseEventModel::Built)),
        ) == CaseAction::Build(topology::relay_networks(case.udp_blocked)[count as int]),
        count == topology::relay_networks(case.udp_blocked).len() ==> case_action(
            case,
            case_run(case, Seq::new(count, |i: int| CaseEventModel::Built)),
        ) is StartRelay,
        topology::relay_networks(case.udp_blocked).len() == if case.udp_blocked {
            8int
        } else {
            7
        },
{
    if count <= topology::relay_networks(case.udp_blocked).len() {
        law_building_follows_the_plan(case, count);
    }
}

/// A step of building is done once, whatever the step: the next one follows, or
/// the relay starts where it was the last.
pub proof fn law_building_goes_step_by_step(case: RelayCase, at: nat)
    ensures
        case_step(case, CasePhase::Building(at), CaseEventModel::Built) == CasePhase::Building(
            at + 1,
        ) <==> at + 1 < topology::relay_networks(case.udp_blocked).len(),
        case_step(case, CasePhase::Building(at), CaseEventModel::Built) is StartingRelay <==> at + 1
            >= topology::relay_networks(case.udp_blocked).len(),
{
}

/// The relay's first line decides: with the word that it is up the peers start,
/// and any other line fails the case and is kept whole.
pub proof fn law_first_line_decides(case: RelayCase, line: Seq<char>)
    ensures
        case_step(case, CasePhase::StartingRelay, CaseEventModel::RelayLine(line)) is StartingPeers
            <==> relay::says_ready(line),
        !relay::says_ready(line) ==> case_step(
            case,
            CasePhase::StartingRelay,
            CaseEventModel::RelayLine(line),
        ) == CasePhase::Failed(CaseErrorModel::RelayNotReady { line }),
{
}

/// The peers' ends decide: a case ends well exactly if the server ended well and
/// the dialer has a report, and then with that report. Where both failed, the
/// server's failure counts.
pub proof fn law_peers_ends_decide(
    case: RelayCase,
    server_ok: bool,
    report: Option<ReportModel>,
)
    ensures
        ({
            let next = case_step(
                case,
                CasePhase::Joining,
                CaseEventModel::Joined { server_ok, report },
            );
            &&& next is Done <==> server_ok && report is Some
            &&& next matches CasePhase::Done(found) ==> report == Some(found)
            &&& next == CasePhase::Failed(CaseErrorModel::Server) <==> !server_ok
            &&& next == CasePhase::Failed(CaseErrorModel::Client) <==> server_ok && report is None
        }),
{
}

/// What fails outside fails a case with the part that it was at. A case that waits
/// for its peers, or is over, does not fail in that way, and nothing but such a
/// failure, the relay's line and the peers' ends ever fails a case.
pub proof fn law_conduct_fails_for_cause_alone(
    case: RelayCase,
    phase: CasePhase,
    event: CaseEventModel,
)
    requires
        !(phase is Failed),
    ensures
        case_step(case, phase, event) is Failed ==> event is Failed || event is RelayLine
            || event is Joined,
        event is Failed ==> (match phase {
            CasePhase::Building(_) => case_step(case, phase, event) == CasePhase::Failed(
                CaseErrorModel::Outside(ConductStep::Build),
            ),
            CasePhase::StartingRelay => case_step(case, phase, event) == CasePhase::Failed(
                CaseErrorModel::Outside(ConductStep::StartRelay),
            ),
            CasePhase::StartingPeers => case_step(case, phase, event) == CasePhase::Failed(
                CaseErrorModel::Outside(ConductStep::StartPeers),
            ),
            CasePhase::AwaitingCut => case_step(case, phase, event) == CasePhase::Failed(
                CaseErrorModel::Outside(ConductStep::AwaitCut),
            ),
            CasePhase::KillingRelay => case_step(case, phase, event) == CasePhase::Failed(
                CaseErrorModel::Outside(ConductStep::KillRelay),
            ),
            CasePhase::ReapingRelay => case_step(case, phase, event) == CasePhase::Failed(
                CaseErrorModel::Outside(ConductStep::ReapRelay),
            ),
            CasePhase::RemovingRelay => case_step(case, phase, event) == CasePhase::Failed(
                CaseErrorModel::Outside(ConductStep::RemoveRelay),
            ),
            CasePhase::Acknowledging => case_step(case, phase, event) == CasePhase::Failed(
                CaseErrorModel::AcknowledgmentReceiverGone,
            ),
            _ => !(case_step(case, phase, event) is Failed),
        }),
{
}

/// The peers' settings make no difference to the conduct of a case. Only whether
/// UDP is blocked does, and only while the networks are built.
pub proof fn law_conduct_is_blind_to_the_settings(
    case: RelayCase,
    other: RelayCase,
    phase: CasePhase,
    event: CaseEventModel,
)
    ensures
        case.udp_blocked == other.udp_blocked || !(phase is Building) ==> case_step(
            case,
            phase,
            event,
        ) == case_step(other, phase, event) && case_action(case, phase) == case_action(
            other,
            phase,
        ),
{
}

/// The lab is marked as good exactly if the case has a report, and left alone
/// exactly if it failed.
pub proof fn law_lab_is_released_after_a_report(case: RelayCase, phase: CasePhase)
    ensures
        case_action(case, phase) is Release <==> phase is Done,
        case_action(case, phase) is Abandon <==> phase is Failed,
{
}

/// The model of an event keeps its kind and all that the event brings.
pub proof fn law_case_events_are_kept_as_they_are(event: CaseEvent)
    ensures
        match event {
            CaseEvent::Built => event@ is Built,
            CaseEvent::RelayLine(line) => event@ matches CaseEventModel::RelayLine(kept) && kept
                == line@,
            CaseEvent::PeersStarted => event@ is PeersStarted,
            CaseEvent::CutRequested => event@ is CutRequested,
            CaseEvent::RelayKilled => event@ is RelayKilled,
            CaseEvent::RelayReaped => event@ is RelayReaped,
            CaseEvent::RelayRemoved => event@ is RelayRemoved,
            CaseEvent::Acknowledged => event@ is Acknowledged,
            CaseEvent::Joined { server_ok, report } => event@ matches CaseEventModel::Joined {
                server_ok: ok,
                report: kept,
            } && ok == server_ok && (kept is Some <==> report is Some) && (report is Some
                ==> kept->0 == report->0@),
            CaseEvent::Failed => event@ is Failed,
        },
{
}

/// The model of a failure keeps its kind and all that comes with it.
pub proof fn law_case_error_is_kept_as_it_is(error: CaseError)
    ensures
        match error {
            CaseError::Outside(step) => error@ == CaseErrorModel::Outside(step),
            CaseError::RelayNotReady { line } => error@ matches CaseErrorModel::RelayNotReady {
                line: kept,
            } && kept == line@,
            CaseError::AcknowledgmentReceiverGone => error@ is AcknowledgmentReceiverGone,
            CaseError::Server => error@ is Server,
            CaseError::Client => error@ is Client,
        },
{
}

/// A case adds words of its own where the relay did not come up, with the line as
/// it came, and where nobody waits to hear of the cut. Of its other failures
/// somebody else speaks.
pub proof fn law_case_speaks_of_its_own_failures(error: CaseErrorModel)
    ensures
        error.text() is Some <==> error is RelayNotReady || error is AcknowledgmentReceiverGone,
        error is AcknowledgmentReceiverGone ==> error.text() == Some(
            "cut acknowledgment receiver gone"@,
        ),
        error matches CaseErrorModel::RelayNotReady { line } ==> error.text()->0.len()
            == line.len() + 23 && error.text()->0.take(23) == "relay failed to start: "@
            && error.text()->0.skip(23) == line,
{
    reveal_strlit("relay failed to start: ");
    if let CaseErrorModel::RelayNotReady { line } = error {
        assert(error.text()->0.take(23) =~= "relay failed to start: "@);
        assert(error.text()->0.skip(23) =~= line);
    }
}

} // verus!
