//! The dialer of a case with a relay.
//!
//! The dialer connects through the relay, exchanges a payload, watches for a
//! direct path, has the relay cut, and tries the exchange again. The program
//! performs one action at a time and hands back what happened.

use vstd::prelude::*;
use vstd::string::*;

use crate::address;
use crate::address::Address;
#[allow(unused_imports)]
use crate::address::AddressModel;
use crate::case::RelayCase;
use crate::case::{OBSERVE_MS, SETUP_MS, TRANSFER_MS};
use crate::path;
use crate::path::PathInfo;
#[allow(unused_imports)]
use crate::path::PathModel;
use crate::report::{FrameCounts, Report};
#[allow(unused_imports)]
use crate::report::ReportModel;
use crate::text;

verus! {

/// Why an exchange failed.
#[derive(Debug)]
pub struct TransferError {
    /// The causes on one line.
    pub brief: String,
    /// The causes as written for debugging.
    pub full: String,
}

/// How an exchange went.
#[derive(Debug)]
pub enum Transfer {
    /// The payload came back. Its digest, in hexadecimal.
    Intact(String),
    /// The payload did not come back.
    Broken(TransferError),
}

/// What is known of an exchange.
pub enum TransferModel {
    Intact(Seq<char>),
    Broken { brief: Seq<char>, full: Seq<char> },
}

impl View for Transfer {
    type V = TransferModel;

    open spec fn view(&self) -> TransferModel {
        match self {
            Transfer::Intact(hash) => TransferModel::Intact(hash@),
            Transfer::Broken(error) => TransferModel::Broken {
                brief: error.brief@,
                full: error.full@,
            },
        }
    }
}

/// A step of the dialer that needs the outside world.
#[derive(Clone, Copy, PartialEq, Eq, Structural, Debug)]
pub enum ClientStep {
    Bind,
    AwaitAddress,
    Connect,
    AwaitCut,
}

/// Why the dialer gave up.
#[derive(Debug)]
pub enum ClientError {
    /// Something outside failed or took too long.
    Outside(ClientStep),
    /// The server offered an address of its own.
    DirectHint,
    /// The exchange through the relay failed.
    FirstTransfer(TransferError),
    /// The path is not the expected one.
    UnexpectedPath { case: RelayCase, path: Option<String> },
    /// Traversal took place although a peer has it disabled.
    TraversalNegotiated,
    /// Nobody is there to cut the relay.
    CutReceiverGone,
    /// The exchange after the cut went other than expected.
    UnexpectedTransfer(Transfer),
    /// The exchange after the cut worked, and not on a direct path.
    NotDirect,
}

/// What is known of the dialer's failure.
pub enum ClientErrorModel {
    Outside(ClientStep),
    DirectHint,
    FirstTransfer { brief: Seq<char>, full: Seq<char> },
    UnexpectedPath { case: RelayCase, path: Option<Seq<char>> },
    TraversalNegotiated,
    CutReceiverGone,
    UnexpectedTransfer(TransferModel),
    NotDirect,
}

impl View for ClientError {
    type V = ClientErrorModel;

    open spec fn view(&self) -> ClientErrorModel {
        match self {
            ClientError::Outside(step) => ClientErrorModel::Outside(*step),
            ClientError::DirectHint => ClientErrorModel::DirectHint,
            ClientError::FirstTransfer(error) => ClientErrorModel::FirstTransfer {
                brief: error.brief@,
                full: error.full@,
            },
            ClientError::UnexpectedPath { case, path } => ClientErrorModel::UnexpectedPath {
                case: *case,
                path: text::optional_view(*path),
            },
            ClientError::TraversalNegotiated => ClientErrorModel::TraversalNegotiated,
            ClientError::CutReceiverGone => ClientErrorModel::CutReceiverGone,
            ClientError::UnexpectedTransfer(transfer) => ClientErrorModel::UnexpectedTransfer(
                transfer@,
            ),
            ClientError::NotDirect => ClientErrorModel::NotDirect,
        }
    }
}

/// How an exchange reads in a message.
pub open spec fn transfer_literal(transfer: TransferModel) -> Seq<char> {
    match transfer {
        TransferModel::Intact(hash) => "Ok("@ + text::debug_literal(hash) + ")"@,
        TransferModel::Broken { full, .. } => "Err("@ + full + ")"@,
    }
}

impl ClientErrorModel {
    /// What is said of the failure. Of a failure outside the dialer has nothing
    /// to say beyond what the outside reports.
    pub open spec fn text(self) -> Option<Seq<char>> {
        match self {
            ClientErrorModel::Outside(_) => None,
            ClientErrorModel::DirectHint => Some("bootstrap must be relay-only"@),
            ClientErrorModel::FirstTransfer { .. } => Some("transfer before relay cutoff"@),
            ClientErrorModel::UnexpectedPath { case, path } => Some(
                "unexpected direct-path outcome: server="@ + text::bool_text(case.server)
                    + " client="@ + text::bool_text(case.client) + " blocked="@ + text::bool_text(
                    case.udp_blocked,
                ) + " path="@ + text::optional_literal(path),
            ),
            ClientErrorModel::TraversalNegotiated => Some("disabled peer negotiated traversal"@),
            ClientErrorModel::CutReceiverGone => Some("cut receiver gone"@),
            ClientErrorModel::UnexpectedTransfer(transfer) => Some(
                "unexpected transfer after relay cutoff: "@ + transfer_literal(transfer),
            ),
            ClientErrorModel::NotDirect => Some("successful cutoff transfer must use IP"@),
        }
    }
}

impl ClientErrorModel {
    /// Whether what the outside reports belongs with the failure. All other
    /// failures are the dialer's own, or already say what the outside reports.
    pub open spec fn rests_on_outside(self) -> bool {
        self is Outside || self is FirstTransfer
    }
}

fn write_transfer(transfer: &Transfer) -> (written: String)
    ensures
        written@ == transfer_literal(transfer@),
{
    match transfer {
        Transfer::Intact(hash) => {
            let mut written = String::from_str("Ok(");
            written.append(text::debug_str(hash.as_str()).as_str());
            written.append(")");
            written
        },
        Transfer::Broken(error) => {
            let mut written = String::from_str("Err(");
            written.append(error.full.as_str());
            written.append(")");
            written
        },
    }
}

impl ClientError {
    /// Tells whether what the outside reports belongs with the failure.
    pub fn has_outside_cause(&self) -> (yes: bool)
        ensures
            yes == self@.rests_on_outside(),
    {
        match self {
            ClientError::Outside(_) => true,
            ClientError::FirstTransfer(_) => true,
            _ => false,
        }
    }

    /// Says why the dialer gave up, where it knows more than the outside.
    pub fn message(&self) -> (message: Option<String>)
        ensures
            text::optional_view(message) == self@.text(),
    {
        match self {
            ClientError::Outside(_) => None,
            ClientError::DirectHint => Some(String::from_str("bootstrap must be relay-only")),
            ClientError::FirstTransfer(_) => Some(
                String::from_str("transfer before relay cutoff"),
            ),
            ClientError::UnexpectedPath { case, path } => {
                let mut message = String::from_str("unexpected direct-path outcome: server=");
                message.append(text::bool_str(case.server));
                message.append(" client=");
                message.append(text::bool_str(case.client));
                message.append(" blocked=");
                message.append(text::bool_str(case.udp_blocked));
                message.append(" path=");
                message.append(text::write_optional(path).as_str());
                Some(message)
            },
            ClientError::TraversalNegotiated => Some(
                String::from_str("disabled peer negotiated traversal"),
            ),
            ClientError::CutReceiverGone => Some(String::from_str("cut receiver gone")),
            ClientError::UnexpectedTransfer(transfer) => {
                let mut message = String::from_str("unexpected transfer after relay cutoff: ");
                message.append(write_transfer(transfer).as_str());
                Some(message)
            },
            ClientError::NotDirect => Some(
                String::from_str("successful cutoff transfer must use IP"),
            ),
        }
    }
}

/// What happened to the dialer.
#[derive(Debug)]
pub enum ClientEvent {
    /// The endpoint is bound.
    Bound,
    /// The server's addresses arrived.
    AddressReceived(Vec<Address>),
    /// The connection is up: how long that took, and its paths.
    Connected { elapsed_ms: u128, paths: Vec<PathInfo> },
    /// An exchange ended, with the paths right after it.
    Transferred { outcome: Transfer, paths: Vec<PathInfo> },
    /// The watch for a direct path ended: whether one was seen, the paths after
    /// it, the time since connecting began, and the traversal frames so far.
    Observed { direct: bool, paths: Vec<PathInfo>, elapsed_ms: u128, frames: FrameCounts },
    /// The request to cut the relay was taken.
    CutRequested,
    /// The relay is gone.
    CutDone,
    /// The server was told to finish, or is past listening.
    FinishSent,
    /// The endpoint is closed.
    Closed,
    /// What was attempted failed or took too long.
    Failed,
}

/// What is known of an event.
pub enum ClientEventModel {
    Bound,
    AddressReceived(Seq<AddressModel>),
    Connected { elapsed_ms: u128, paths: Seq<PathModel> },
    Transferred { outcome: TransferModel, paths: Seq<PathModel> },
    Observed { direct: bool, paths: Seq<PathModel>, elapsed_ms: u128, frames: FrameCounts },
    CutRequested,
    CutDone,
    FinishSent,
    Closed,
    Failed,
}

impl View for ClientEvent {
    type V = ClientEventModel;

    open spec fn view(&self) -> ClientEventModel {
        match self {
            ClientEvent::Bound => ClientEventModel::Bound,
            ClientEvent::AddressReceived(addresses) => ClientEventModel::AddressReceived(
                address::address_models(addresses@),
            ),
            ClientEvent::Connected { elapsed_ms, paths } => ClientEventModel::Connected {
                elapsed_ms: *elapsed_ms,
                paths: path::path_models(paths@),
            },
            ClientEvent::Transferred { outcome, paths } => ClientEventModel::Transferred {
                outcome: outcome@,
                paths: path::path_models(paths@),
            },
            ClientEvent::Observed { direct, paths, elapsed_ms, frames } =>
                ClientEventModel::Observed {
                direct: *direct,
                paths: path::path_models(paths@),
                elapsed_ms: *elapsed_ms,
                frames: *frames,
            },
            ClientEvent::CutRequested => ClientEventModel::CutRequested,
            ClientEvent::CutDone => ClientEventModel::CutDone,
            ClientEvent::FinishSent => ClientEventModel::FinishSent,
            ClientEvent::Closed => ClientEventModel::Closed,
            ClientEvent::Failed => ClientEventModel::Failed,
        }
    }
}

/// What the dialer knows once it is connected.
struct Contact {
    connect_ms: u128,
    initial_path: Option<String>,
}

/// What the dialer has seen before the cut.
struct Observation {
    contact: Contact,
    hash: String,
    direct: bool,
    path_before_cut: Option<String>,
    observed_ms: u128,
    frames: FrameCounts,
}

/// How far the dialer is.
enum Phase {
    Binding,
    AwaitingAddress,
    Connecting,
    FirstTransfer(Contact),
    Observing(Contact, String),
    RequestingCut(Observation),
    AwaitingCut(Observation),
    SecondTransfer(Observation),
    Finishing(Report),
    Closing(Report),
    Done(Report),
    Failed(ClientError),
}

/// What is known once the dialer is connected.
pub struct ContactModel {
    pub connect_ms: u128,
    pub initial_path: Option<Seq<char>>,
}

/// What is known before the cut.
pub struct ObservationModel {
    pub contact: ContactModel,
    pub hash: Seq<char>,
    pub direct: bool,
    pub path_before_cut: Option<Seq<char>>,
    pub observed_ms: u128,
    pub frames: FrameCounts,
}

/// How far the dialer is, and what it knows.
pub enum ClientPhase {
    Binding,
    AwaitingAddress,
    Connecting,
    FirstTransfer(ContactModel),
    Observing(ContactModel, Seq<char>),
    RequestingCut(ObservationModel),
    AwaitingCut(ObservationModel),
    SecondTransfer(ObservationModel),
    Finishing(ReportModel),
    Closing(ReportModel),
    Done(ReportModel),
    Failed(ClientErrorModel),
}

impl View for Contact {
    type V = ContactModel;

    closed spec fn view(&self) -> ContactModel {
        ContactModel {
            connect_ms: self.connect_ms,
            initial_path: text::optional_view(self.initial_path),
        }
    }
}

impl View for Observation {
    type V = ObservationModel;

    closed spec fn view(&self) -> ObservationModel {
        ObservationModel {
            contact: self.contact@,
            hash: self.hash@,
            direct: self.direct,
            path_before_cut: text::optional_view(self.path_before_cut),
            observed_ms: self.observed_ms,
            frames: self.frames,
        }
    }
}

impl View for Phase {
    type V = ClientPhase;

    closed spec fn view(&self) -> ClientPhase {
        match self {
            Phase::Binding => ClientPhase::Binding,
            Phase::AwaitingAddress => ClientPhase::AwaitingAddress,
            Phase::Connecting => ClientPhase::Connecting,
            Phase::FirstTransfer(contact) => ClientPhase::FirstTransfer(contact@),
            Phase::Observing(contact, hash) => ClientPhase::Observing(contact@, hash@),
            Phase::RequestingCut(seen) => ClientPhase::RequestingCut(seen@),
            Phase::AwaitingCut(seen) => ClientPhase::AwaitingCut(seen@),
            Phase::SecondTransfer(seen) => ClientPhase::SecondTransfer(seen@),
            Phase::Finishing(report) => ClientPhase::Finishing(report@),
            Phase::Closing(report) => ClientPhase::Closing(report@),
            Phase::Done(report) => ClientPhase::Done(report@),
            Phase::Failed(error) => ClientPhase::Failed(error@),
        }
    }
}

/// The report on a case, from what was seen before the cut and from the
/// exchange after it.
pub open spec fn report_of(
    case: RelayCase,
    seen: ObservationModel,
    outcome: TransferModel,
) -> ReportModel {
    ReportModel {
        case,
        connect_ms: seen.contact.connect_ms,
        initial_path: seen.contact.initial_path,
        path_before_cut: seen.path_before_cut,
        direct: seen.direct,
        observed_ms: seen.observed_ms,
        payload_blake2b: seen.hash,
        post_cut_transfer: outcome is Intact,
        post_cut_error: match outcome {
            TransferModel::Intact(_) => None,
            TransferModel::Broken { brief, .. } => Some(brief),
        },
        frames: seen.frames,
    }
}

/// What the dialer makes of the addresses that it received.
pub open spec fn after_address(addresses: Seq<AddressModel>) -> ClientPhase {
    if address::lacks_ip(addresses) {
        ClientPhase::Connecting
    } else {
        ClientPhase::Failed(ClientErrorModel::DirectHint)
    }
}

/// What the dialer makes of the exchange through the relay.
pub open spec fn after_first_transfer(contact: ContactModel, outcome: TransferModel) -> ClientPhase {
    match outcome {
        TransferModel::Intact(hash) => ClientPhase::Observing(contact, hash),
        TransferModel::Broken { brief, full } => ClientPhase::Failed(
            ClientErrorModel::FirstTransfer { brief, full },
        ),
    }
}

/// Whether the watch, and the paths at its end, are what a case expects: a direct
/// path was seen and is still selected, or none was seen and the connection is
/// on the relay.
pub open spec fn path_as_expected(case: RelayCase, direct: bool, paths: Seq<PathModel>) -> bool {
    if case.expects_direct() {
        direct && path::is_direct(paths)
    } else {
        !direct && path::is_relayed(paths)
    }
}

/// What the dialer makes of what it saw before the cut, with these paths at the
/// end of the watch.
pub open spec fn after_observation(
    case: RelayCase,
    seen: ObservationModel,
    paths: Seq<PathModel>,
) -> ClientPhase {
    if !path_as_expected(case, seen.direct, paths) {
        ClientPhase::Failed(
            ClientErrorModel::UnexpectedPath { case, path: seen.path_before_cut },
        )
    } else if case.some_peer_disabled() && !seen.frames.all_zero() {
        ClientPhase::Failed(ClientErrorModel::TraversalNegotiated)
    } else {
        ClientPhase::RequestingCut(seen)
    }
}

/// What the dialer makes of the exchange after the cut.
pub open spec fn after_second_transfer(
    case: RelayCase,
    seen: ObservationModel,
    outcome: TransferModel,
    paths: Seq<PathModel>,
) -> ClientPhase {
    if (outcome is Intact) != case.expects_direct() {
        ClientPhase::Failed(ClientErrorModel::UnexpectedTransfer(outcome))
    } else if case.expects_direct() && !path::is_direct(paths) {
        ClientPhase::Failed(ClientErrorModel::NotDirect)
    } else {
        ClientPhase::Finishing(report_of(case, seen, outcome))
    }
}

/// What the dialer makes of a failure outside.
pub open spec fn after_failure(phase: ClientPhase) -> ClientPhase {
    match phase {
        ClientPhase::Binding => ClientPhase::Failed(ClientErrorModel::Outside(ClientStep::Bind)),
        ClientPhase::AwaitingAddress => ClientPhase::Failed(
            ClientErrorModel::Outside(ClientStep::AwaitAddress),
        ),
        ClientPhase::Connecting => ClientPhase::Failed(
            ClientErrorModel::Outside(ClientStep::Connect),
        ),
        ClientPhase::RequestingCut(_) => ClientPhase::Failed(ClientErrorModel::CutReceiverGone),
        ClientPhase::AwaitingCut(_) => ClientPhase::Failed(
            ClientErrorModel::Outside(ClientStep::AwaitCut),
        ),
        _ => phase,
    }
}

/// The phase of the dialer after an event. An event that is not an answer to
/// what the dialer is doing changes nothing.
pub open spec fn client_step(
    case: RelayCase,
    phase: ClientPhase,
    event: ClientEventModel,
) -> ClientPhase {
    match (phase, event) {
        (ClientPhase::Binding, ClientEventModel::Bound) => ClientPhase::AwaitingAddress,
        (
            ClientPhase::AwaitingAddress,
            ClientEventModel::AddressReceived(addresses),
        ) => after_address(addresses),
        (
            ClientPhase::Connecting,
            ClientEventModel::Connected { elapsed_ms, paths },
        ) => ClientPhase::FirstTransfer(
            ContactModel { connect_ms: elapsed_ms, initial_path: path::selected_remote(paths) },
        ),
        (
            ClientPhase::FirstTransfer(contact),
            ClientEventModel::Transferred { outcome, .. },
        ) => after_first_transfer(contact, outcome),
        (
            ClientPhase::Observing(contact, hash),
            ClientEventModel::Observed { direct, paths, elapsed_ms, frames },
        ) => after_observation(
            case,
            ObservationModel {
                contact,
                hash,
                direct,
                path_before_cut: path::selected_remote(paths),
                observed_ms: elapsed_ms,
                frames,
            },
            paths,
        ),
        (
            ClientPhase::RequestingCut(seen),
            ClientEventModel::CutRequested,
        ) => ClientPhase::AwaitingCut(seen),
        (ClientPhase::AwaitingCut(seen), ClientEventModel::CutDone) => ClientPhase::SecondTransfer(
            seen,
        ),
        (
            ClientPhase::SecondTransfer(seen),
            ClientEventModel::Transferred { outcome, paths },
        ) => after_second_transfer(case, seen, outcome, paths),
        (ClientPhase::Finishing(report), ClientEventModel::FinishSent) => ClientPhase::Closing(
            report,
        ),
        (ClientPhase::Closing(report), ClientEventModel::Closed) => ClientPhase::Done(report),
        (phase, ClientEventModel::Failed) => after_failure(phase),
        (phase, _) => phase,
    }
}

/// What the program does next for the dialer.
#[derive(Clone, Copy, PartialEq, Eq, Structural, Debug)]
pub enum ClientAction {
    /// Bind an endpoint, with the lab's relay or without any, opting in to
    /// traversal or not.
    Bind { relay: bool, traversal: bool },
    /// Wait for the server's addresses.
    AwaitAddress { within_ms: u64 },
    /// Connect to the server.
    Connect { within_ms: u64 },
    /// Exchange the payload.
    Transfer { within_ms: u64 },
    /// Watch for a direct path.
    Observe { within_ms: u64 },
    /// Ask for the relay to be cut.
    RequestCut,
    /// Wait until the relay is gone.
    AwaitCut { within_ms: u64 },
    /// Tell the server to finish.
    SendFinish,
    /// Close the endpoint.
    Close,
    /// Nothing is left to do.
    Stop,
}

/// What the dialer does in a phase.
pub open spec fn client_action(case: RelayCase, phase: ClientPhase) -> ClientAction {
    match phase {
        ClientPhase::Binding => ClientAction::Bind { relay: true, traversal: case.client },
        ClientPhase::AwaitingAddress => ClientAction::AwaitAddress { within_ms: SETUP_MS },
        ClientPhase::Connecting => ClientAction::Connect { within_ms: SETUP_MS },
        ClientPhase::FirstTransfer(_) => ClientAction::Transfer { within_ms: TRANSFER_MS },
        ClientPhase::Observing(_, _) => ClientAction::Observe { within_ms: OBSERVE_MS },
        ClientPhase::RequestingCut(_) => ClientAction::RequestCut,
        ClientPhase::AwaitingCut(_) => ClientAction::AwaitCut { within_ms: SETUP_MS },
        ClientPhase::SecondTransfer(_) => ClientAction::Transfer { within_ms: TRANSFER_MS },
        ClientPhase::Finishing(_) => ClientAction::SendFinish,
        ClientPhase::Closing(_) => ClientAction::Close,
        ClientPhase::Done(_) => ClientAction::Stop,
        ClientPhase::Failed(_) => ClientAction::Stop,
    }
}

/// The dialer of a case.
pub struct Client {
    case: RelayCase,
    phase: Phase,
}

impl Client {
    /// The case that the dialer runs.
    pub closed spec fn case(self) -> RelayCase {
        self.case
    }

    /// How far the dialer is.
    pub closed spec fn phase(self) -> ClientPhase {
        self.phase@
    }

    /// Starts the dialer of a case.
    pub fn start(case: RelayCase) -> (client: Client)
        ensures
            client.case() == case,
            client.phase() == ClientPhase::Binding,
    {
        Client { case, phase: Phase::Binding }
    }

    /// Tells what to do next.
    pub fn action(&self) -> (action: ClientAction)
        ensures
            action == client_action(self.case(), self.phase()),
    {
        match &self.phase {
            Phase::Binding => ClientAction::Bind { relay: true, traversal: self.case.client },
            Phase::AwaitingAddress => ClientAction::AwaitAddress { within_ms: SETUP_MS },
            Phase::Connecting => ClientAction::Connect { within_ms: SETUP_MS },
            Phase::FirstTransfer(_) => ClientAction::Transfer { within_ms: TRANSFER_MS },
            Phase::Observing(_, _) => ClientAction::Observe { within_ms: OBSERVE_MS },
            Phase::RequestingCut(_) => ClientAction::RequestCut,
            Phase::AwaitingCut(_) => ClientAction::AwaitCut { within_ms: SETUP_MS },
            Phase::SecondTransfer(_) => ClientAction::Transfer { within_ms: TRANSFER_MS },
            Phase::Finishing(_) => ClientAction::SendFinish,
            Phase::Closing(_) => ClientAction::Close,
            Phase::Done(_) => ClientAction::Stop,
            Phase::Failed(_) => ClientAction::Stop,
        }
    }

    /// Takes note of what happened.
    pub fn advance(self, event: ClientEvent) -> (client: Client)
        ensures
            client.case() == self.case(),
            client.phase() == client_step(self.case(), self.phase(), event@),
    {
        let case = self.case;
        let phase = match (self.phase, event) {
            (Phase::Binding, ClientEvent::Bound) => Phase::AwaitingAddress,
            (Phase::AwaitingAddress, ClientEvent::AddressReceived(addresses)) => {
                if address::is_relay_bootstrap(&addresses) {
                    Phase::Connecting
                } else {
                    Phase::Failed(ClientError::DirectHint)
                }
            },
            (Phase::Connecting, ClientEvent::Connected { elapsed_ms, paths }) => {
                Phase::FirstTransfer(
                    Contact { connect_ms: elapsed_ms, initial_path: path::selected(&paths) },
                )
            },
            (Phase::FirstTransfer(contact), ClientEvent::Transferred { outcome, .. }) => {
                match outcome {
                    Transfer::Intact(hash) => Phase::Observing(contact, hash),
                    Transfer::Broken(error) => Phase::Failed(ClientError::FirstTransfer(error)),
                }
            },
            (
                Phase::Observing(contact, hash),
                ClientEvent::Observed { direct, paths, elapsed_ms, frames },
            ) => {
                judge_observation(
                    case,
                    Observation {
                        contact,
                        hash,
                        direct,
                        path_before_cut: path::selected(&paths),
                        observed_ms: elapsed_ms,
                        frames,
                    },
                    &paths,
                )
            },
            (Phase::RequestingCut(seen), ClientEvent::CutRequested) => Phase::AwaitingCut(seen),
            (Phase::AwaitingCut(seen), ClientEvent::CutDone) => Phase::SecondTransfer(seen),
            (Phase::SecondTransfer(seen), ClientEvent::Transferred { outcome, paths }) => {
                judge_second_transfer(case, seen, outcome, &paths)
            },
            (Phase::Finishing(report), ClientEvent::FinishSent) => Phase::Closing(report),
            (Phase::Closing(report), ClientEvent::Closed) => Phase::Done(report),
            (phase, ClientEvent::Failed) => give_up(phase),
            (phase, _) => phase,
        };
        Client { case, phase }
    }

    /// Gives the end of the dialer, if it has come to one: its report, or why
    /// it gave up.
    pub fn outcome(self) -> (outcome: Option<Result<Report, ClientError>>)
        ensures
            match self.phase() {
                ClientPhase::Done(report) => outcome matches Some(Ok(found)) && found@ == report,
                ClientPhase::Failed(error) => outcome matches Some(Err(found)) && found@ == error,
                _ => outcome is None,
            },
            outcome is Some <==> self.phase() is Done || self.phase() is Failed,
            outcome matches Some(Ok(report)) ==> self.phase() == ClientPhase::Done(report@),
            outcome matches Some(Err(error)) ==> self.phase() == ClientPhase::Failed(error@),
    {
        match self.phase {
            Phase::Done(report) => Some(Ok(report)),
            Phase::Failed(error) => Some(Err(error)),
            _ => None,
        }
    }
}

fn judge_observation(case: RelayCase, seen: Observation, paths: &Vec<PathInfo>) -> (phase: Phase)
    requires
        seen@.path_before_cut == path::selected_remote(path::path_models(paths@)),
    ensures
        phase@ == after_observation(case, seen@, path::path_models(paths@)),
{
    let direct_now = path::direct(paths);
    let as_expected = if case.expected_direct() {
        seen.direct && direct_now
    } else {
        !seen.direct && !direct_now && seen.path_before_cut.is_some()
    };
    if !as_expected {
        return Phase::Failed(ClientError::UnexpectedPath { case, path: seen.path_before_cut });
    }
    if case.has_disabled_peer() && !seen.frames.none() {
        return Phase::Failed(ClientError::TraversalNegotiated);
    }
    Phase::RequestingCut(seen)
}

fn judge_second_transfer(
    case: RelayCase,
    seen: Observation,
    outcome: Transfer,
    paths: &Vec<PathInfo>,
) -> (phase: Phase)
    ensures
        phase@ == after_second_transfer(case, seen@, outcome@, path::path_models(paths@)),
{
    let expected = case.expected_direct();
    let transferred = match &outcome {
        Transfer::Intact(_) => true,
        Transfer::Broken(_) => false,
    };
    if transferred != expected {
        return Phase::Failed(ClientError::UnexpectedTransfer(outcome));
    }
    if expected && !path::direct(paths) {
        return Phase::Failed(ClientError::NotDirect);
    }
    let error = match outcome {
        Transfer::Intact(_) => None,
        Transfer::Broken(error) => Some(error.brief),
    };
    Phase::Finishing(
        Report {
            case,
            connect_ms: seen.contact.connect_ms,
            initial_path: seen.contact.initial_path,
            path_before_cut: seen.path_before_cut,
            direct: seen.direct,
            observed_ms: seen.observed_ms,
            payload_blake2b: seen.hash,
            post_cut_transfer: transferred,
            post_cut_error: error,
            frames: seen.frames,
        },
    )
}

fn give_up(phase: Phase) -> (next: Phase)
    ensures
        next@ == after_failure(phase@),
{
    match phase {
        Phase::Binding => Phase::Failed(ClientError::Outside(ClientStep::Bind)),
        Phase::AwaitingAddress => Phase::Failed(ClientError::Outside(ClientStep::AwaitAddress)),
        Phase::Connecting => Phase::Failed(ClientError::Outside(ClientStep::Connect)),
        Phase::RequestingCut(_) => Phase::Failed(ClientError::CutReceiverGone),
        Phase::AwaitingCut(_) => Phase::Failed(ClientError::Outside(ClientStep::AwaitCut)),
        phase => phase,
    }
}

/// The model of an event keeps its kind and all that the event brings.
pub proof fn law_client_events_are_kept_as_they_are(event: ClientEvent)
    ensures
        match event {
            ClientEvent::Bound => event@ is Bound,
            ClientEvent::AddressReceived(addresses) => event@ matches ClientEventModel::AddressReceived(
                models,
            ) && models == address::address_models(addresses@),
            ClientEvent::Connected { elapsed_ms, paths } => event@ matches ClientEventModel::Connected {
                elapsed_ms: ms,
                paths: models,
            } && ms == elapsed_ms && models == path::path_models(paths@),
            ClientEvent::Transferred { outcome, paths } => event@ matches ClientEventModel::Transferred {
                outcome: model,
                paths: models,
            } && model == outcome@ && models == path::path_models(paths@),
            ClientEvent::Observed { direct, paths, elapsed_ms, frames } => event@ matches ClientEventModel::Observed {
                direct: seen,
                paths: models,
                elapsed_ms: ms,
                frames: counted,
            } && seen == direct && models == path::path_models(paths@) && ms == elapsed_ms
                && counted.add_address_rx == frames.add_address_rx && counted.add_address_tx
                == frames.add_address_tx && counted.reach_out_rx == frames.reach_out_rx
                && counted.reach_out_tx == frames.reach_out_tx,
            ClientEvent::CutRequested => event@ is CutRequested,
            ClientEvent::CutDone => event@ is CutDone,
            ClientEvent::FinishSent => event@ is FinishSent,
            ClientEvent::Closed => event@ is Closed,
            ClientEvent::Failed => event@ is Failed,
        },
{
}

/// The model of an exchange keeps how it went, with its digest or its causes.
pub proof fn law_transfer_is_kept_as_it_is(transfer: Transfer)
    ensures
        match transfer {
            Transfer::Intact(hash) => transfer@ matches TransferModel::Intact(kept) && kept == hash@,
            Transfer::Broken(error) => transfer@ matches TransferModel::Broken { brief, full }
                && brief == error.brief@ && full == error.full@,
        },
{
}

/// The model of a failure keeps its kind and all that comes with it.
pub proof fn law_client_error_is_kept_as_it_is(error: ClientError)
    ensures
        match error {
            ClientError::Outside(step) => error@ == ClientErrorModel::Outside(step),
            ClientError::DirectHint => error@ is DirectHint,
            ClientError::FirstTransfer(cause) => error@ matches ClientErrorModel::FirstTransfer {
                brief,
                full,
            } && brief == cause.brief@ && full == cause.full@,
            ClientError::UnexpectedPath { case, path } => error@ matches ClientErrorModel::UnexpectedPath {
                case: named,
                path: remote,
            } && named == case && remote == text::optional_view(path),
            ClientError::TraversalNegotiated => error@ is TraversalNegotiated,
            ClientError::CutReceiverGone => error@ is CutReceiverGone,
            ClientError::UnexpectedTransfer(transfer) => error@
                == ClientErrorModel::UnexpectedTransfer(transfer@),
            ClientError::NotDirect => error@ is NotDirect,
        },
{
}

/// What the outside reports belongs with a failure at a step outside, where the
/// dialer says nothing itself, and with a failed first exchange. It belongs with
/// no other.
pub proof fn law_outside_causes_belong_to_two_failures(error: ClientErrorModel)
    ensures
        error.text() is None <==> error is Outside,
        error.text() is None ==> error.rests_on_outside(),
        error.text() is Some ==> (error.rests_on_outside() <==> error.text()
            == Some("transfer before relay cutoff"@)),
{
    reveal_strlit("transfer before relay cutoff");
    reveal_strlit("bootstrap must be relay-only");
    reveal_strlit("unexpected direct-path outcome: server=");
    reveal_strlit("disabled peer negotiated traversal");
    reveal_strlit("cut receiver gone");
    reveal_strlit("unexpected transfer after relay cutoff: ");
    reveal_strlit("successful cutoff transfer must use IP");
    let transfer = "transfer before relay cutoff"@;
    assert(transfer[0] == 't');
    assert("bootstrap must be relay-only"@[0] == 'b');
    assert("disabled peer negotiated traversal"@[0] == 'd');
    assert("cut receiver gone"@[0] == 'c');
    assert("successful cutoff transfer must use IP"@[0] == 's');
    if error is UnexpectedPath || error is UnexpectedTransfer {
        assert(error.text()->0[0] == 'u');
    }
}

/// The failures that carry nothing are always said in the same words.
pub proof fn law_plain_failures_have_fixed_words(brief: Seq<char>, full: Seq<char>)
    ensures
        ClientErrorModel::DirectHint.text() == Some("bootstrap must be relay-only"@),
        (ClientErrorModel::FirstTransfer { brief, full }).text() == Some(
            "transfer before relay cutoff"@,
        ),
        ClientErrorModel::TraversalNegotiated.text() == Some("disabled peer negotiated traversal"@),
        ClientErrorModel::CutReceiverGone.text() == Some("cut receiver gone"@),
        ClientErrorModel::NotDirect.text() == Some("successful cutoff transfer must use IP"@),
{
}

/// What is said of an unexpected exchange ends with the exchange itself: the
/// digest as a quoted literal within `Ok()`, or all of the causes within `Err()`.
pub proof fn law_unexpected_exchange_is_described(hash: Seq<char>, brief: Seq<char>, full: Seq<char>)
    ensures
        ClientErrorModel::UnexpectedTransfer(TransferModel::Intact(hash)).text() == Some(
            "unexpected transfer after relay cutoff: Ok("@ + text::debug_literal(hash) + seq![')'],
        ),
        ClientErrorModel::UnexpectedTransfer(TransferModel::Broken { brief, full }).text() == Some(
            "unexpected transfer after relay cutoff: Err("@ + full + seq![')'],
        ),
{
    reveal_strlit("unexpected transfer after relay cutoff: ");
    reveal_strlit("unexpected transfer after relay cutoff: Ok(");
    reveal_strlit("unexpected transfer after relay cutoff: Err(");
    reveal_strlit("Ok(");
    reveal_strlit("Err(");
    reveal_strlit(")");
    let good = ClientErrorModel::UnexpectedTransfer(TransferModel::Intact(hash)).text()->0;
    let bad = ClientErrorModel::UnexpectedTransfer(TransferModel::Broken { brief, full }).text()->0;
    assert(good =~= "unexpected transfer after relay cutoff: Ok("@ + text::debug_literal(hash)
        + seq![')']);
    assert(bad =~= "unexpected transfer after relay cutoff: Err("@ + full + seq![')']);
}

/// What is said of an unexpected path names each setting of the case by its own
/// label, and ends with the selected remote address.
pub proof fn law_unexpected_path_is_described(case: RelayCase, path: Option<Seq<char>>)
    ensures
        ({
            let said = (ClientErrorModel::UnexpectedPath { case, path }).text();
            let remote = text::optional_literal(path);
            &&& !case.server && !case.client && !case.udp_blocked ==> said == Some(
                "unexpected direct-path outcome: server=false client=false blocked=false path="@
                    + remote,
            )
            &&& !case.server && !case.client && case.udp_blocked ==> said == Some(
                "unexpected direct-path outcome: server=false client=false blocked=true path="@
                    + remote,
            )
            &&& !case.server && case.client && !case.udp_blocked ==> said == Some(
                "unexpected direct-path outcome: server=false client=true blocked=false path="@
                    + remote,
            )
            &&& !case.server && case.client && case.udp_blocked ==> said == Some(
                "unexpected direct-path outcome: server=false client=true blocked=true path="@
                    + remote,
            )
            &&& case.server && !case.client && !case.udp_blocked ==> said == Some(
                "unexpected direct-path outcome: server=true client=false blocked=false path="@
                    + remote,
            )
            &&& case.server && !case.client && case.udp_blocked ==> said == Some(
                "unexpected direct-path outcome: server=true client=false blocked=true path="@
                    + remote,
            )
            &&& case.server && case.client && !case.udp_blocked ==> said == Some(
                "unexpected direct-path outcome: server=true client=true blocked=false path="@
                    + remote,
            )
            &&& case.server && case.client && case.udp_blocked ==> said == Some(
                "unexpected direct-path outcome: server=true client=true blocked=true path="@
                    + remote,
            )
        }),
{
    reveal_strlit("true");
    reveal_strlit("false");
    reveal_strlit("unexpected direct-path outcome: server=");
    reveal_strlit(" client=");
    reveal_strlit(" blocked=");
    reveal_strlit(" path=");
    let said = (ClientErrorModel::UnexpectedPath { case, path }).text()->0;
    let remote = text::optional_literal(path);
    if case.server {
        if case.client {
            if case.udp_blocked {
                reveal_strlit(
                    "unexpected direct-path outcome: server=true client=true blocked=true path=",
                );
                assert(said
                    =~= "unexpected direct-path outcome: server=true client=true blocked=true path="@
                    + remote);
            } else {
                reveal_strlit(
                    "unexpected direct-path outcome: server=true client=true blocked=false path=",
                );
                assert(said
                    =~= "unexpected direct-path outcome: server=true client=true blocked=false path="@
                    + remote);
            }
        } else if case.udp_blocked {
            reveal_strlit(
                "unexpected direct-path outcome: server=true client=false blocked=true path=",
            );
            assert(said
                =~= "unexpected direct-path outcome: server=true client=false blocked=true path="@
                + remote);
        } else {
            reveal_strlit(
                "unexpected direct-path outcome: server=true client=false blocked=false path=",
            );
            assert(said
                =~= "unexpected direct-path outcome: server=true client=false blocked=false path="@
                + remote);
        }
    } else if case.client {
        if case.udp_blocked {
            reveal_strlit(
                "unexpected direct-path outcome: server=false client=true blocked=true path=",
            );
            assert(said
                =~= "unexpected direct-path outcome: server=false client=true blocked=true path="@
                + remote);
        } else {
            reveal_strlit(
                "unexpected direct-path outcome: server=false client=true blocked=false path=",
            );
            assert(said
                =~= "unexpected direct-path outcome: server=false client=true blocked=false path="@
                + remote);
        }
    } else if case.udp_blocked {
        reveal_strlit(
            "unexpected direct-path outcome: server=false client=false blocked=true path=",
        );
        assert(said
            =~= "unexpected direct-path outcome: server=false client=false blocked=true path="@
            + remote);
    } else {
        reveal_strlit(
            "unexpected direct-path outcome: server=false client=false blocked=false path=",
        );
        assert(said
            =~= "unexpected direct-path outcome: server=false client=false blocked=false path="@
            + remote);
    }
}

} // verus!
