//! What holds of every run of the dialer, whatever happens to it.

use vstd::prelude::*;

#[allow(unused_imports)]
use crate::address;
#[allow(unused_imports)]
use crate::address::AddressModel;
#[allow(unused_imports)]
use crate::case::RelayCase;
#[allow(unused_imports)]
use crate::client;
#[allow(unused_imports)]
use crate::client::{
    ClientAction, ClientErrorModel, ClientEventModel, ClientPhase, ClientStep, ContactModel,
    ObservationModel, TransferModel,
};
#[allow(unused_imports)]
use crate::path;
#[allow(unused_imports)]
use crate::path::PathModel;
#[allow(unused_imports)]
use crate::report::{FrameCounts, ReportModel};
#[allow(unused_imports)]
use crate::transfer;
#[allow(unused_imports)]
use crate::transfer::ReplyError;

verus! {

/// Where the dialer of a case stands after a series of events.
pub open spec fn client_run(case: RelayCase, events: Seq<ClientEventModel>) -> ClientPhase
    decreases events.len(),
{
    if events.len() == 0 {
        ClientPhase::Binding
    } else {
        client::client_step(case, client_run(case, events.drop_last()), events.last())
    }
}

/// The report that a phase carries, if any.
pub open spec fn report_in(phase: ClientPhase) -> Option<ReportModel> {
    match phase {
        ClientPhase::Finishing(report) => Some(report),
        ClientPhase::Closing(report) => Some(report),
        ClientPhase::Done(report) => Some(report),
        _ => None,
    }
}

/// The observation that a phase carries, if any.
pub open spec fn observation_in(phase: ClientPhase) -> Option<ObservationModel> {
    match phase {
        ClientPhase::RequestingCut(seen) => Some(seen),
        ClientPhase::AwaitingCut(seen) => Some(seen),
        ClientPhase::SecondTransfer(seen) => Some(seen),
        _ => None,
    }
}

/// Whether an event is an exchange that brought the payload back with this
/// digest.
pub open spec fn is_intact(event: ClientEventModel, hash: Seq<char>) -> bool {
    event matches ClientEventModel::Transferred { outcome, .. } && outcome == TransferModel::Intact(
        hash,
    )
}

/// Whether an event is an observation that agrees with a case, with this
/// selected remote address.
pub open spec fn is_agreeing(
    case: RelayCase,
    event: ClientEventModel,
    remote: Option<Seq<char>>,
) -> bool {
    event matches ClientEventModel::Observed { direct, paths, frames, .. }
        && client::path_as_expected(case, direct, paths) && (case.some_peer_disabled()
        ==> frames.all_zero()) && remote == path::selected_remote(paths)
}

/// Whether a payload came back, with this digest, and an agreeing observation
/// followed, with this selected remote address.
pub open spec fn seen_before_cut(
    case: RelayCase,
    events: Seq<ClientEventModel>,
    hash: Seq<char>,
    remote: Option<Seq<char>>,
) -> bool {
    exists|i: int, j: int|
        0 <= i < j < events.len() && is_intact(#[trigger] events[i], hash) && is_agreeing(
            case,
            #[trigger] events[j],
            remote,
        )
}

/// Whether an event is the exchange after the cut that a report rests on.
pub open spec fn is_final_exchange(
    case: RelayCase,
    event: ClientEventModel,
    report: ReportModel,
) -> bool {
    event matches ClientEventModel::Transferred { outcome, paths } && (outcome is Intact)
        == case.expects_direct() && (case.expects_direct() ==> path::is_direct(paths))
        && report.post_cut_transfer == (outcome is Intact) && (outcome matches TransferModel::Broken { brief, .. } ==> report.post_cut_error
        == Some(brief)) && (outcome is Intact ==> report.post_cut_error is None)
}

/// Whether the relay was gone at some point, and the exchange that a report
/// rests on came later.
pub open spec fn exchanged_after_cut(
    case: RelayCase,
    events: Seq<ClientEventModel>,
    report: ReportModel,
) -> bool {
    exists|i: int, j: int|
        0 <= i < j < events.len() && #[trigger] events[i] is CutDone && is_final_exchange(
            case,
            #[trigger] events[j],
            report,
        )
}

/// Whether the relay was gone at some point.
pub open spec fn cut_done(events: Seq<ClientEventModel>) -> bool {
    exists|i: int| 0 <= i < events.len() && #[trigger] events[i] is CutDone
}

/// What the past must look like for the dialer to stand where it stands.
spec fn accounted_for(case: RelayCase, events: Seq<ClientEventModel>, phase: ClientPhase) -> bool {
    &&& phase matches ClientPhase::Observing(_, hash) ==> exists|i: int|
        0 <= i < events.len() && is_intact(#[trigger] events[i], hash)
    &&& observation_in(phase) matches Some(seen) ==> seen_before_cut(
        case,
        events,
        seen.hash,
        seen.path_before_cut,
    ) && seen.direct == case.expects_direct() && (case.some_peer_disabled()
        ==> seen.frames.all_zero())
    &&& phase is SecondTransfer ==> cut_done(events)
    &&& report_in(phase) matches Some(report) ==> seen_before_cut(
        case,
        events,
        report.payload_blake2b,
        report.path_before_cut,
    ) && exchanged_after_cut(case, events, report) && report.case == case && report.direct
        == case.expects_direct() && (case.some_peer_disabled() ==> report.frames.all_zero())
}

proof fn lemma_accounted_for(case: RelayCase, events: Seq<ClientEventModel>)
    ensures
        accounted_for(case, events, client_run(case, events)),
    decreases events.len(),
{
    if events.len() > 0 {
        let past = events.drop_last();
        let event = events.last();
        let last = events.len() - 1;
        lemma_accounted_for(case, past);
        let before = client_run(case, past);
        let phase = client_run(case, events);
        assert(events[last] == event);
        assert(forall|i: int| 0 <= i < past.len() ==> past[i] == #[trigger] events[i]);
        if let ClientPhase::Observing(_, hash) = phase {
            if before is FirstTransfer {
                assert(is_intact(events[last], hash));
            } else {
                let i = choose|i: int|
                    0 <= i < past.len() && is_intact(#[trigger] past[i], hash);
                assert(is_intact(events[i], hash));
            }
        }
        if let Some(seen) = observation_in(phase) {
            if before is Observing {
                let i = choose|i: int|
                    0 <= i < past.len() && is_intact(#[trigger] past[i], seen.hash);
                assert(is_intact(events[i], seen.hash));
                assert(is_agreeing(case, events[last], seen.path_before_cut));
            } else {
                lemma_seen_before_cut_lasts(case, past, event, seen.hash, seen.path_before_cut);
            }
            assert(events == past.push(event));
        }
        if phase is SecondTransfer {
            if before is AwaitingCut {
                assert(events[last] is CutDone);
            } else {
                let i = choose|i: int| 0 <= i < past.len() && #[trigger] past[i] is CutDone;
                assert(events[i] is CutDone);
            }
        }
        if let Some(report) = report_in(phase) {
            lemma_seen_before_cut_lasts(
                case,
                past,
                event,
                report.payload_blake2b,
                report.path_before_cut,
            );
            assert(events == past.push(event));
            if before is SecondTransfer {
                let i = choose|i: int| 0 <= i < past.len() && #[trigger] past[i] is CutDone;
                assert(events[i] is CutDone);
                assert(is_final_exchange(case, events[last], report));
            } else {
                let (i, j) = choose|i: int, j: int|
                    0 <= i < j < past.len() && #[trigger] past[i] is CutDone && is_final_exchange(
                        case,
                        #[trigger] past[j],
                        report,
                    );
                assert(events[i] is CutDone && is_final_exchange(case, events[j], report));
            }
        }
    }
}

proof fn lemma_seen_before_cut_lasts(
    case: RelayCase,
    past: Seq<ClientEventModel>,
    event: ClientEventModel,
    hash: Seq<char>,
    remote: Option<Seq<char>>,
)
    requires
        seen_before_cut(case, past, hash, remote),
    ensures
        seen_before_cut(case, past.push(event), hash, remote),
{
    let (i, j) = choose|i: int, j: int|
        0 <= i < j < past.len() && is_intact(#[trigger] past[i], hash) && is_agreeing(
            case,
            #[trigger] past[j],
            remote,
        );
    let events = past.push(event);
    assert(is_intact(events[i], hash) && is_agreeing(case, events[j], remote));
}

/// A report always says what the case expects: a direct path, and an exchange
/// that outlives the relay, exactly if both peers opted in and UDP got through.
/// Where a peer has traversal disabled, no traversal frame was seen. The path
/// before the cut is always there, and comes from an observation whose selected
/// path was the expected one: straight to an IP address, or on the relay.
pub proof fn law_report_meets_expectation(
    case: RelayCase,
    events: Seq<ClientEventModel>,
    report: ReportModel,
)
    requires
        client_run(case, events) == ClientPhase::Done(report),
    ensures
        report.case == case,
        report.direct == case.expects_direct(),
        report.post_cut_transfer == case.expects_direct(),
        report.post_cut_error is None <==> case.expects_direct(),
        case.some_peer_disabled() ==> report.frames.all_zero(),
        report.path_before_cut is Some,
        exists|i: int|
            0 <= i < events.len() && (#[trigger] events[i] matches ClientEventModel::Observed {
                paths,
                ..
            } && report.path_before_cut == path::selected_remote(paths) && (if case.expects_direct() {
                path::is_direct(paths)
            } else {
                path::is_relayed(paths)
            })),
{
    lemma_accounted_for(case, events);
    let (i, j) = choose|i: int, j: int|
        0 <= i < j < events.len() && #[trigger] events[i] is CutDone && is_final_exchange(
            case,
            #[trigger] events[j],
            report,
        );
    assert(is_final_exchange(case, events[j], report));
    let (k, l) = choose|k: int, l: int|
        0 <= k < l < events.len() && is_intact(#[trigger] events[k], report.payload_blake2b)
            && is_agreeing(case, #[trigger] events[l], report.path_before_cut);
    assert(is_agreeing(case, events[l], report.path_before_cut));
    if let ClientEventModel::Observed { paths, .. } = events[l] {
        if case.expects_direct() {
            path::law_direct_has_remote(paths);
        }
    }
}

/// Every report rests on an exchange that came after the relay was gone, and that
/// went as the case expects.
pub proof fn law_report_rests_on_exchange_after_cut(
    case: RelayCase,
    events: Seq<ClientEventModel>,
    report: ReportModel,
)
    requires
        client_run(case, events) == ClientPhase::Done(report),
    ensures
        exchanged_after_cut(case, events, report),
{
    lemma_accounted_for(case, events);
}

/// A transfer over the relay is never counted as hole punching: where a report
/// claims a direct path, the payload came back once more after the relay was
/// gone, and on a selected path that leads straight to an IP address.
pub proof fn law_relay_transfer_is_no_hole_punch(
    case: RelayCase,
    events: Seq<ClientEventModel>,
    report: ReportModel,
)
    requires
        client_run(case, events) == ClientPhase::Done(report),
        report.direct,
    ensures
        exists|cut: int, again: int|
            0 <= cut < again < events.len() && #[trigger] events[cut] is CutDone && (
            #[trigger] events[again] matches ClientEventModel::Transferred { outcome, paths }
                && outcome is Intact && path::is_direct(paths)),
{
    lemma_accounted_for(case, events);
    let (i, j) = choose|i: int, j: int|
        0 <= i < j < events.len() && #[trigger] events[i] is CutDone && is_final_exchange(
            case,
            #[trigger] events[j],
            report,
        );
    assert(events[i] is CutDone);
    assert(is_final_exchange(case, events[j], report));
}

/// The relay is cut only after the payload came back through it and the path
/// was found to be as the case expects.
pub proof fn law_cut_follows_observation(case: RelayCase, events: Seq<ClientEventModel>)
    requires
        client::client_action(case, client_run(case, events)) is RequestCut,
    ensures
        exists|hash: Seq<char>, remote: Option<Seq<char>>| #[trigger]
            seen_before_cut(case, events, hash, remote),
{
    lemma_accounted_for(case, events);
    let seen = observation_in(client_run(case, events))->0;
    assert(seen_before_cut(case, events, seen.hash, seen.path_before_cut));
}

/// The digest that a report gives is that of a payload which came back before
/// the relay was cut.
pub proof fn law_report_digest_was_received(
    case: RelayCase,
    events: Seq<ClientEventModel>,
    report: ReportModel,
)
    requires
        client_run(case, events) == ClientPhase::Done(report),
    ensures
        exists|i: int|
            0 <= i < events.len() && is_intact(#[trigger] events[i], report.payload_blake2b),
{
    lemma_accounted_for(case, events);
    let (i, j) = choose|i: int, j: int|
        0 <= i < j < events.len() && is_intact(#[trigger] events[i], report.payload_blake2b)
            && is_agreeing(case, #[trigger] events[j], report.path_before_cut);
    assert(is_intact(events[i], report.payload_blake2b));
}

/// Whether this is what checking some reply to the payload gives as its digest.
pub open spec fn checked_digest(hash: Seq<char>) -> bool {
    exists|reply: Seq<u8>| #[trigger]
        transfer::reply_verdict(
            reply.len(),
            transfer::blake2b_digest(reply),
            transfer::blake2b_digest(transfer::payload_bytes()),
        ) == Ok::<Seq<char>, ReplyError>(hash)
}

/// Where every exchange that brought the payload back gave what checking its
/// reply gives, a report gives the digest of the payload.
pub proof fn law_report_gives_the_payload_digest(
    case: RelayCase,
    events: Seq<ClientEventModel>,
    report: ReportModel,
)
    requires
        client_run(case, events) == ClientPhase::Done(report),
        forall|i: int, hash: Seq<char>|
            0 <= i < events.len() && #[trigger] is_intact(events[i], hash) ==> checked_digest(hash),
    ensures
        report.payload_blake2b == transfer::lower_hex(
            transfer::blake2b_digest(transfer::payload_bytes()),
        ),
{
    law_report_digest_was_received(case, events, report);
    let i = choose|i: int|
        0 <= i < events.len() && is_intact(#[trigger] events[i], report.payload_blake2b);
    assert(is_intact(events[i], report.payload_blake2b));
}

/// A dialer that has reported or given up stays as it is.
pub proof fn law_end_is_final(case: RelayCase, phase: ClientPhase, event: ClientEventModel)
    requires
        phase is Done || phase is Failed,
    ensures
        client::client_step(case, phase, event) == phase,
        client::client_action(case, phase) is Stop,
{
}

/// The events of a run in which nothing fails.
pub open spec fn smooth_run(
    addresses: Seq<AddressModel>,
    connect_ms: u128,
    first_paths: Seq<PathModel>,
    hash: Seq<char>,
    paths_between: Seq<PathModel>,
    direct: bool,
    paths_observed: Seq<PathModel>,
    observed_ms: u128,
    frames: FrameCounts,
    outcome: TransferModel,
    last_paths: Seq<PathModel>,
) -> Seq<ClientEventModel> {
    seq![
        ClientEventModel::Bound,
        ClientEventModel::AddressReceived(addresses),
        ClientEventModel::Connected { elapsed_ms: connect_ms, paths: first_paths },
        ClientEventModel::Transferred {
            outcome: TransferModel::Intact(hash),
            paths: paths_between,
        },
        ClientEventModel::Observed {
            direct,
            paths: paths_observed,
            elapsed_ms: observed_ms,
            frames,
        },
        ClientEventModel::CutRequested,
        ClientEventModel::CutDone,
        ClientEventModel::Transferred { outcome, paths: last_paths },
        ClientEventModel::FinishSent,
        ClientEventModel::Closed,
    ]
}

/// Where what happens is what the case expects, the dialer does report, and the
/// report says what happened.
pub proof fn law_expected_run_is_reported(
    case: RelayCase,
    addresses: Seq<AddressModel>,
    connect_ms: u128,
    first_paths: Seq<PathModel>,
    hash: Seq<char>,
    paths_between: Seq<PathModel>,
    direct: bool,
    paths_observed: Seq<PathModel>,
    observed_ms: u128,
    frames: FrameCounts,
    outcome: TransferModel,
    last_paths: Seq<PathModel>,
)
    requires
        address::lacks_ip(addresses),
        client::path_as_expected(case, direct, paths_observed),
        case.some_peer_disabled() ==> frames.all_zero(),
        (outcome is Intact) == case.expects_direct(),
        case.expects_direct() ==> path::is_direct(last_paths),
    ensures
        client_run(
            case,
            smooth_run(
                addresses,
                connect_ms,
                first_paths,
                hash,
                paths_between,
                direct,
                paths_observed,
                observed_ms,
                frames,
                outcome,
                last_paths,
            ),
        ) == ClientPhase::Done(
            client::report_of(
                case,
                ObservationModel {
                    contact: ContactModel {
                        connect_ms,
                        initial_path: path::selected_remote(first_paths),
                    },
                    hash,
                    direct,
                    path_before_cut: path::selected_remote(paths_observed),
                    observed_ms,
                    frames,
                },
                outcome,
            ),
        ),
{
    let events = smooth_run(
        addresses,
        connect_ms,
        first_paths,
        hash,
        paths_between,
        direct,
        paths_observed,
        observed_ms,
        frames,
        outcome,
        last_paths,
    );
    let contact = ContactModel { connect_ms, initial_path: path::selected_remote(first_paths) };
    let seen = ObservationModel {
        contact,
        hash,
        direct,
        path_before_cut: path::selected_remote(paths_observed),
        observed_ms,
        frames,
    };
    let report = client::report_of(case, seen, outcome);
    assert(client_run(case, events.take(0)) == ClientPhase::Binding);
    assert(events.take(1).drop_last() =~= events.take(0));
    assert(client_run(case, events.take(1)) == ClientPhase::AwaitingAddress);
    assert(events.take(2).drop_last() =~= events.take(1));
    assert(client_run(case, events.take(2)) == ClientPhase::Connecting);
    assert(events.take(3).drop_last() =~= events.take(2));
    assert(client_run(case, events.take(3)) == ClientPhase::FirstTransfer(contact));
    assert(events.take(4).drop_last() =~= events.take(3));
    assert(client_run(case, events.take(4)) == ClientPhase::Observing(contact, hash));
    assert(events.take(5).drop_last() =~= events.take(4));
    assert(client_run(case, events.take(5)) == ClientPhase::RequestingCut(seen));
    assert(events.take(6).drop_last() =~= events.take(5));
    assert(client_run(case, events.take(6)) == ClientPhase::AwaitingCut(seen));
    assert(events.take(7).drop_last() =~= events.take(6));
    assert(client_run(case, events.take(7)) == ClientPhase::SecondTransfer(seen));
    assert(events.take(8).drop_last() =~= events.take(7));
    assert(client_run(case, events.take(8)) == ClientPhase::Finishing(report));
    assert(events.take(9).drop_last() =~= events.take(8));
    assert(client_run(case, events.take(9)) == ClientPhase::Closing(report));
    assert(events.drop_last() =~= events.take(9));
}

/// Whenever the dialer binds an endpoint, it does so with the relay, and opts in
/// to traversal by its own setting. The server's setting and the fate of UDP make
/// no difference to anything the dialer does.
pub proof fn law_dialer_binds_by_its_own_setting(
    case: RelayCase,
    other: RelayCase,
    phase: ClientPhase,
)
    ensures
        client::client_action(case, phase) matches ClientAction::Bind { relay, traversal } ==> relay
            && traversal == case.client,
        client::client_action(case, ClientPhase::Binding) is Bind,
        case.client == other.client ==> client::client_action(case, phase)
            == client::client_action(other, phase),
{
}

/// The dialer gives each step its time: eight seconds to an exchange, ten to the
/// watch, and thirty to whatever else it waits for.
pub proof fn law_dialer_deadlines(case: RelayCase, phase: ClientPhase)
    ensures
        client::client_action(case, phase) matches ClientAction::Transfer { within_ms }
            ==> within_ms == 8_000,
        client::client_action(case, phase) matches ClientAction::Observe { within_ms } ==> within_ms
            == 10_000,
        client::client_action(case, phase) matches ClientAction::AwaitAddress { within_ms }
            ==> within_ms == 30_000,
        client::client_action(case, phase) matches ClientAction::Connect { within_ms } ==> within_ms
            == 30_000,
        client::client_action(case, phase) matches ClientAction::AwaitCut { within_ms }
            ==> within_ms == 30_000,
{
}

/// An event moves the dialer exactly if it answers what the dialer is doing.
pub proof fn law_dialer_heeds_answers_alone(
    case: RelayCase,
    phase: ClientPhase,
    event: ClientEventModel,
)
    ensures
        client::client_step(case, phase, event) != phase <==> (match client::client_action(
            case,
            phase,
        ) {
            ClientAction::Bind { .. } => event is Bound || event is Failed,
            ClientAction::AwaitAddress { .. } => event is AddressReceived || event is Failed,
            ClientAction::Connect { .. } => event is Connected || event is Failed,
            ClientAction::Transfer { .. } => event is Transferred,
            ClientAction::Observe { .. } => event is Observed,
            ClientAction::RequestCut => event is CutRequested || event is Failed,
            ClientAction::AwaitCut { .. } => event is CutDone || event is Failed,
            ClientAction::SendFinish => event is FinishSent,
            ClientAction::Close => event is Closed,
            ClientAction::Stop => false,
        }),
{
}

/// A dialer that moves and does not fail moves one step down the line: bind, get
/// the address, connect, exchange, watch, have the relay cut, exchange again, say
/// so, close.
pub proof fn law_dialer_goes_in_order(
    case: RelayCase,
    phase: ClientPhase,
    event: ClientEventModel,
)
    requires
        client::client_step(case, phase, event) != phase,
        !(client::client_step(case, phase, event) is Failed),
    ensures
        phase is Binding <==> client::client_step(case, phase, event) is AwaitingAddress,
        phase is AwaitingAddress <==> client::client_step(case, phase, event) is Connecting,
        phase is Connecting <==> client::client_step(case, phase, event) is FirstTransfer,
        phase is FirstTransfer <==> client::client_step(case, phase, event) is Observing,
        phase is Observing <==> client::client_step(case, phase, event) is RequestingCut,
        phase is RequestingCut <==> client::client_step(case, phase, event) is AwaitingCut,
        phase is AwaitingCut <==> client::client_step(case, phase, event) is SecondTransfer,
        phase is SecondTransfer <==> client::client_step(case, phase, event) is Finishing,
        phase is Finishing <==> client::client_step(case, phase, event) is Closing,
        phase is Closing <==> client::client_step(case, phase, event) is Done,
        !(client::client_step(case, phase, event) is Binding),
{
}

/// The dialer refuses addresses exactly if one of them is a socket address of the
/// server, and connects with any others, even with none.
pub proof fn law_dialer_refuses_direct_hints(case: RelayCase, addresses: Seq<AddressModel>)
    ensures
        (exists|i: int| 0 <= i < addresses.len() && (#[trigger] addresses[i]) is Ip)
            ==> client::client_step(
            case,
            ClientPhase::AwaitingAddress,
            ClientEventModel::AddressReceived(addresses),
        ) == ClientPhase::Failed(ClientErrorModel::DirectHint),
        (forall|i: int| 0 <= i < addresses.len() ==> !((#[trigger] addresses[i]) is Ip))
            ==> client::client_step(
            case,
            ClientPhase::AwaitingAddress,
            ClientEventModel::AddressReceived(addresses),
        ) is Connecting,
{
}

/// The first exchange decides by itself, whatever the case and the paths: the
/// payload came back and its digest is kept, or the dialer fails with the causes
/// that the exchange gave.
pub proof fn law_first_exchange_must_succeed(
    case: RelayCase,
    contact: ContactModel,
    outcome: TransferModel,
    paths: Seq<PathModel>,
)
    ensures
        ({
            let next = client::client_step(
                case,
                ClientPhase::FirstTransfer(contact),
                ClientEventModel::Transferred { outcome, paths },
            );
            &&& outcome matches TransferModel::Intact(hash) ==> (next matches ClientPhase::Observing(
                kept,
                digest,
            ) && kept == contact && digest == hash)
            &&& outcome matches TransferModel::Broken { brief, full } ==> next
                == ClientPhase::Failed(ClientErrorModel::FirstTransfer { brief, full })
        }),
{
}

/// The watch is judged by the row of the table. With both peers opted in and UDP
/// allowed, a direct path must have been seen and still be selected. In every
/// other row none may have been seen, and the connection must send on some path
/// and on none to an IP address. Where a peer has traversal disabled, not one
/// frame of it may have gone either way. The relay is cut exactly if all that
/// holds, a wrong path is reported before a wrong frame, and with the selected
/// remote address.
pub proof fn law_watch_is_judged_by_the_row(
    case: RelayCase,
    contact: ContactModel,
    hash: Seq<char>,
    direct: bool,
    paths: Seq<PathModel>,
    elapsed_ms: u128,
    frames: FrameCounts,
)
    ensures
        ({
            let next = client::client_step(
                case,
                ClientPhase::Observing(contact, hash),
                ClientEventModel::Observed { direct, paths, elapsed_ms, frames },
            );
            let some_selected = exists|i: int|
                0 <= i < paths.len() && (#[trigger] paths[i]).selected;
            let some_direct = exists|i: int|
                0 <= i < paths.len() && (#[trigger] paths[i]).selected && paths[i].ip;
            let good_path = if case.server && case.client && !case.udp_blocked {
                direct && some_direct
            } else {
                !direct && some_selected && !some_direct
            };
            let good_frames = case.server && case.client || (frames.add_address_rx == 0
                && frames.add_address_tx == 0 && frames.reach_out_rx == 0 && frames.reach_out_tx
                == 0);
            &&& next is RequestingCut <==> good_path && good_frames
            &&& !good_path ==> next == ClientPhase::Failed(
                ClientErrorModel::UnexpectedPath { case, path: path::selected_remote(paths) },
            )
            &&& good_path && !good_frames ==> next == ClientPhase::Failed(
                ClientErrorModel::TraversalNegotiated,
            )
        }),
{
    path::law_selected_remote_is_first(paths);
}

/// The second exchange is judged by the row of the table: with both peers opted
/// in and UDP allowed it must succeed, and on a selected path to an IP address. In
/// every other row it must fail, on whatever path. A report comes exactly if that
/// holds.
pub proof fn law_second_exchange_is_judged_by_the_row(
    case: RelayCase,
    seen: ObservationModel,
    outcome: TransferModel,
    paths: Seq<PathModel>,
)
    ensures
        ({
            let next = client::client_step(
                case,
                ClientPhase::SecondTransfer(seen),
                ClientEventModel::Transferred { outcome, paths },
            );
            let must_succeed = case.server && case.client && !case.udp_blocked;
            let some_direct = exists|i: int|
                0 <= i < paths.len() && (#[trigger] paths[i]).selected && paths[i].ip;
            &&& next is Finishing <==> if must_succeed {
                outcome is Intact && some_direct
            } else {
                outcome is Broken
            }
            &&& (outcome is Intact) != must_succeed ==> next == ClientPhase::Failed(
                ClientErrorModel::UnexpectedTransfer(outcome),
            )
            &&& outcome is Intact && must_succeed && !some_direct ==> next == ClientPhase::Failed(
                ClientErrorModel::NotDirect,
            )
        }),
{
}

/// What fails outside fails the dialer with the step that it was at, where it
/// waits for something that can fail. An exchange, the watch and the farewell do
/// not fail in that way.
pub proof fn law_outside_failure_names_the_step(case: RelayCase, phase: ClientPhase)
    ensures
        ({
            let next = client::client_step(case, phase, ClientEventModel::Failed);
            &&& phase is Binding ==> next == ClientPhase::Failed(
                ClientErrorModel::Outside(ClientStep::Bind),
            )
            &&& phase is AwaitingAddress ==> next == ClientPhase::Failed(
                ClientErrorModel::Outside(ClientStep::AwaitAddress),
            )
            &&& phase is Connecting ==> next == ClientPhase::Failed(
                ClientErrorModel::Outside(ClientStep::Connect),
            )
            &&& phase is RequestingCut ==> next == ClientPhase::Failed(
                ClientErrorModel::CutReceiverGone,
            )
            &&& phase is AwaitingCut ==> next == ClientPhase::Failed(
                ClientErrorModel::Outside(ClientStep::AwaitCut),
            )
            &&& next is Failed && !(phase is Failed) ==> (phase is Binding
                || phase is AwaitingAddress || phase is Connecting || phase is RequestingCut
                || phase is AwaitingCut)
        }),
{
}

/// The dialer gives up only over a failure outside, over addresses, over an
/// exchange or over the watch. Binding, connecting, the cut and the farewell never
/// fail it when they succeed.
pub proof fn law_dialer_fails_for_cause_alone(
    case: RelayCase,
    phase: ClientPhase,
    event: ClientEventModel,
)
    requires
        !(phase is Failed),
        client::client_step(case, phase, event) is Failed,
    ensures
        event is Failed || event is AddressReceived || event is Transferred || event is Observed,
{
}

/// Whether the dialer, while it was connecting, met this connection: its time and
/// the remote address of its first selected path.
pub open spec fn connected_at(
    case: RelayCase,
    events: Seq<ClientEventModel>,
    at: int,
    connect_ms: u128,
    initial_path: Option<Seq<char>>,
) -> bool {
    &&& 0 <= at < events.len()
    &&& client_run(case, events.take(at)) is Connecting
    &&& events[at] matches ClientEventModel::Connected { elapsed_ms, paths }
    &&& elapsed_ms == connect_ms
    &&& path::selected_remote(paths) == initial_path
}

/// Whether the dialer's first exchange brought the payload back, with this digest.
pub open spec fn exchanged_at(
    case: RelayCase,
    events: Seq<ClientEventModel>,
    at: int,
    hash: Seq<char>,
) -> bool {
    &&& 0 <= at < events.len()
    &&& client_run(case, events.take(at)) is FirstTransfer
    &&& is_intact(events[at], hash)
}

/// Whether the dialer's watch ended like this.
pub open spec fn observed_at(
    case: RelayCase,
    events: Seq<ClientEventModel>,
    at: int,
    saw_direct: bool,
    remote: Option<Seq<char>>,
    observed_ms: u128,
    counted: FrameCounts,
) -> bool {
    &&& 0 <= at < events.len()
    &&& client_run(case, events.take(at)) is Observing
    &&& events[at] matches ClientEventModel::Observed { direct, paths, elapsed_ms, frames }
    &&& direct == saw_direct
    &&& path::selected_remote(paths) == remote
    &&& elapsed_ms == observed_ms
    &&& frames == counted
}

/// Whether the dialer heard here that the relay is gone, while it waited for that.
pub open spec fn heard_of_cut_at(
    case: RelayCase,
    events: Seq<ClientEventModel>,
    at: int,
) -> bool {
    &&& 0 <= at < events.len()
    &&& client_run(case, events.take(at)) is AwaitingCut
    &&& events[at] is CutDone
}

/// Whether the dialer's second exchange succeeded, or failed with this cause.
pub open spec fn exchanged_again_at(
    case: RelayCase,
    events: Seq<ClientEventModel>,
    at: int,
    succeeded: bool,
    cause: Option<Seq<char>>,
) -> bool {
    &&& 0 <= at < events.len()
    &&& client_run(case, events.take(at)) is SecondTransfer
    &&& events[at] matches ClientEventModel::Transferred { outcome, .. }
    &&& match outcome {
        TransferModel::Intact(_) => succeeded && cause is None,
        TransferModel::Broken { brief, .. } => !succeeded && cause == Some(brief),
    }
}

spec fn met_contact(
    case: RelayCase,
    events: Seq<ClientEventModel>,
    contact: ContactModel,
    a: int,
) -> bool {
    connected_at(case, events, a, contact.connect_ms, contact.initial_path)
}

spec fn met_hash(
    case: RelayCase,
    events: Seq<ClientEventModel>,
    contact: ContactModel,
    hash: Seq<char>,
    a: int,
    b: int,
) -> bool {
    a < b && met_contact(case, events, contact, a) && exchanged_at(case, events, b, hash)
}

spec fn met_observation(
    case: RelayCase,
    events: Seq<ClientEventModel>,
    seen: ObservationModel,
    a: int,
    b: int,
    c: int,
) -> bool {
    b < c && met_hash(case, events, seen.contact, seen.hash, a, b) && observed_at(
        case,
        events,
        c,
        seen.direct,
        seen.path_before_cut,
        seen.observed_ms,
        seen.frames,
    )
}

spec fn met_cut(
    case: RelayCase,
    events: Seq<ClientEventModel>,
    seen: ObservationModel,
    a: int,
    b: int,
    c: int,
    d: int,
) -> bool {
    c < d && met_observation(case, events, seen, a, b, c) && heard_of_cut_at(case, events, d)
}

/// Whether these events, in this order, are what a report tells of, field by
/// field: the connection, the first exchange, the end of the watch, the news of
/// the cut, and the second exchange.
pub open spec fn told_by(
    case: RelayCase,
    events: Seq<ClientEventModel>,
    report: ReportModel,
    connected: int,
    exchanged: int,
    observed: int,
    cut: int,
    again: int,
) -> bool {
    &&& connected < exchanged < observed < cut < again
    &&& connected_at(case, events, connected, report.connect_ms, report.initial_path)
    &&& exchanged_at(case, events, exchanged, report.payload_blake2b)
    &&& observed_at(
        case,
        events,
        observed,
        report.direct,
        report.path_before_cut,
        report.observed_ms,
        report.frames,
    )
    &&& heard_of_cut_at(case, events, cut)
    &&& exchanged_again_at(
        case,
        events,
        again,
        report.post_cut_transfer,
        report.post_cut_error,
    )
}

spec fn sourced(case: RelayCase, events: Seq<ClientEventModel>, phase: ClientPhase) -> bool {
    &&& phase matches ClientPhase::FirstTransfer(contact) ==> exists|a: int|
        met_contact(case, events, contact, a)
    &&& phase matches ClientPhase::Observing(contact, hash) ==> exists|a: int, b: int|
        met_hash(case, events, contact, hash, a, b)
    &&& observation_in(phase) matches Some(seen) ==> exists|a: int, b: int, c: int|
        met_observation(case, events, seen, a, b, c)
    &&& phase matches ClientPhase::SecondTransfer(seen) ==> exists|a: int, b: int, c: int, d: int|
        met_cut(case, events, seen, a, b, c, d)
    &&& report_in(phase) matches Some(report) ==> exists|a: int, b: int, c: int, d: int, e: int|
        told_by(case, events, report, a, b, c, d, e)
}

proof fn lemma_met_lasts(case: RelayCase, events: Seq<ClientEventModel>)
    requires
        events.len() > 0,
    ensures
        forall|at: int, ms: u128, remote: Option<Seq<char>>| #[trigger]
            connected_at(case, events.drop_last(), at, ms, remote) ==> connected_at(
                case,
                events,
                at,
                ms,
                remote,
            ),
        forall|at: int, hash: Seq<char>| #[trigger]
            exchanged_at(case, events.drop_last(), at, hash) ==> exchanged_at(
                case,
                events,
                at,
                hash,
            ),
        forall|
            at: int,
            direct: bool,
            remote: Option<Seq<char>>,
            ms: u128,
            frames: FrameCounts,
        | #[trigger]
            observed_at(case, events.drop_last(), at, direct, remote, ms, frames) ==> observed_at(
                case,
                events,
                at,
                direct,
                remote,
                ms,
                frames,
            ),
        forall|at: int| #[trigger]
            heard_of_cut_at(case, events.drop_last(), at) ==> heard_of_cut_at(case, events, at),
        forall|at: int, ok: bool, cause: Option<Seq<char>>| #[trigger]
            exchanged_again_at(case, events.drop_last(), at, ok, cause) ==> exchanged_again_at(
                case,
                events,
                at,
                ok,
                cause,
            ),
{
    let past = events.drop_last();
    assert forall|i: int| 0 <= i < past.len() implies #[trigger] events.take(i) == past.take(i) by {
        assert(events.take(i) =~= past.take(i));
    }
}

proof fn lemma_contact_sourced(
    case: RelayCase,
    events: Seq<ClientEventModel>,
    contact: ContactModel,
)
    requires
        events.len() > 0,
        sourced(case, events.drop_last(), client_run(case, events.drop_last())),
        client_run(case, events) == ClientPhase::FirstTransfer(contact),
    ensures
        exists|a: int| met_contact(case, events, contact, a),
{
    let past = events.drop_last();
    let last = events.len() - 1;
    assert(events.take(last) =~= past);
    if client_run(case, past) is Connecting {
        assert(met_contact(case, events, contact, last));
    } else {
        lemma_met_lasts(case, events);
        let a = choose|a: int| met_contact(case, past, contact, a);
        assert(met_contact(case, events, contact, a));
    }
}

proof fn lemma_hash_sourced(
    case: RelayCase,
    events: Seq<ClientEventModel>,
    contact: ContactModel,
    hash: Seq<char>,
)
    requires
        events.len() > 0,
        sourced(case, events.drop_last(), client_run(case, events.drop_last())),
        client_run(case, events) == ClientPhase::Observing(contact, hash),
    ensures
        exists|a: int, b: int| met_hash(case, events, contact, hash, a, b),
{
    let past = events.drop_last();
    let last = events.len() - 1;
    assert(events.take(last) =~= past);
    lemma_met_lasts(case, events);
    if client_run(case, past) is FirstTransfer {
        let a = choose|a: int| met_contact(case, past, contact, a);
        assert(met_contact(case, events, contact, a));
        assert(exchanged_at(case, events, last, hash));
        assert(met_hash(case, events, contact, hash, a, last));
    } else {
        let (a, b) = choose|a: int, b: int| met_hash(case, past, contact, hash, a, b);
        assert(met_hash(case, events, contact, hash, a, b));
    }
}

proof fn lemma_observation_sourced(
    case: RelayCase,
    events: Seq<ClientEventModel>,
    seen: ObservationModel,
)
    requires
        events.len() > 0,
        sourced(case, events.drop_last(), client_run(case, events.drop_last())),
        observation_in(client_run(case, events)) == Some(seen),
    ensures
        exists|a: int, b: int, c: int| met_observation(case, events, seen, a, b, c),
{
    let past = events.drop_last();
    let last = events.len() - 1;
    assert(events.take(last) =~= past);
    lemma_met_lasts(case, events);
    if client_run(case, past) is Observing {
        let (a, b) = choose|a: int, b: int| met_hash(case, past, seen.contact, seen.hash, a, b);
        assert(met_hash(case, events, seen.contact, seen.hash, a, b));
        assert(observed_at(
            case,
            events,
            last,
            seen.direct,
            seen.path_before_cut,
            seen.observed_ms,
            seen.frames,
        ));
        assert(met_observation(case, events, seen, a, b, last));
    } else {
        assert(observation_in(client_run(case, past)) == Some(seen));
        let (a, b, c) = choose|a: int, b: int, c: int| met_observation(case, past, seen, a, b, c);
        assert(met_hash(case, events, seen.contact, seen.hash, a, b));
        assert(met_observation(case, events, seen, a, b, c));
    }
}

proof fn lemma_cut_sourced(case: RelayCase, events: Seq<ClientEventModel>, seen: ObservationModel)
    requires
        events.len() > 0,
        sourced(case, events.drop_last(), client_run(case, events.drop_last())),
        client_run(case, events) == ClientPhase::SecondTransfer(seen),
    ensures
        exists|a: int, b: int, c: int, d: int| met_cut(case, events, seen, a, b, c, d),
{
    let past = events.drop_last();
    let last = events.len() - 1;
    assert(events.take(last) =~= past);
    lemma_met_lasts(case, events);
    if client_run(case, past) is AwaitingCut {
        assert(observation_in(client_run(case, past)) == Some(seen));
        let (a, b, c) = choose|a: int, b: int, c: int| met_observation(case, past, seen, a, b, c);
        assert(met_hash(case, events, seen.contact, seen.hash, a, b));
        assert(met_observation(case, events, seen, a, b, c));
        assert(heard_of_cut_at(case, events, last));
        assert(met_cut(case, events, seen, a, b, c, last));
    } else {
        let (a, b, c, d) = choose|a: int, b: int, c: int, d: int|
            met_cut(case, past, seen, a, b, c, d);
        assert(met_hash(case, events, seen.contact, seen.hash, a, b));
        assert(met_observation(case, events, seen, a, b, c));
        assert(met_cut(case, events, seen, a, b, c, d));
    }
}

proof fn lemma_report_sourced(case: RelayCase, events: Seq<ClientEventModel>, report: ReportModel)
    requires
        events.len() > 0,
        sourced(case, events.drop_last(), client_run(case, events.drop_last())),
        report_in(client_run(case, events)) == Some(report),
    ensures
        exists|a: int, b: int, c: int, d: int, e: int|
            told_by(case, events, report, a, b, c, d, e),
{
    let past = events.drop_last();
    let last = events.len() - 1;
    assert(events.take(last) =~= past);
    lemma_met_lasts(case, events);
    if let ClientPhase::SecondTransfer(seen) = client_run(case, past) {
        let (a, b, c, d) = choose|a: int, b: int, c: int, d: int|
            met_cut(case, past, seen, a, b, c, d);
        assert(exchanged_again_at(
            case,
            events,
            last,
            report.post_cut_transfer,
            report.post_cut_error,
        ));
        assert(told_by(case, events, report, a, b, c, d, last));
    } else {
        assert(report_in(client_run(case, past)) == Some(report));
        let (a, b, c, d, e) = choose|a: int, b: int, c: int, d: int, e: int|
            told_by(case, past, report, a, b, c, d, e);
        assert(told_by(case, events, report, a, b, c, d, e));
    }
}

proof fn lemma_sourced(case: RelayCase, events: Seq<ClientEventModel>)
    ensures
        sourced(case, events, client_run(case, events)),
    decreases events.len(),
{
    if events.len() > 0 {
        lemma_sourced(case, events.drop_last());
        let phase = client_run(case, events);
        if let ClientPhase::FirstTransfer(contact) = phase {
            lemma_contact_sourced(case, events, contact);
        }
        if let ClientPhase::Observing(contact, hash) = phase {
            lemma_hash_sourced(case, events, contact, hash);
        }
        if let Some(seen) = observation_in(phase) {
            lemma_observation_sourced(case, events, seen);
        }
        if let ClientPhase::SecondTransfer(seen) = phase {
            lemma_cut_sourced(case, events, seen);
        }
        if let Some(report) = report_in(phase) {
            lemma_report_sourced(case, events, report);
        }
    }
}

/// Every report tells what happened, field by field: the time of the connection
/// and its first path, the digest of the first exchange, what the watch found with
/// its path, its time and its traversal frames, and how the second exchange went.
/// The events are those that the dialer met at the step in question, and came in
/// that order.
pub proof fn law_report_tells_what_happened(
    case: RelayCase,
    events: Seq<ClientEventModel>,
    report: ReportModel,
)
    requires
        client_run(case, events) == ClientPhase::Done(report),
    ensures
        report.case == case,
        exists|connected: int, exchanged: int, observed: int, cut: int, again: int|
            told_by(case, events, report, connected, exchanged, observed, cut, again),
{
    lemma_accounted_for(case, events);
    lemma_sourced(case, events);
}

/// A report does not change between the second exchange and the end.
pub proof fn law_report_stays_as_it_is(
    case: RelayCase,
    phase: ClientPhase,
    event: ClientEventModel,
    report: ReportModel,
)
    requires
        report_in(phase) == Some(report),
    ensures
        report_in(client::client_step(case, phase, event)) == Some(report),
{
}

/// A run in which what happens is what the row of the table asks for ends with a
/// report, and each of its fields is what happened.
pub proof fn law_good_run_reports_every_field(
    case: RelayCase,
    addresses: Seq<AddressModel>,
    connect_ms: u128,
    first_paths: Seq<PathModel>,
    hash: Seq<char>,
    paths_between: Seq<PathModel>,
    paths_observed: Seq<PathModel>,
    observed_ms: u128,
    frames: FrameCounts,
    outcome: TransferModel,
    last_paths: Seq<PathModel>,
)
    requires
        forall|i: int| 0 <= i < addresses.len() ==> !((#[trigger] addresses[i]) is Ip),
        case.server && case.client || (frames.add_address_rx == 0 && frames.add_address_tx == 0
            && frames.reach_out_rx == 0 && frames.reach_out_tx == 0),
        if case.server && case.client && !case.udp_blocked {
            outcome is Intact && (exists|i: int|
                0 <= i < paths_observed.len() && (#[trigger] paths_observed[i]).selected
                    && paths_observed[i].ip) && (exists|i: int|
                0 <= i < last_paths.len() && (#[trigger] last_paths[i]).selected
                    && last_paths[i].ip)
        } else {
            outcome is Broken && (exists|i: int|
                0 <= i < paths_observed.len() && (#[trigger] paths_observed[i]).selected) && (
            forall|i: int|
                0 <= i < paths_observed.len() && (#[trigger] paths_observed[i]).selected
                    ==> !paths_observed[i].ip)
        },
    ensures
        ({
            let direct = case.server && case.client && !case.udp_blocked;
            let end = client_run(
                case,
                smooth_run(
                    addresses,
                    connect_ms,
                    first_paths,
                    hash,
                    paths_between,
                    direct,
                    paths_observed,
                    observed_ms,
                    frames,
                    outcome,
                    last_paths,
                ),
            );
            &&& end matches ClientPhase::Done(report)
            &&& report.case == case
            &&& report.connect_ms == connect_ms
            &&& report.initial_path == path::selected_remote(first_paths)
            &&& report.path_before_cut == path::selected_remote(paths_observed)
            &&& report.direct == direct
            &&& report.observed_ms == observed_ms
            &&& report.payload_blake2b == hash
            &&& report.post_cut_transfer == direct
            &&& report.post_cut_error == (match outcome {
                TransferModel::Intact(_) => None::<Seq<char>>,
                TransferModel::Broken { brief, .. } => Some(brief),
            })
            &&& report.frames.add_address_rx == frames.add_address_rx
            &&& report.frames.add_address_tx == frames.add_address_tx
            &&& report.frames.reach_out_rx == frames.reach_out_rx
            &&& report.frames.reach_out_tx == frames.reach_out_tx
        }),
{
    path::law_selected_remote_is_first(paths_observed);
    path::law_direct_needs_one_selected_ip_path(paths_observed);
    law_expected_run_is_reported(
        case,
        addresses,
        connect_ms,
        first_paths,
        hash,
        paths_between,
        case.expects_direct(),
        paths_observed,
        observed_ms,
        frames,
        outcome,
        last_paths,
    );
}

} // verus!
