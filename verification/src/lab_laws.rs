//! What holds of a case with a relay as a whole, across its parts.

use vstd::prelude::*;

#[allow(unused_imports)]
use crate::case::RelayCase;
#[allow(unused_imports)]
use crate::client;
#[allow(unused_imports)]
use crate::client::{ClientEventModel, ClientPhase};
#[allow(unused_imports)]
use crate::client_laws;
#[allow(unused_imports)]
use crate::coordinator;
#[allow(unused_imports)]
use crate::coordinator::{CaseEventModel, CasePhase};
#[allow(unused_imports)]
use crate::report::ReportModel;
#[allow(unused_imports)]
use crate::server;
#[allow(unused_imports)]
use crate::server::ServerEventModel;

verus! {

/// Something that happens in a case, to the dialer or to its conduct.
pub enum LabEvent {
    Client(ClientEventModel),
    Conduct(CaseEventModel),
}

/// What happens to the dialer in a history, in order.
pub open spec fn client_part(history: Seq<LabEvent>) -> Seq<ClientEventModel>
    decreases history.len(),
{
    if history.len() == 0 {
        Seq::empty()
    } else {
        match history.last() {
            LabEvent::Client(event) => client_part(history.drop_last()).push(event),
            LabEvent::Conduct(_) => client_part(history.drop_last()),
        }
    }
}

/// What happens to the conduct of the case in a history, in order.
pub open spec fn conduct_part(history: Seq<LabEvent>) -> Seq<CaseEventModel>
    decreases history.len(),
{
    if history.len() == 0 {
        Seq::empty()
    } else {
        match history.last() {
            LabEvent::Client(_) => conduct_part(history.drop_last()),
            LabEvent::Conduct(event) => conduct_part(history.drop_last()).push(event),
        }
    }
}

/// Whether the conduct of the case had come to telling the dialer that the relay
/// is gone, after this much of a history.
pub open spec fn acknowledges_at(case: RelayCase, history: Seq<LabEvent>, at: int) -> bool {
    coordinator::case_action(
        case,
        coordinator::case_run(case, conduct_part(history.take(at))),
    ) is Acknowledge
}

/// Whether the dialer never hears that the relay is gone before it is told so.
pub open spec fn hears_only_what_is_said(case: RelayCase, history: Seq<LabEvent>) -> bool {
    forall|i: int|
        0 <= i < history.len() && #[trigger] history[i] == LabEvent::Client(
            ClientEventModel::CutDone,
        ) ==> exists|at: int| 0 <= at <= i && acknowledges_at(case, history, at)
}

spec fn client_position(history: Seq<LabEvent>, i: int) -> int
    decreases history.len(),
{
    if history.len() == 0 {
        0
    } else if history.last() is Client && i == client_part(history).len() - 1 {
        history.len() - 1
    } else {
        client_position(history.drop_last(), i)
    }
}

spec fn conduct_position(history: Seq<LabEvent>, i: int) -> int
    decreases history.len(),
{
    if history.len() == 0 {
        0
    } else if history.last() is Conduct && i == conduct_part(history).len() - 1 {
        history.len() - 1
    } else {
        conduct_position(history.drop_last(), i)
    }
}

proof fn lemma_client_position(history: Seq<LabEvent>, i: int)
    requires
        0 <= i < client_part(history).len(),
    ensures
        0 <= client_position(history, i) < history.len(),
        history[client_position(history, i)] == LabEvent::Client(client_part(history)[i]),
    decreases history.len(),
{
    if !(history.last() is Client && i == client_part(history).len() - 1) {
        lemma_client_position(history.drop_last(), i);
    }
}

proof fn lemma_client_order(history: Seq<LabEvent>, i: int, j: int)
    requires
        0 <= i < j < client_part(history).len(),
    ensures
        client_position(history, i) < client_position(history, j),
    decreases history.len(),
{
    if history.last() is Client && j == client_part(history).len() - 1 {
        lemma_client_position(history.drop_last(), i);
    } else {
        lemma_client_order(history.drop_last(), i, j);
    }
}

proof fn lemma_conduct_position(history: Seq<LabEvent>, i: int)
    requires
        0 <= i < conduct_part(history).len(),
    ensures
        0 <= conduct_position(history, i) < history.len(),
        history[conduct_position(history, i)] == LabEvent::Conduct(conduct_part(history)[i]),
    decreases history.len(),
{
    if !(history.last() is Conduct && i == conduct_part(history).len() - 1) {
        lemma_conduct_position(history.drop_last(), i);
    }
}

proof fn lemma_conduct_order(history: Seq<LabEvent>, i: int, j: int)
    requires
        0 <= i < j < conduct_part(history).len(),
    ensures
        conduct_position(history, i) < conduct_position(history, j),
    decreases history.len(),
{
    if history.last() is Conduct && j == conduct_part(history).len() - 1 {
        lemma_conduct_position(history.drop_last(), i);
    } else {
        lemma_conduct_order(history.drop_last(), i, j);
    }
}

/// Whether these events of a history, in this order, are the end of the relay's
/// process, its reaping, the removal of its device, and the exchange that a
/// report rests on.
pub open spec fn exchanged_without_relay(
    case: RelayCase,
    history: Seq<LabEvent>,
    report: ReportModel,
    killed: int,
    reaped: int,
    removed: int,
    again: int,
) -> bool {
    &&& 0 <= killed < reaped < removed < again < history.len()
    &&& history[killed] == LabEvent::Conduct(CaseEventModel::RelayKilled)
    &&& history[reaped] == LabEvent::Conduct(CaseEventModel::RelayReaped)
    &&& history[removed] == LabEvent::Conduct(CaseEventModel::RelayRemoved)
    &&& history[again] matches LabEvent::Client(event)
    &&& client_laws::is_final_exchange(case, event, report)
}

/// In every case that is reported, the relay's process was ended and reaped and
/// its device removed before the second exchange, the one on which the report
/// rests.
pub proof fn law_second_exchange_is_without_relay(
    case: RelayCase,
    history: Seq<LabEvent>,
    report: ReportModel,
)
    requires
        hears_only_what_is_said(case, history),
        client_laws::client_run(case, client_part(history)) == ClientPhase::Done(report),
    ensures
        exists|killed: int, reaped: int, removed: int, again: int|
            exchanged_without_relay(case, history, report, killed, reaped, removed, again),
{
    let events = client_part(history);
    client_laws::law_report_rests_on_exchange_after_cut(case, events, report);
    let (cut, again) = choose|cut: int, again: int|
        0 <= cut < again < events.len() && #[trigger] events[cut] is CutDone
            && client_laws::is_final_exchange(case, #[trigger] events[again], report);
    lemma_client_position(history, cut);
    lemma_client_position(history, again);
    lemma_client_order(history, cut, again);
    let heard = client_position(history, cut);
    assert(history[heard] == LabEvent::Client(ClientEventModel::CutDone));
    let at = choose|at: int| 0 <= at <= heard && acknowledges_at(case, history, at);
    let before = history.take(at);
    coordinator::law_acknowledged_relay_is_gone(case, conduct_part(before));
    let (a, k, r, m) = choose|a: int, k: int, r: int, m: int|
        coordinator::cut_at(conduct_part(before), a, k, r, m);
    lemma_conduct_position(before, k);
    lemma_conduct_position(before, r);
    lemma_conduct_position(before, m);
    lemma_conduct_order(before, k, r);
    lemma_conduct_order(before, r, m);
    assert(exchanged_without_relay(
        case,
        history,
        report,
        conduct_position(before, k),
        conduct_position(before, r),
        conduct_position(before, m),
        client_position(history, again),
    ));
}

/// Whether a history collects no report but the one with which the dialer had
/// ended by that time.
pub open spec fn collects_only_the_dialers_report(
    case: RelayCase,
    history: Seq<LabEvent>,
) -> bool {
    forall|i: int, server_ok: bool, report: ReportModel|
        0 <= i < history.len() && #[trigger] history[i] == LabEvent::Conduct(
            #[trigger] joined(server_ok, report),
        ) ==> client_laws::client_run(case, client_part(history.take(i))) == ClientPhase::Done(
            report,
        )
}

/// The event that both peers ended, the dialer with a report.
pub open spec fn joined(server_ok: bool, report: ReportModel) -> CaseEventModel {
    CaseEventModel::Joined { server_ok, report: Some(report) }
}

proof fn lemma_heard_in_prefix(case: RelayCase, history: Seq<LabEvent>, end: int)
    requires
        hears_only_what_is_said(case, history),
        0 <= end <= history.len(),
    ensures
        hears_only_what_is_said(case, history.take(end)),
{
    let prefix = history.take(end);
    assert forall|i: int|
        0 <= i < prefix.len() && #[trigger] prefix[i] == LabEvent::Client(
            ClientEventModel::CutDone,
        ) implies exists|at: int| 0 <= at <= i && acknowledges_at(case, prefix, at) by {
        assert(history[i] == LabEvent::Client(ClientEventModel::CutDone));
        let at = choose|at: int| 0 <= at <= i && acknowledges_at(case, history, at);
        assert(prefix.take(at) =~= history.take(at));
        assert(acknowledges_at(case, prefix, at));
    }
}

/// A case that ends well reports what its row of the table expects, and its
/// relay was gone before the second exchange: the path is direct, and the second
/// exchange succeeds, exactly if both peers opted in and UDP got through.
pub proof fn law_case_meets_expectation(
    case: RelayCase,
    history: Seq<LabEvent>,
    report: ReportModel,
)
    requires
        hears_only_what_is_said(case, history),
        collects_only_the_dialers_report(case, history),
        coordinator::case_run(case, conduct_part(history)) == CasePhase::Done(report),
    ensures
        report.case == case,
        report.direct == case.expects_direct(),
        report.post_cut_transfer == case.expects_direct(),
        report.post_cut_error is None <==> case.expects_direct(),
        case.some_peer_disabled() ==> report.frames.all_zero(),
        report.path_before_cut is Some,
        exists|killed: int, reaped: int, removed: int, again: int|
            exchanged_without_relay(case, history, report, killed, reaped, removed, again),
{
    let events = conduct_part(history);
    coordinator::law_case_ends_well(case, events, report);
    let i = choose|i: int| 0 <= i < events.len() && events[i] == joined(true, report);
    lemma_conduct_position(history, i);
    let end = conduct_position(history, i);
    assert(history[end] == LabEvent::Conduct(joined(true, report)));
    let prefix = history.take(end);
    client_laws::law_report_meets_expectation(case, client_part(prefix), report);
    lemma_heard_in_prefix(case, history, end);
    law_second_exchange_is_without_relay(case, prefix, report);
    let (k, r, m, a) = choose|k: int, r: int, m: int, a: int|
        exchanged_without_relay(case, prefix, report, k, r, m, a);
    assert(exchanged_without_relay(case, history, report, k, r, m, a));
}

/// A dialer that waits for the server's addresses goes on to connect with
/// whatever the server publishes.
pub proof fn law_dialer_accepts_published_addresses(
    case: RelayCase,
    served: Seq<ServerEventModel>,
)
    requires
        server::server_run(served) is Publishing,
    ensures
        client::client_step(
            case,
            ClientPhase::AwaitingAddress,
            ClientEventModel::AddressReceived(server::server_run(served)->Publishing_0),
        ) is Connecting,
{
    server::law_published_addresses_are_relays(served, server::server_run(served)->Publishing_0);
}

} // verus!
