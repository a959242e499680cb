//! The cases of the lab, their names, limits and expected outcomes.

use vstd::prelude::*;
use vstd::string::*;

use crate::text;

verus! {

/// How long a peer may take over one step of setting up, in milliseconds.
pub const SETUP_MS: u64 = 30_000;

/// How long the dialer watches for a direct path, in milliseconds.
pub const OBSERVE_MS: u64 = 10_000;

/// How long one payload exchange may take, in milliseconds.
pub const TRANSFER_MS: u64 = 8_000;

/// How long the server keeps echoing, in milliseconds.
pub const SERVE_MS: u64 = 80_000;

/// How long the relay stays up waiting for the dialer to ask for the cut, in
/// milliseconds.
pub const CUT_MS: u64 = 75_000;

/// A case with a relay: which peers opt in to traversal, and whether the
/// dialer's network drops UDP.
#[derive(Clone, Copy, PartialEq, Eq, Structural, Debug)]
pub struct RelayCase {
    pub server: bool,
    pub client: bool,
    pub udp_blocked: bool,
}

impl RelayCase {
    /// Whether the peers should end on a direct path. Both sides must opt in,
    /// and UDP must get through.
    pub open spec fn expects_direct(self) -> bool {
        self.server && self.client && !self.udp_blocked
    }

    /// Whether some peer leaves traversal disabled.
    pub open spec fn some_peer_disabled(self) -> bool {
        !(self.server && self.client)
    }

    /// Tells whether the case should end on a direct path.
    pub fn expected_direct(&self) -> (direct: bool)
        ensures
            direct == self.expects_direct(),
    {
        self.server && self.client && !self.udp_blocked
    }

    /// Tells whether some peer leaves traversal disabled.
    pub fn has_disabled_peer(&self) -> (disabled: bool)
        ensures
            disabled == self.some_peer_disabled(),
    {
        !self.server || !self.client
    }
}

/// One entry of a lab run.
#[derive(Clone, Copy, PartialEq, Eq, Structural, Debug)]
pub enum LabCase {
    /// Both peers reach each other through the relay first.
    Relay(RelayCase),
    /// No relay exists, and both peers have the same traversal setting.
    NoRelay { enabled: bool },
}

impl LabCase {
    /// The name under which the results of the case are filed.
    pub open spec fn name_text(self) -> Seq<char> {
        match self {
            LabCase::Relay(case) => "server-"@ + text::bool_text(case.server) + "-client-"@ + text::bool_text(
                case.client,
            ) + "-udp-blocked-"@ + text::bool_text(case.udp_blocked),
            LabCase::NoRelay { enabled } => "no-relay-"@ + text::bool_text(enabled),
        }
    }

    /// The number of seconds after which the whole case is abandoned.
    pub open spec fn limit(self) -> u64 {
        match self {
            LabCase::Relay(_) => 120,
            LabCase::NoRelay { .. } => 60,
        }
    }

    /// Builds the name of the case.
    pub fn name(&self) -> (name: String)
        ensures
            name@ == self.name_text(),
    {
        match self {
            LabCase::Relay(case) => {
                let mut name = String::from_str("server-");
                name.append(text::bool_str(case.server));
                name.append("-client-");
                name.append(text::bool_str(case.client));
                name.append("-udp-blocked-");
                name.append(text::bool_str(case.udp_blocked));
                name
            },
            LabCase::NoRelay { enabled } => {
                let mut name = String::from_str("no-relay-");
                name.append(text::bool_str(*enabled));
                name
            },
        }
    }

    /// Gives the time limit of the case in seconds.
    pub fn limit_secs(&self) -> (secs: u64)
        ensures
            secs == self.limit(),
    {
        match self {
            LabCase::Relay(_) => 120,
            LabCase::NoRelay { .. } => 60,
        }
    }

    /// What is said on top of an expired time limit, if anything.
    pub fn limit_message(&self) -> (message: Option<&'static str>)
        ensures
            match *self {
                LabCase::Relay(_) => message is Some && message->0@ == "case exceeded 120 seconds"@,
                LabCase::NoRelay { .. } => message is None,
            },
            message is Some <==> *self is Relay,
    {
        match self {
            LabCase::Relay(_) => Some("case exceeded 120 seconds"),
            LabCase::NoRelay { .. } => None,
        }
    }
}

/// A case with a relay, as an entry of a run.
pub open spec fn relay_case(server: bool, client: bool, udp_blocked: bool) -> LabCase {
    LabCase::Relay(RelayCase { server, client, udp_blocked })
}

/// A case without a relay, as an entry of a run.
pub open spec fn no_relay_case(enabled: bool) -> LabCase {
    LabCase::NoRelay { enabled }
}

/// All cases of a run, in order: every traversal setting with UDP allowed, the
/// UDP control, and the two cases without a relay.
pub open spec fn case_list() -> Seq<LabCase> {
    seq![
        relay_case(false, false, false),
        relay_case(false, true, false),
        relay_case(true, false, false),
        relay_case(true, true, false),
        relay_case(true, true, true),
        no_relay_case(false),
        no_relay_case(true),
    ]
}

fn with_relay(server: bool, client: bool, udp_blocked: bool) -> (case: LabCase)
    ensures
        case == relay_case(server, client, udp_blocked),
{
    LabCase::Relay(RelayCase { server, client, udp_blocked })
}

/// Lists the cases of a run in the order in which they run.
pub fn cases() -> (list: Vec<LabCase>)
    ensures
        list@ == case_list(),
{
    let mut list: Vec<LabCase> = Vec::new();
    list.push(with_relay(false, false, false));
    list.push(with_relay(false, true, false));
    list.push(with_relay(true, false, false));
    list.push(with_relay(true, true, false));
    list.push(with_relay(true, true, true));
    list.push(LabCase::NoRelay { enabled: false });
    list.push(LabCase::NoRelay { enabled: true });
    list
}

/// A run tries every combination of traversal settings with UDP allowed,
/// blocks UDP only where both peers opt in, covers both settings without a
/// relay, and runs no case twice.
pub proof fn law_run_covers_the_matrix()
    ensures
        forall|server: bool, client: bool, udp_blocked: bool|
            #![trigger relay_case(server, client, udp_blocked)]
            case_list().contains(relay_case(server, client, udp_blocked)) <==> (udp_blocked
                ==> server && client),
        forall|enabled: bool| case_list().contains(#[trigger] no_relay_case(enabled)),
        case_list().no_duplicates(),
{
    let list = case_list();
    assert(list[0] == relay_case(false, false, false));
    assert(list[1] == relay_case(false, true, false));
    assert(list[2] == relay_case(true, false, false));
    assert(list[3] == relay_case(true, true, false));
    assert(list[4] == relay_case(true, true, true));
    assert(list[5] == LabCase::NoRelay { enabled: false });
    assert(list[6] == LabCase::NoRelay { enabled: true });
    assert forall|server: bool, client: bool, udp_blocked: bool|
        #![trigger relay_case(server, client, udp_blocked)]
        case_list().contains(relay_case(server, client, udp_blocked)) <==> (udp_blocked ==> server
            && client) by {
        let case = relay_case(server, client, udp_blocked);
        if udp_blocked ==> server && client {
            assert(case == list[0] || case == list[1] || case == list[2] || case == list[3] || case
                == list[4]);
        }
    }
    assert forall|enabled: bool| case_list().contains(#[trigger] no_relay_case(enabled)) by {
        let case = no_relay_case(enabled);
        assert(case == list[5] || case == list[6]);
    }
}

/// Of the relay cases of a run only the fourth expects a direct path: both
/// peers opted in and UDP allowed.
pub proof fn law_one_case_expects_direct(i: int)
    requires
        0 <= i < case_list().len(),
        case_list()[i] is Relay,
    ensures
        case_list()[i]->Relay_0.expects_direct() <==> i == 3,
        case_list()[3] == relay_case(true, true, false),
{
}

/// Different cases have different names, so their results never share a place.
pub proof fn law_names_differ(a: LabCase, b: LabCase)
    requires
        a != b,
    ensures
        a.name_text() != b.name_text(),
{
    reveal_strlit("true");
    reveal_strlit("false");
    reveal_strlit("server-");
    reveal_strlit("-client-");
    reveal_strlit("-udp-blocked-");
    reveal_strlit("no-relay-");
    let x = a.name_text();
    let y = b.name_text();
    match a {
        LabCase::Relay(_) => {
            assert(x[0] == 's');
        },
        LabCase::NoRelay { enabled } => {
            assert(x[0] == 'n');
            assert(x[9] == text::bool_text(enabled)[0]);
        },
    }
    match b {
        LabCase::Relay(_) => {
            assert(y[0] == 's');
        },
        LabCase::NoRelay { enabled } => {
            assert(y[0] == 'n');
            assert(y[9] == text::bool_text(enabled)[0]);
        },
    }
    if a is Relay && b is Relay {
        let p = a->Relay_0;
        let q = b->Relay_0;
        assert(x[7] == text::bool_text(p.server)[0]);
        assert(y[7] == text::bool_text(q.server)[0]);
        if p.server == q.server {
            let at = 15 + text::bool_text(p.server).len();
            assert(x[at as int] == text::bool_text(p.client)[0]);
            assert(y[at as int] == text::bool_text(q.client)[0]);
            if p.client == q.client {
                let end = at + text::bool_text(p.client).len() + 13;
                assert(x[end as int] == text::bool_text(p.udp_blocked)[0]);
                assert(y[end as int] == text::bool_text(q.udp_blocked)[0]);
            }
        }
    }
}

/// A direct path is expected only where the server opts in, the dialer opts in
/// and UDP gets through, and wherever all three hold. A peer counts as disabled
/// wherever one of them does not opt in, whatever happens to UDP. A case that
/// expects a direct path has no disabled peer.
pub proof fn law_direct_takes_both_peers_and_udp(case: RelayCase)
    ensures
        !case.server ==> !case.expects_direct() && case.some_peer_disabled(),
        !case.client ==> !case.expects_direct() && case.some_peer_disabled(),
        case.udp_blocked ==> !case.expects_direct(),
        case.server && case.client ==> !case.some_peer_disabled() && (case.expects_direct()
            <==> !case.udp_blocked),
{
}

/// The time limit of a case depends on nothing but whether there is a relay.
pub proof fn law_limit_depends_on_the_relay(case: LabCase)
    ensures
        case is Relay ==> case.limit() == 120,
        case is NoRelay ==> case.limit() == 60,
{
}

/// How long each step may take, in milliseconds. The server keeps echoing for
/// longer than the relay stays up.
pub proof fn law_time_limits()
    ensures
        SETUP_MS == 30_000,
        OBSERVE_MS == 10_000,
        TRANSFER_MS == 8_000,
        CUT_MS == 75_000,
        SERVE_MS == 80_000,
        SERVE_MS > CUT_MS,
{
}

/// The name of a case spells out all of its settings, each under its own label.
pub proof fn law_names_spell_out_the_settings(server: bool, client: bool, udp_blocked: bool)
    ensures
        !server && !client && !udp_blocked ==> relay_case(server, client, udp_blocked).name_text()
            == "server-false-client-false-udp-blocked-false"@,
        !server && !client && udp_blocked ==> relay_case(server, client, udp_blocked).name_text()
            == "server-false-client-false-udp-blocked-true"@,
        !server && client && !udp_blocked ==> relay_case(server, client, udp_blocked).name_text()
            == "server-false-client-true-udp-blocked-false"@,
        !server && client && udp_blocked ==> relay_case(server, client, udp_blocked).name_text()
            == "server-false-client-true-udp-blocked-true"@,
        server && !client && !udp_blocked ==> relay_case(server, client, udp_blocked).name_text()
            == "server-true-client-false-udp-blocked-false"@,
        server && !client && udp_blocked ==> relay_case(server, client, udp_blocked).name_text()
            == "server-true-client-false-udp-blocked-true"@,
        server && client && !udp_blocked ==> relay_case(server, client, udp_blocked).name_text()
            == "server-true-client-true-udp-blocked-false"@,
        server && client && udp_blocked ==> relay_case(server, client, udp_blocked).name_text()
            == "server-true-client-true-udp-blocked-true"@,
        no_relay_case(false).name_text() == "no-relay-false"@,
        no_relay_case(true).name_text() == "no-relay-true"@,
{
    reveal_strlit("true");
    reveal_strlit("false");
    reveal_strlit("server-");
    reveal_strlit("-client-");
    reveal_strlit("-udp-blocked-");
    reveal_strlit("no-relay-");
    reveal_strlit("no-relay-false");
    reveal_strlit("no-relay-true");
    assert(no_relay_case(false).name_text() =~= "no-relay-false"@);
    assert(no_relay_case(true).name_text() =~= "no-relay-true"@);
    let name = relay_case(server, client, udp_blocked).name_text();
    if server {
        if client {
            if udp_blocked {
                reveal_strlit("server-true-client-true-udp-blocked-true");
                assert(name =~= "server-true-client-true-udp-blocked-true"@);
            } else {
                reveal_strlit("server-true-client-true-udp-blocked-false");
                assert(name =~= "server-true-client-true-udp-blocked-false"@);
            }
        } else if udp_blocked {
            reveal_strlit("server-true-client-false-udp-blocked-true");
            assert(name =~= "server-true-client-false-udp-blocked-true"@);
        } else {
            reveal_strlit("server-true-client-false-udp-blocked-false");
            assert(name =~= "server-true-client-false-udp-blocked-false"@);
        }
    } else if client {
        if udp_blocked {
            reveal_strlit("server-false-client-true-udp-blocked-true");
            assert(name =~= "server-false-client-true-udp-blocked-true"@);
        } else {
            reveal_strlit("server-false-client-true-udp-blocked-false");
            assert(name =~= "server-false-client-true-udp-blocked-false"@);
        }
    } else if udp_blocked {
        reveal_strlit("server-false-client-false-udp-blocked-true");
        assert(name =~= "server-false-client-false-udp-blocked-true"@);
    } else {
        reveal_strlit("server-false-client-false-udp-blocked-false");
        assert(name =~= "server-false-client-false-udp-blocked-false"@);
    }
}

/// The order of a run: with UDP allowed the settings count up, the server's as the
/// higher digit. Then comes the UDP control with both peers opted in, and last the
/// cases without a relay, first off and then on.
pub proof fn law_run_counts_up(i: int)
    ensures
        case_list().len() == 7,
        0 <= i < 4 ==> (case_list()[i] matches LabCase::Relay(case) && case.server == (i / 2 == 1)
            && case.client == (i % 2 == 1) && !case.udp_blocked),
        case_list()[4] matches LabCase::Relay(case) && case.server && case.client
            && case.udp_blocked,
        5 <= i < 7 ==> (case_list()[i] matches LabCase::NoRelay { enabled } && enabled == (i == 6)),
{
}

} // verus!
