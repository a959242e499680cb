//! The lab's relay: where it listens, how peers find it, and when it is up.

use vstd::prelude::*;

#[allow(unused_imports)]
use crate::case::LabCase;
use crate::endpoint::Socket;
use crate::text;

verus! {

/// The port on which the relay speaks plain HTTP.
pub const HTTP_PORT: u16 = 80;

/// The port on which the relay speaks HTTPS.
pub const HTTPS_PORT: u16 = 443;

/// The port on which the relay answers address discovery over QUIC.
pub const QUIC_PORT: u16 = 7842;

/// How long a relay process outlives a lab that never stops it, in seconds.
pub const RELAY_LIFETIME_SECS: u64 = 120;

/// The host name of the relay inside the lab.
pub fn relay_host() -> (host: &'static str)
    ensures
        host@ == "relay.test"@,
{
    "relay.test"
}

/// The URL of the relay.
pub fn relay_url() -> (url: &'static str)
    ensures
        url@ == "https://relay.test"@,
{
    "https://relay.test"
}

/// The address that stands for every IPv4 address of a host, as a number.
pub const ANY_IPV4: u32 = 0;

/// The sockets of a relay.
#[derive(Clone, Copy, Debug, PartialEq, Eq)]
pub struct RelayListeners {
    pub http: Socket,
    pub https: Socket,
    pub quic: Option<Socket>,
}

/// How a peer reaches a relay.
#[derive(Clone, Copy, PartialEq, Eq, Debug)]
pub struct RelayEntry {
    pub url: &'static str,
    /// The port for address discovery over QUIC, if the relay offers it.
    pub quic_port: Option<u16>,
}

/// What is said of how a peer reaches a relay.
pub struct RelayEntryModel {
    pub url: Seq<char>,
    pub quic_port: Option<u16>,
}

impl View for RelayEntry {
    type V = RelayEntryModel;

    open spec fn view(&self) -> RelayEntryModel {
        RelayEntryModel { url: self.url@, quic_port: self.quic_port }
    }
}

/// Where the lab's relay listens: on every IPv4 address of its host.
pub open spec fn lab_listeners() -> RelayListeners {
    RelayListeners {
        http: Socket { ip: ANY_IPV4, port: HTTP_PORT },
        https: Socket { ip: ANY_IPV4, port: HTTPS_PORT },
        quic: Some(Socket { ip: ANY_IPV4, port: QUIC_PORT }),
    }
}

/// Gives the sockets of the lab's relay.
pub fn listeners() -> (listeners: RelayListeners)
    ensures
        listeners == lab_listeners(),
{
    RelayListeners {
        http: Socket { ip: ANY_IPV4, port: HTTP_PORT },
        https: Socket { ip: ANY_IPV4, port: HTTPS_PORT },
        quic: Some(Socket { ip: ANY_IPV4, port: QUIC_PORT }),
    }
}

/// The entry of the lab's relay, if it listens for QUIC on this port, or on none.
pub open spec fn entry_with(quic_port: Option<u16>) -> RelayEntryModel {
    RelayEntryModel { url: "https://relay.test"@, quic_port }
}

/// Describes a relay that listens for QUIC on the given port, if on any.
pub fn relay_entry(quic_port: Option<u16>) -> (entry: RelayEntry)
    ensures
        entry@ == entry_with(quic_port),
{
    RelayEntry { url: relay_url(), quic_port }
}

/// Describes the lab's relay as the peers are told of it.
pub fn lab_relay() -> (entry: RelayEntry)
    ensures
        entry@ == entry_with(Some(QUIC_PORT)),
{
    relay_entry(Some(QUIC_PORT))
}

/// What the relay prints once it is up.
pub fn ready_word() -> (word: &'static str)
    ensures
        word@ == "READY"@,
{
    "READY"
}

/// Whether a line says that the relay is up: the word, with any white space
/// around it.
pub open spec fn says_ready(line: Seq<char>) -> bool {
    exists|before: Seq<char>, after: Seq<char>|
        #![trigger text::all_white_space(before), text::all_white_space(after)]
        text::all_white_space(before) && text::all_white_space(after) && line == before + "READY"@
            + after
}

/// Tells whether the first line of the relay says that it is up.
pub fn relay_ready(line: &str) -> (ready: bool)
    ensures
        ready == says_ready(line@),
{
    let chars = text::characters(line);
    let mut start: usize = 0;
    while start < chars.len() && text::white_space(chars[start])
        invariant
            start <= chars.len(),
            forall|i: int| 0 <= i < start ==> text::is_white_space(#[trigger] chars@[i]),
        decreases chars.len() - start,
    {
        start += 1;
    }
    let mut end: usize = chars.len();
    while end > start && text::white_space(chars[end - 1])
        invariant
            start <= end <= chars.len(),
            forall|i: int| end <= i < chars.len() ==> text::is_white_space(#[trigger] chars@[i]),
        decreases end,
    {
        end -= 1;
    }
    let ghost word = "READY"@;
    proof {
        reveal_strlit("READY");
        assert(word.len() == 5);
    }
    let ready = end - start == 5 && chars[start] == 'R' && chars[start + 1] == 'E' && chars[start
        + 2] == 'A' && chars[start + 3] == 'D' && chars[start + 4] == 'Y';
    proof {
        let before = line@.take(start as int);
        let after = line@.skip(end as int);
        assert(text::all_white_space(before));
        assert(text::all_white_space(after));
        if ready {
            assert(line@ =~= before + word + after);
        }
        if says_ready(line@) {
            let (b, a) = choose|b: Seq<char>, a: Seq<char>|
                #![trigger text::all_white_space(b), text::all_white_space(a)]
                text::all_white_space(b) && text::all_white_space(a) && line@ == b + word + a;
            let at = b.len() as int;
            assert(line@[at] == 'R' && line@[at + 1] == 'E' && line@[at + 2] == 'A' && line@[at + 3]
                == 'D' && line@[at + 4] == 'Y');
            assert(start == at) by {
                if start < at {
                    assert(b[start as int] == line@[start as int]);
                }
            }
            assert(end == at + 5) by {
                if end > at + 5 {
                    assert(a[end - 1 - (at + 5)] == line@[end - 1]);
                } else if end < at + 5 {
                    assert(text::is_white_space(line@[at + 4]));
                }
            }
        }
    }
    ready
}

/// The peers look for the relay where it listens: the URL is that of the host
/// under which the relay is entered, on the port that HTTPS implies, and the
/// QUIC port is the relay's own. Every socket of the relay is open on all IPv4
/// addresses of its host.
pub proof fn law_peers_find_the_relay()
    ensures
        entry_with(Some(QUIC_PORT)).url == "https://"@ + "relay.test"@,
        lab_listeners().https.port == 443,
        lab_listeners().quic is Some,
        entry_with(Some(QUIC_PORT)).quic_port == Some(lab_listeners().quic->0.port),
        lab_listeners().http.ip == ANY_IPV4,
        lab_listeners().https.ip == ANY_IPV4,
        lab_listeners().quic->0.ip == ANY_IPV4,
{
    reveal_strlit("https://relay.test");
    reveal_strlit("https://");
    reveal_strlit("relay.test");
    assert("https://relay.test"@ =~= "https://"@ + "relay.test"@);
}

/// White space around a line never matters to whether it says that the relay is
/// up.
pub proof fn law_ready_ignores_white_space(before: Seq<char>, line: Seq<char>, after: Seq<char>)
    requires
        text::all_white_space(before),
        text::all_white_space(after),
    ensures
        says_ready(before + line + after) <==> says_ready(line),
{
    reveal_strlit("READY");
    let word = "READY"@;
    assert(word.len() == 5);
    let whole = before + line + after;
    if says_ready(line) {
        let (b, a) = choose|b: Seq<char>, a: Seq<char>|
            #![trigger text::all_white_space(b), text::all_white_space(a)]
            text::all_white_space(b) && text::all_white_space(a) && line == b + word + a;
        assert(text::all_white_space(before + b));
        assert(text::all_white_space(a + after));
        assert(whole =~= (before + b) + word + (a + after));
    }
    if says_ready(whole) {
        let (b, a) = choose|b: Seq<char>, a: Seq<char>|
            #![trigger text::all_white_space(b), text::all_white_space(a)]
            text::all_white_space(b) && text::all_white_space(a) && whole == b + word + a;
        let at = b.len() as int;
        assert(whole[at] == 'R' && whole[at + 4] == 'Y');
        assert(before.len() <= at) by {
            if at < before.len() {
                assert(before[at] == whole[at]);
            }
        }
        assert(at + 5 <= before.len() + line.len()) by {
            if at + 4 >= before.len() + line.len() {
                assert(after[at + 4 - before.len() - line.len()] == whole[at + 4]);
            }
        }
        let lead = b.skip(before.len() as int);
        let trail = a.take(before.len() + line.len() - (at + 5));
        assert(text::all_white_space(lead)) by {
            assert forall|i: int| 0 <= i < lead.len() implies text::is_white_space(
                #[trigger] lead[i],
            ) by {
                assert(lead[i] == b[i + before.len()]);
            }
        }
        assert(text::all_white_space(trail)) by {
            assert forall|i: int| 0 <= i < trail.len() implies text::is_white_space(
                #[trigger] trail[i],
            ) by {
                assert(trail[i] == a[i]);
            }
        }
        assert forall|i: int| 0 <= i < line.len() implies line[i] == (lead + word + trail)[i] by {
            assert(line[i] == whole[i + before.len()]);
        }
        assert(line =~= lead + word + trail);
    }
}

/// An entry's model keeps all that the entry says.
pub proof fn law_entry_is_kept_as_it_is(entry: RelayEntry)
    ensures
        entry@.url == entry.url@,
        entry@.quic_port == entry.quic_port,
{
}

/// The entry of the relay names the port for address discovery on which the relay
/// listens, if it does, and its URL does not depend on that.
pub proof fn law_entry_names_the_given_port(quic_port: Option<u16>)
    ensures
        entry_with(quic_port).quic_port == quic_port,
        entry_with(quic_port).url == "https://relay.test"@,
{
}

/// The relay offers all three services, each on a port of its own, and ends by
/// itself no sooner than a case with a relay is abandoned.
pub proof fn law_relay_offers_three_services()
    ensures
        lab_listeners().http == (Socket { ip: 0, port: 80 }),
        lab_listeners().https == (Socket { ip: 0, port: 443 }),
        lab_listeners().quic == Some(Socket { ip: 0, port: 7842 }),
        RELAY_LIFETIME_SECS == 120,
        forall|case: LabCase| case is Relay ==> #[trigger] case.limit() == RELAY_LIFETIME_SECS,
{
}

/// A line says that the relay is up exactly if the five letters of the word stand
/// in it, one after the other, and every other character is white space.
pub proof fn law_ready_is_the_word_alone(line: Seq<char>)
    ensures
        says_ready(line) <==> exists|at: int|
            #![trigger line[at]]
            0 <= at && at + 5 <= line.len() && line[at] == 'R' && line[at + 1] == 'E' && line[at
                + 2] == 'A' && line[at + 3] == 'D' && line[at + 4] == 'Y' && forall|i: int|
                0 <= i < line.len() && !(at <= i < at + 5) ==> text::is_white_space(
                    #[trigger] line[i],
                ),
{
    reveal_strlit("READY");
    let word = "READY"@;
    assert(word.len() == 5);
    if says_ready(line) {
        let (b, a) = choose|b: Seq<char>, a: Seq<char>|
            #![trigger text::all_white_space(b), text::all_white_space(a)]
            text::all_white_space(b) && text::all_white_space(a) && line == b + word + a;
        let at = b.len() as int;
        assert(line[at] == 'R');
        assert forall|i: int| 0 <= i < line.len() && !(at <= i < at + 5) implies text::is_white_space(
            #[trigger] line[i],
        ) by {
            if i < at {
                assert(line[i] == b[i]);
            } else {
                assert(line[i] == a[i - at - 5]);
            }
        }
    }
    if exists|at: int|
        #![trigger line[at]]
        0 <= at && at + 5 <= line.len() && line[at] == 'R' && line[at + 1] == 'E' && line[at + 2]
            == 'A' && line[at + 3] == 'D' && line[at + 4] == 'Y' && forall|i: int|
            0 <= i < line.len() && !(at <= i < at + 5) ==> text::is_white_space(
                #[trigger] line[i],
            ) {
        let at = choose|at: int|
            #![trigger line[at]]
            0 <= at && at + 5 <= line.len() && line[at] == 'R' && line[at + 1] == 'E' && line[at
                + 2] == 'A' && line[at + 3] == 'D' && line[at + 4] == 'Y' && forall|i: int|
                0 <= i < line.len() && !(at <= i < at + 5) ==> text::is_white_space(
                    #[trigger] line[i],
                );
        let before = line.take(at);
        let after = line.skip(at + 5);
        assert forall|i: int| 0 <= i < before.len() implies text::is_white_space(
            #[trigger] before[i],
        ) by {
            assert(before[i] == line[i]);
        }
        assert forall|i: int| 0 <= i < after.len() implies text::is_white_space(
            #[trigger] after[i],
        ) by {
            assert(after[i] == line[at + 5 + i]);
        }
        assert(text::all_white_space(before));
        assert(text::all_white_space(after));
        assert(line =~= before + word + after);
    }
}

} // verus!
