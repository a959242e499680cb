//! Network paths of a connection, and the wait for a direct one.

use vstd::prelude::*;

#[allow(unused_imports)]
use crate::case::OBSERVE_MS;

verus! {

/// How long the dialer sleeps between two looks at the paths, in milliseconds.
pub const POLL_MS: u64 = 20;

/// A path of a connection as it was at one moment.
#[derive(Debug)]
pub struct PathInfo {
    /// Whether the connection sends on this path.
    pub selected: bool,
    /// Whether the path leads straight to an IP address.
    pub ip: bool,
    /// The remote address, as text.
    pub remote: String,
}

/// What a path says.
pub struct PathModel {
    pub selected: bool,
    pub ip: bool,
    pub remote: Seq<char>,
}

impl View for PathInfo {
    type V = PathModel;

    open spec fn view(&self) -> PathModel {
        PathModel { selected: self.selected, ip: self.ip, remote: self.remote@ }
    }
}

/// What a list of paths says.
pub open spec fn path_models(paths: Seq<PathInfo>) -> Seq<PathModel> {
    paths.map_values(|path: PathInfo| path@)
}

/// The remote address of the first selected path.
pub open spec fn selected_remote(paths: Seq<PathModel>) -> Option<Seq<char>>
    decreases paths.len(),
{
    if paths.len() == 0 {
        None
    } else if paths[0].selected {
        Some(paths[0].remote)
    } else {
        selected_remote(paths.skip(1))
    }
}

/// Whether some selected path leads straight to an IP address.
pub open spec fn is_direct(paths: Seq<PathModel>) -> bool {
    exists|i: int| 0 <= i < paths.len() && (#[trigger] paths[i]).selected && paths[i].ip
}

/// Whether some path is selected, and none that is leads straight to an IP
/// address. The lab has no transport besides IP and the relay, so the connection
/// is then on the relay.
pub open spec fn is_relayed(paths: Seq<PathModel>) -> bool {
    selected_remote(paths) is Some && !is_direct(paths)
}

/// Gives the remote address of the first selected path, if one is selected.
pub fn selected(paths: &Vec<PathInfo>) -> (remote: Option<String>)
    ensures
        crate::text::optional_view(remote) == selected_remote(path_models(paths@)),
{
    let ghost models = path_models(paths@);
    let mut i: usize = 0;
    assert(models.skip(0) == models);
    while i < paths.len()
        invariant
            i <= paths.len(),
            models == path_models(paths@),
            selected_remote(models) == selected_remote(models.skip(i as int)),
        decreases paths.len() - i,
    {
        assert(models.skip(i as int)[0] == paths[i as int]@);
        assert(models.skip(i as int).skip(1) == models.skip(i + 1));
        if paths[i].selected {
            return Some(paths[i].remote.clone());
        }
        i += 1;
    }
    None
}

/// Tells whether some selected path leads straight to an IP address.
pub fn direct(paths: &Vec<PathInfo>) -> (yes: bool)
    ensures
        yes == is_direct(path_models(paths@)),
{
    let ghost models = path_models(paths@);
    let mut i: usize = 0;
    while i < paths.len()
        invariant
            i <= paths.len(),
            models == path_models(paths@),
            forall|j: int| 0 <= j < i ==> !((#[trigger] models[j]).selected && models[j].ip),
        decreases paths.len() - i,
    {
        assert(models[i as int] == paths[i as int]@);
        if paths[i].selected && paths[i].ip {
            return true;
        }
        i += 1;
    }
    false
}

/// What a selected remote address is: there is one exactly if some path is
/// selected, and it belongs to a selected path that no selected path precedes.
pub proof fn law_selected_remote_is_first(paths: Seq<PathModel>)
    ensures
        selected_remote(paths) is Some <==> exists|i: int|
            0 <= i < paths.len() && (#[trigger] paths[i]).selected,
        selected_remote(paths) is Some ==> exists|i: int|
            0 <= i < paths.len() && (#[trigger] paths[i]).selected && selected_remote(paths) == Some(
                paths[i].remote,
            ) && forall|j: int| 0 <= j < i ==> !(#[trigger] paths[j]).selected,
    decreases paths.len(),
{
    if paths.len() > 0 {
        let rest = paths.skip(1);
        law_selected_remote_is_first(rest);
        if paths[0].selected {
            assert(paths[0].selected && selected_remote(paths) == Some(paths[0].remote));
        } else if selected_remote(paths) is Some {
            let k = choose|k: int|
                0 <= k < rest.len() && (#[trigger] rest[k]).selected && selected_remote(rest)
                    == Some(rest[k].remote) && forall|j: int|
                    0 <= j < k ==> !(#[trigger] rest[j]).selected;
            assert(paths[k + 1] == rest[k]);
            assert forall|j: int| 0 <= j < k + 1 implies !(#[trigger] paths[j]).selected by {
                if j > 0 {
                    assert(paths[j] == rest[j - 1]);
                }
            }
        } else {
            assert forall|i: int| 0 <= i < paths.len() implies !(#[trigger] paths[i]).selected by {
                if i > 0 {
                    assert(paths[i] == rest[i - 1]);
                }
            }
        }
    }
}

/// A connection on a direct path has a selected remote address to show for it.
pub proof fn law_direct_has_remote(paths: Seq<PathModel>)
    requires
        is_direct(paths),
    ensures
        selected_remote(paths) is Some,
{
    law_selected_remote_is_first(paths);
}

/// A connection on the relay has a selected remote address to show for it, and
/// it is not that of a path straight to an IP address.
pub proof fn law_relayed_remote_is_no_ip(paths: Seq<PathModel>)
    requires
        is_relayed(paths),
    ensures
        exists|i: int|
            0 <= i < paths.len() && (#[trigger] paths[i]).selected && !paths[i].ip
                && selected_remote(paths) == Some(paths[i].remote),
{
    law_selected_remote_is_first(paths);
    let i = choose|i: int|
        0 <= i < paths.len() && (#[trigger] paths[i]).selected && selected_remote(paths) == Some(
            paths[i].remote,
        ) && forall|j: int| 0 <= j < i ==> !(#[trigger] paths[j]).selected;
    assert(paths[i].selected && !paths[i].ip);
}

/// A model of a path keeps all that the path says, and a list of paths keeps its
/// paths in order.
pub proof fn law_paths_are_kept_as_they_are(paths: Seq<PathInfo>)
    ensures
        path_models(paths).len() == paths.len(),
        forall|i: int|
            0 <= i < paths.len() ==> {
                let model = #[trigger] path_models(paths)[i];
                &&& model.selected == paths[i].selected
                &&& model.ip == paths[i].ip
                &&& model.remote == paths[i].remote@
            },
{
}

/// A connection is direct only if one and the same path is selected and leads to
/// an IP address. Paths to an IP address that are known and not selected make no
/// difference, wherever they stand. Where a single path is selected, it decides.
pub proof fn law_direct_needs_one_selected_ip_path(paths: Seq<PathModel>)
    ensures
        (forall|i: int| 0 <= i < paths.len() && (#[trigger] paths[i]).selected ==> !paths[i].ip)
            <==> !is_direct(paths),
        forall|k: int|
            0 <= k < paths.len() && (#[trigger] paths[k]).selected && (forall|j: int|
                0 <= j < paths.len() && (#[trigger] paths[j]).selected ==> j == k) ==> (is_direct(
                paths,
            ) <==> paths[k].ip),
{
    if forall|i: int| 0 <= i < paths.len() && (#[trigger] paths[i]).selected ==> !paths[i].ip {
        assert(!is_direct(paths));
    }
}

/// Whether a connection is direct can be told from its paths one at a time: no
/// path makes none, one path makes it direct if it is selected and leads to an IP
/// address, and a list is direct if a part of it is.
pub proof fn law_direct_is_told_path_by_path(
    path: PathModel,
    left: Seq<PathModel>,
    right: Seq<PathModel>,
)
    ensures
        !is_direct(Seq::empty()),
        is_direct(seq![path]) <==> path.selected && path.ip,
        is_direct(left + right) <==> is_direct(left) || is_direct(right),
{
    let whole = left + right;
    if path.selected && path.ip {
        assert(seq![path][0].selected && seq![path][0].ip);
    }
    if is_direct(left) {
        let i = choose|i: int| 0 <= i < left.len() && (#[trigger] left[i]).selected && left[i].ip;
        assert(whole[i] == left[i]);
    }
    if is_direct(right) {
        let i = choose|i: int|
            0 <= i < right.len() && (#[trigger] right[i]).selected && right[i].ip;
        assert(whole[left.len() + i] == right[i]);
    }
    if is_direct(whole) {
        let i = choose|i: int|
            0 <= i < whole.len() && (#[trigger] whole[i]).selected && whole[i].ip;
        if i < left.len() {
            assert(left[i] == whole[i]);
        } else {
            assert(right[i - left.len()] == whole[i]);
        }
    }
}

/// A connection is on the relay exactly if it sends on some path, and on none
/// that leads to an IP address. One that sends on no path is neither direct nor
/// on the relay.
pub proof fn law_relayed_means_selected_and_no_ip(paths: Seq<PathModel>)
    ensures
        is_relayed(paths) <==> (exists|i: int|
            0 <= i < paths.len() && (#[trigger] paths[i]).selected) && (forall|i: int|
            0 <= i < paths.len() && (#[trigger] paths[i]).selected ==> !paths[i].ip),
        !(is_relayed(paths) && is_direct(paths)),
        (exists|i: int| 0 <= i < paths.len() && (#[trigger] paths[i]).selected) <==> is_relayed(
            paths,
        ) || is_direct(paths),
{
    law_selected_remote_is_first(paths);
    law_direct_needs_one_selected_ip_path(paths);
}

/// What the dialer does next while it waits for a direct path.
#[derive(Clone, Copy, PartialEq, Eq, Structural, Debug)]
pub enum WatchAction {
    /// Sleep for this many milliseconds, then look again.
    Sleep { ms: u64 },
    /// Stop, with whether a direct path was seen.
    Stop { direct: bool },
}

/// The wait for a direct path, which ends at the first direct path seen or at
/// the deadline.
#[derive(Debug)]
pub struct Watch {
    outcome: Option<bool>,
}

impl View for Watch {
    type V = Option<bool>;

    closed spec fn view(&self) -> Option<bool> {
        self.outcome
    }
}

/// The outcome of a wait after one more look at the paths.
pub open spec fn after_look(outcome: Option<bool>, paths: Seq<PathModel>) -> Option<bool> {
    if outcome is None && is_direct(paths) {
        Some(true)
    } else {
        outcome
    }
}

/// The outcome of a wait at its deadline.
pub open spec fn after_deadline(outcome: Option<bool>) -> Option<bool> {
    if outcome is None {
        Some(false)
    } else {
        outcome
    }
}

/// What a wait with this outcome, or without one yet, asks for.
pub open spec fn watch_action(outcome: Option<bool>) -> WatchAction {
    match outcome {
        Some(direct) => WatchAction::Stop { direct },
        None => WatchAction::Sleep { ms: POLL_MS },
    }
}

impl Watch {
    /// Starts a wait.
    pub fn start() -> (watch: Watch)
        ensures
            watch@ is None,
    {
        Watch { outcome: None }
    }

    /// Takes a look at the paths.
    pub fn look(&mut self, paths: &Vec<PathInfo>)
        ensures
            final(self)@ == after_look(old(self)@, path_models(paths@)),
    {
        if self.outcome.is_none() && direct(paths) {
            self.outcome = Some(true);
        }
    }

    /// Ends the wait at its deadline.
    pub fn deadline(&mut self)
        ensures
            final(self)@ == after_deadline(old(self)@),
    {
        if self.outcome.is_none() {
            self.outcome = Some(false);
        }
    }

    /// Tells what to do next.
    pub fn action(&self) -> (action: WatchAction)
        ensures
            action == match self@ {
                Some(direct) => WatchAction::Stop { direct },
                None => WatchAction::Sleep { ms: POLL_MS },
            },
            action == watch_action(self@),
    {
        match self.outcome {
            Some(direct) => WatchAction::Stop { direct },
            None => WatchAction::Sleep { ms: POLL_MS },
        }
    }
}

/// The outcome of a wait after a series of looks.
pub open spec fn after_looks(looks: Seq<Seq<PathModel>>) -> Option<bool>
    decreases looks.len(),
{
    if looks.len() == 0 {
        None
    } else {
        after_look(after_looks(looks.drop_last()), looks.last())
    }
}

/// A wait that looks at the paths any number of times before its deadline ends
/// with a direct path exactly if one of those looks saw one.
pub proof fn law_wait_sees_direct(looks: Seq<Seq<PathModel>>)
    ensures
        after_deadline(after_looks(looks)) == Some(
            exists|i: int| 0 <= i < looks.len() && is_direct(#[trigger] looks[i]),
        ),
        after_looks(looks) is Some ==> after_looks(looks) == Some(true),
    decreases looks.len(),
{
    if looks.len() > 0 {
        let earlier = looks.drop_last();
        law_wait_sees_direct(earlier);
        assert forall|i: int| 0 <= i < earlier.len() implies #[trigger] earlier[i] == looks[i] by {}
        if exists|i: int| 0 <= i < looks.len() && is_direct(#[trigger] looks[i]) {
            let i = choose|i: int| 0 <= i < looks.len() && is_direct(#[trigger] looks[i]);
            if i < earlier.len() {
                assert(is_direct(earlier[i]));
            }
        }
        if after_looks(earlier) is Some {
            let i = choose|i: int| 0 <= i < earlier.len() && is_direct(#[trigger] earlier[i]);
            assert(is_direct(looks[i]));
        }
    }
}

/// A wait that has ended stays as it ended, whatever is seen later. A running one
/// ends with a direct path at the first look that sees one and goes on otherwise,
/// and the deadline ends it without one.
pub proof fn law_ended_wait_is_final(outcome: Option<bool>, paths: Seq<PathModel>)
    ensures
        outcome is Some ==> after_look(outcome, paths) == outcome && after_deadline(outcome)
            == outcome,
        outcome is None && (exists|i: int|
            0 <= i < paths.len() && (#[trigger] paths[i]).selected && paths[i].ip) ==> after_look(
            outcome,
            paths,
        ) == Some(true),
        outcome is None && (forall|i: int|
            0 <= i < paths.len() && (#[trigger] paths[i]).selected ==> !paths[i].ip) ==> after_look(
            outcome,
            paths,
        ) is None,
        outcome is None ==> after_deadline(outcome) == Some(false),
{
}

/// What a wait asks for next: a running wait sleeps a fiftieth of a second, which
/// leaves room for five hundred looks before the watch is over, and an ended one
/// stops with what it found.
pub proof fn law_wait_sleeps_until_it_ends(outcome: Option<bool>)
    ensures
        watch_action(outcome) is Stop <==> outcome is Some,
        watch_action(outcome) matches WatchAction::Stop { direct } ==> outcome == Some(direct),
        watch_action(outcome) matches WatchAction::Sleep { ms } ==> ms == 20 && 500 * ms
            == OBSERVE_MS,
{
}

} // verus!
