//! A whole run of the lab: the cases in order, and the results so far.

use vstd::prelude::*;

use crate::case;
use crate::case::LabCase;
#[allow(unused_imports)]
use crate::document;
use crate::document::{Document, Summary};
#[allow(unused_imports)]
use crate::document::Scalar;

verus! {

/// A run of the lab. Each case adds one document to the results.
pub struct LabRun {
    summary: Summary,
}

impl View for LabRun {
    type V = Seq<Map<Seq<char>, Scalar>>;

    closed spec fn view(&self) -> Seq<Map<Seq<char>, Scalar>> {
        self.summary@
    }
}

/// The case that follows once this many cases have results.
pub open spec fn case_after(count: nat) -> Option<LabCase> {
    if count < case::case_list().len() {
        Some(case::case_list()[count as int])
    } else {
        None
    }
}

impl LabRun {
    /// Starts a run without results.
    pub fn start() -> (run: LabRun)
        ensures
            run@.len() == 0,
    {
        LabRun { summary: Summary::empty() }
    }

    /// Gives the case to run next, if one is left.
    pub fn next_case(&self) -> (next: Option<LabCase>)
        ensures
            next == case_after(self@.len()),
    {
        let cases = case::cases();
        let count = self.summary.len();
        if count < cases.len() {
            Some(cases[count])
        } else {
            None
        }
    }

    /// Adds the result of a case, and gives what the summary file then holds:
    /// all results so far.
    pub fn record(&mut self, document: Document) -> (summary: Vec<u8>)
        ensures
            final(self)@ == old(self)@.push(document@),
            summary@ == document::pretty_json(final(self)@),
    {
        self.summary.add(document);
        self.summary.write()
    }
}

/// The results of a run to which these documents were added, in order.
pub open spec fn recorded(documents: Seq<Map<Seq<char>, Scalar>>) -> Seq<Map<Seq<char>, Scalar>>
    decreases documents.len(),
{
    if documents.len() == 0 {
        Seq::empty()
    } else {
        recorded(documents.drop_last()).push(documents.last())
    }
}

/// Adding a result never loses or moves an earlier one, and a run is over after
/// as many results as there are cases, each case having been next exactly once
/// and in the order of the list.
pub proof fn law_run_keeps_results_in_order(documents: Seq<Map<Seq<char>, Scalar>>)
    ensures
        recorded(documents) == documents,
        case_after(recorded(documents).len()) is None <==> documents.len()
            >= case::case_list().len(),
        documents.len() < case::case_list().len() ==> case_after(recorded(documents).len()) == Some(
            case::case_list()[documents.len() as int],
        ),
    decreases documents.len(),
{
    if documents.len() > 0 {
        law_run_keeps_results_in_order(documents.drop_last());
        assert(recorded(documents) =~= documents);
    }
}

} // verus!
