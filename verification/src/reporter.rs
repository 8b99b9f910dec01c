//! The recursive reporter: what to print for each node that a walk visits.
//!
//! The walk itself belongs to the caller, who must not let it follow reparse
//! points. Each node it yields becomes a [`TraversalEntry`]; [`emit`] decides
//! what that entry prints, one entry at a time, so that a large tree needs no
//! memory beyond the entry at hand.

use vstd::prelude::*;
use crate::error::RequestError;
use crate::path::{lossy_text, NativePath};
use crate::resolver::JunctionOutcome;
use crate::text::{junction_test_text, report_text};

verus! {

/// What became of one node of the walk.
#[derive(Clone, Debug, PartialEq, Eq)]
pub enum NodeResult {
    /// The walk reached the node, and the resolver gave this outcome for it.
    Resolved(JunctionOutcome),
    /// The walk could not enumerate here; the text says why.
    WalkError(String),
}

/// One node visited by the walk. For a walk error, `path` is the path that
/// the diagnostic is to name.
#[derive(Clone, Debug, PartialEq, Eq)]
pub struct TraversalEntry {
    pub path: NativePath,
    pub result: NodeResult,
}

/// What one entry makes the reporter print.
#[derive(Clone, Debug, PartialEq, Eq)]
pub enum Emission {
    /// A junction was found: the line goes to the output channel.
    Report(String),
    /// The node could not be examined: the line goes to the error channel,
    /// and the scan goes on.
    Diagnostic(String),
    /// Nothing to print.
    Silent,
}

/// An emission with its line as text.
pub enum EmissionView {
    Report(Seq<char>),
    Diagnostic(Seq<char>),
    Silent,
}

impl View for Emission {
    type V = EmissionView;

    open spec fn view(&self) -> EmissionView {
        match *self {
            Emission::Report(line) => EmissionView::Report(line@),
            Emission::Diagnostic(line) => EmissionView::Diagnostic(line@),
            Emission::Silent => EmissionView::Silent,
        }
    }
}

/// What an entry prints: a report for a junction, a diagnostic for a node
/// that could not be examined unless `quiet` is set, and nothing otherwise.
pub open spec fn emission_of(entry: TraversalEntry, quiet: bool) -> EmissionView {
    let shown = lossy_text(entry.path@);
    match entry.result {
        NodeResult::Resolved(JunctionOutcome::IsJunction(target)) => EmissionView::Report(
            report_text(shown, lossy_text(target@)),
        ),
        NodeResult::Resolved(JunctionOutcome::NotAJunction) => EmissionView::Silent,
        NodeResult::Resolved(JunctionOutcome::AccessError(failure)) => if quiet {
            EmissionView::Silent
        } else {
            EmissionView::Diagnostic(failure.diagnostic_text(shown))
        },
        NodeResult::WalkError(cause) => if quiet {
            EmissionView::Silent
        } else {
            EmissionView::Diagnostic(junction_test_text(shown, cause@))
        },
    }
}

/// The emissions of a scan with their lines as text.
pub open spec fn emission_views(emissions: Seq<Emission>) -> Seq<EmissionView> {
    Seq::new(emissions.len(), |i: int| emissions[i]@)
}

/// The report line of each entry that resolved to a junction, in the order
/// of the walk.
pub open spec fn junction_lines(entries: Seq<TraversalEntry>) -> Seq<Seq<char>>
    decreases entries.len(),
{
    if entries.len() == 0 {
        Seq::empty()
    } else {
        let before = junction_lines(entries.drop_last());
        match entries.last().result {
            NodeResult::Resolved(JunctionOutcome::IsJunction(target)) => before.push(
                report_text(lossy_text(entries.last().path@), lossy_text(target@)),
            ),
            _ => before,
        }
    }
}

/// The lines that go to the output channel, in the order they were emitted.
pub open spec fn reported_lines(emissions: Seq<EmissionView>) -> Seq<Seq<char>>
    decreases emissions.len(),
{
    if emissions.len() == 0 {
        Seq::empty()
    } else {
        let before = reported_lines(emissions.drop_last());
        match emissions.last() {
            EmissionView::Report(line) => before.push(line),
            _ => before,
        }
    }
}

/// How many lines go to the error channel.
pub open spec fn diagnostic_count(emissions: Seq<EmissionView>) -> nat
    decreases emissions.len(),
{
    if emissions.len() == 0 {
        0
    } else if emissions.last() is Diagnostic {
        diagnostic_count(emissions.drop_last()) + 1
    } else {
        diagnostic_count(emissions.drop_last())
    }
}

/// Whether `emissions` holds what each of `entries` prints, one for one.
pub open spec fn emitted_from(
    emissions: Seq<EmissionView>,
    entries: Seq<TraversalEntry>,
    quiet: bool,
) -> bool {
    &&& emissions.len() == entries.len()
    &&& forall|i: int|
        0 <= i < entries.len() ==> #[trigger] emissions[i] == emission_of(entries[i], quiet)
}

/// The line that announces the junction at `path` and its target `dest`.
pub fn report_junction(path: &NativePath, dest: &NativePath) -> (line: String)
    ensures
        line@ == report_text(lossy_text(path@), lossy_text(dest@)),
{
    String::from_str("JUNCTION: ").concat(path.display().as_str()).concat(" -> ").concat(
        dest.display().as_str(),
    )
}

/// Decides what one visited node prints.
pub fn emit(entry: &TraversalEntry, quiet: bool) -> (emission: Emission)
    ensures
        emission@ == emission_of(*entry, quiet),
{
    match &entry.result {
        NodeResult::Resolved(outcome) => match outcome {
            JunctionOutcome::IsJunction(target) => Emission::Report(
                report_junction(&entry.path, target),
            ),
            JunctionOutcome::NotAJunction => Emission::Silent,
            JunctionOutcome::AccessError(failure) => {
                if quiet {
                    Emission::Silent
                } else {
                    Emission::Diagnostic(failure.diagnostic(&entry.path))
                }
            },
        },
        NodeResult::WalkError(cause) => {
            if quiet {
                Emission::Silent
            } else {
                Emission::Diagnostic(
                    String::from_str("Could not access path `").concat(
                        entry.path.display().as_str(),
                    ).concat("` to check if junction: ").concat(cause.as_str()),
                )
            }
        },
    }
}

/// Decides what a whole walk prints: the emission of each entry, in the
/// order of the walk. No entry ends the scan.
pub fn report_all(entries: &Vec<TraversalEntry>, quiet: bool) -> (emissions: Vec<Emission>)
    ensures
        emissions.len() == entries.len(),
        forall|i: int|
            0 <= i < entries.len() ==> (#[trigger] emissions[i])@ == emission_of(
                entries[i],
                quiet,
            ),
        reported_lines(emission_views(emissions@)) == junction_lines(entries@),
        quiet ==> diagnostic_count(emission_views(emissions@)) == 0,
{
    let mut emissions: Vec<Emission> = Vec::new();
    let mut next: usize = 0;
    while next < entries.len()
        invariant
            next <= entries.len(),
            emissions.len() == next,
            forall|i: int|
                0 <= i < next ==> (#[trigger] emissions[i])@ == emission_of(entries[i], quiet),
        decreases entries.len() - next,
    {
        emissions.push(emit(&entries[next], quiet));
        next += 1;
    }
    proof {
        scan_reports_each_junction_once(entries@, emission_views(emissions@), quiet);
        if quiet {
            quiet_scan_has_no_diagnostics(entries@, emission_views(emissions@));
        }
    }
    emissions
}

/// The result of asking about one path only.
pub open spec fn single_report(path: NativePath, outcome: JunctionOutcome) -> Result<
    Seq<char>,
    RequestError,
> {
    match outcome {
        JunctionOutcome::IsJunction(target) => Ok(
            report_text(lossy_text(path@), lossy_text(target@)),
        ),
        JunctionOutcome::NotAJunction => Err(RequestError::NotAJunction { path }),
        JunctionOutcome::AccessError(failure) => Err(RequestError::AccessError { path, failure }),
    }
}

/// Decides how a request about one path ends: the report line for a
/// junction, and an error for anything else, which fails the request.
pub fn display_junction_info(path: NativePath, outcome: JunctionOutcome) -> (result: Result<
    String,
    RequestError,
>)
    ensures
        match single_report(path, outcome) {
            Ok(text) => result is Ok && result->Ok_0@ == text,
            Err(error) => result == Err::<String, RequestError>(error),
        },
{
    match outcome {
        JunctionOutcome::IsJunction(target) => Ok(report_junction(&path, &target)),
        JunctionOutcome::NotAJunction => Err(RequestError::NotAJunction { path }),
        JunctionOutcome::AccessError(failure) => Err(RequestError::AccessError { path, failure }),
    }
}

/// A scan reports exactly the junction sites: an entry gives a report if and
/// only if it resolved to a junction, with or without `quiet`, and the report
/// names that path and that target.
pub proof fn reports_exactly_the_junctions(entry: TraversalEntry, quiet: bool)
    ensures
        emission_of(entry, quiet) is Report <==> entry.result
            matches NodeResult::Resolved(JunctionOutcome::IsJunction(_)),
        entry.result matches NodeResult::Resolved(JunctionOutcome::IsJunction(target))
            ==> emission_of(entry, quiet) == EmissionView::Report(
            report_text(lossy_text(entry.path@), lossy_text(target@)),
        ),
{
}

/// A scan reports every junction that the walk came upon, once each and in
/// the order of the walk, and reports nothing else. Entries that could not be
/// examined take no report away from the others, and `quiet` changes none.
pub proof fn scan_reports_each_junction_once(
    entries: Seq<TraversalEntry>,
    emissions: Seq<EmissionView>,
    quiet: bool,
)
    requires
        emitted_from(emissions, entries, quiet),
    ensures
        reported_lines(emissions) == junction_lines(entries),
    decreases entries.len(),
{
    if entries.len() > 0 {
        assert(emissions.last() == emission_of(entries.last(), quiet));
        scan_reports_each_junction_once(entries.drop_last(), emissions.drop_last(), quiet);
    }
}

/// A quiet scan sends nothing to the error channel.
pub proof fn quiet_scan_has_no_diagnostics(
    entries: Seq<TraversalEntry>,
    emissions: Seq<EmissionView>,
)
    requires
        emitted_from(emissions, entries, true),
    ensures
        diagnostic_count(emissions) == 0,
    decreases entries.len(),
{
    if entries.len() > 0 {
        assert(emissions.last() == emission_of(entries.last(), true));
        quiet_scan_has_no_diagnostics(entries.drop_last(), emissions.drop_last());
    }
}

/// `quiet` takes away every diagnostic and nothing else: a quiet scan prints
/// no diagnostic, and it reports what a scan that is not quiet reports.
pub proof fn quiet_silences_only_diagnostics(entry: TraversalEntry)
    ensures
        !(emission_of(entry, true) is Diagnostic),
        emission_of(entry, false) is Report ==> emission_of(entry, true) == emission_of(
            entry,
            false,
        ),
        emission_of(entry, false) is Silent ==> emission_of(entry, true) is Silent,
        emission_of(entry, false) is Diagnostic <==> entry.result is WalkError || entry.result
            matches NodeResult::Resolved(JunctionOutcome::AccessError(_)),
{
}

} // verus!
