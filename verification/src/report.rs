//! The lines of the report that is shown at the end of a run.

use vstd::prelude::*;
use vstd::string::*;
use crate::analysis::{AnalysisView, DependencyAnalysis};

verus! {

/// The label that closes a line of the report.
pub open spec fn status_label(is_outdated: bool) -> Seq<char> {
    if is_outdated {
        "(obsolete)"@
    } else {
        "(Up to date)"@
    }
}

/// The line for one record: `name: current -> latest` and the label.
pub open spec fn line_of(record: AnalysisView) -> Seq<char> {
    record.name + ": "@ + record.current_version + " -> "@ + record.latest_version + " "@
        + status_label(record.is_outdated)
}

/// The two lines that open every report.
pub open spec fn heading() -> Seq<Seq<char>> {
    seq!["\nAnalysis :"@, "------------------------"@]
}

/// The lines that follow the heading: one for each record, in their order,
/// or a single notice where there is no record.
pub open spec fn body_of(records: Seq<AnalysisView>) -> Seq<Seq<char>> {
    if records.len() == 0 {
        seq!["Aucune dépendance analysée avec succès."@]
    } else {
        records.map_values(|r: AnalysisView| line_of(r))
    }
}

/// The whole report.
pub open spec fn report_of(records: Seq<AnalysisView>) -> Seq<Seq<char>> {
    heading() + body_of(records)
}

/// Formats one record as a line of the report.
pub fn report_line(record: &DependencyAnalysis) -> (line: String)
    ensures
        line@ == line_of(record@),
{
    let label: &str = if record.is_outdated {
        "(obsolete)"
    } else {
        "(Up to date)"
    };
    String::from_str(record.name.as_str()).concat(": ").concat(
        record.current_version.as_str(),
    ).concat(" -> ").concat(record.latest_version.as_str()).concat(" ").concat(label)
}

/// Formats the report on a batch: the heading, then a line for each record,
/// or the notice that nothing was analyzed.
pub fn report_lines(analyses: &Vec<DependencyAnalysis>) -> (lines: Vec<String>)
    ensures
        lines@.map_values(|l: String| l@) == report_of(
            analyses@.map_values(|r: DependencyAnalysis| r@),
        ),
{
    let ghost records = analyses@.map_values(|r: DependencyAnalysis| r@);
    let mut lines: Vec<String> = Vec::new();
    lines.push(String::from_str("\nAnalysis :"));
    lines.push(String::from_str("------------------------"));
    assert(lines@.map_values(|l: String| l@) =~= heading());
    if analyses.len() == 0 {
        lines.push(String::from_str("Aucune dépendance analysée avec succès."));
        assert(lines@.map_values(|l: String| l@) =~= report_of(records));
        return lines;
    }
    let mut i: usize = 0;
    while i < analyses.len()
        invariant
            i <= analyses@.len(),
            records == analyses@.map_values(|r: DependencyAnalysis| r@),
            lines@.map_values(|l: String| l@) == heading() + records.map_values(
                |r: AnalysisView| line_of(r),
            ).subrange(0, i as int),
        decreases analyses@.len() - i,
    {
        let ghost before = lines@.map_values(|l: String| l@);
        let line: String = report_line(&analyses[i]);
        lines.push(line);
        assert(lines@.map_values(|l: String| l@) =~= before.push(line_of(records[i as int])));
        assert(lines@.map_values(|l: String| l@) =~= heading() + records.map_values(
            |r: AnalysisView| line_of(r),
        ).subrange(0, i + 1));
        i = i + 1;
    }
    assert(records.map_values(|r: AnalysisView| line_of(r)).subrange(0, i as int)
        =~= records.map_values(|r: AnalysisView| line_of(r)));
    lines
}

} // verus!
