//! Open issues report: NCRs and CAPAs not closed, and tests whose latest run
//! failed.

use vstd::prelude::*;
use crate::entities::{CapaStatus, NcrStatus, Verdict};
use crate::listing::{law_selected_exactly_flagged, positions_where, selected_positions};
use crate::helpers::{truncate_str, truncated_form};
use crate::text::{append_text, byte_len, concat_texts, decimal, decimal_text, is_byte_boundary};
use super::{draw_markdown_table, latest_result, markdown_table, runs_view, table_view, text_row, TestRun};
use super::test_status::{failing_tests, latest_verdict_is};

verus! {

pub struct OpenIssuesArgs {
    /// Output to file instead of stdout
    pub output: Option<String>,
}

/// The open issues, each as positions in its loaded list.
pub struct OpenIssues {
    pub ncrs: Vec<usize>,
    pub capas: Vec<usize>,
    pub failed_tests: Vec<usize>,
}

/// The positions of the NCRs that are not closed.
pub open spec fn open_ncrs(ncrs: Seq<NcrStatus>) -> Seq<usize> {
    selected_positions(Seq::new(ncrs.len(), |i: int| ncrs[i] != NcrStatus::Closed))
}

/// The positions of the CAPAs that are not closed.
pub open spec fn open_capas(capas: Seq<CapaStatus>) -> Seq<usize> {
    selected_positions(Seq::new(capas.len(), |i: int| capas[i] != CapaStatus::Closed))
}

/// The open NCRs are exactly those not closed, and the open CAPAs are
/// exactly those not closed: an NCR or CAPA in any other status (such as
/// under investigation) is open.
pub proof fn law_open_means_not_closed(ncrs: Seq<NcrStatus>, capas: Seq<CapaStatus>)
    requires
        ncrs.len() <= usize::MAX,
        capas.len() <= usize::MAX,
    ensures
        forall|i: int| 0 <= i < ncrs.len() ==> (#[trigger] open_ncrs(ncrs).contains(i as usize) <==> ncrs[i] != NcrStatus::Closed),
        forall|a: int| 0 <= a < open_ncrs(ncrs).len() ==> (#[trigger] open_ncrs(ncrs)[a]) < ncrs.len(),
        forall|i: int| 0 <= i < capas.len() ==> (#[trigger] open_capas(capas).contains(i as usize) <==> capas[i] != CapaStatus::Closed),
        forall|a: int| 0 <= a < open_capas(capas).len() ==> (#[trigger] open_capas(capas)[a]) < capas.len(),
{
    let kn = Seq::new(ncrs.len(), |i: int| ncrs[i] != NcrStatus::Closed);
    let kc = Seq::new(capas.len(), |i: int| capas[i] != CapaStatus::Closed);
    law_selected_exactly_flagged(kn);
    law_selected_exactly_flagged(kc);
    assert forall|i: int| 0 <= i < ncrs.len() implies (#[trigger] open_ncrs(ncrs).contains(i as usize) <==> ncrs[i] != NcrStatus::Closed) by {
        assert(kn[i] == (ncrs[i] != NcrStatus::Closed));
    }
    assert forall|i: int| 0 <= i < capas.len() implies (#[trigger] open_capas(capas).contains(i as usize) <==> capas[i] != CapaStatus::Closed) by {
        assert(kc[i] == (capas[i] != CapaStatus::Closed));
    }
}

/// Collects the open issues from the statuses of all NCRs and CAPAs, the
/// test protocols (their identifiers) and all recorded runs.
pub fn open_issues(ncrs: &Vec<NcrStatus>, capas: &Vec<CapaStatus>, tests: &Vec<String>, runs: &Vec<TestRun>) -> (r: OpenIssues)
    ensures
        r.ncrs@ == open_ncrs(ncrs@),
        r.capas@ == open_capas(capas@),
        r.failed_tests@ == failing_tests(tests@.map_values(|s: String| s@), runs_view(runs@)),
        forall|i: int| 0 <= i < ncrs.len() ==> (#[trigger] r.ncrs@.contains(i as usize) <==> ncrs@[i] != NcrStatus::Closed),
        forall|i: int| 0 <= i < capas.len() ==> (#[trigger] r.capas@.contains(i as usize) <==> capas@[i] != CapaStatus::Closed),
{
    proof {
        assert(ncrs@.len() == ncrs.len() && capas@.len() == capas.len());
        law_open_means_not_closed(ncrs@, capas@);
    }
    let mut keep_ncr: Vec<bool> = Vec::new();
    let mut i: usize = 0;
    while i < ncrs.len()
        invariant
            i <= ncrs.len(),
            keep_ncr.len() == i,
            forall|k: int| 0 <= k < i ==> keep_ncr@[k] == (ncrs@[k] != NcrStatus::Closed),
        decreases ncrs.len() - i,
    {
        keep_ncr.push(ncrs[i] != NcrStatus::Closed);
        i = i + 1;
    }
    assert(keep_ncr@ =~= Seq::new(ncrs@.len(), |i: int| ncrs@[i] != NcrStatus::Closed));
    let mut keep_capa: Vec<bool> = Vec::new();
    let mut i: usize = 0;
    while i < capas.len()
        invariant
            i <= capas.len(),
            keep_capa.len() == i,
            forall|k: int| 0 <= k < i ==> keep_capa@[k] == (capas@[k] != CapaStatus::Closed),
        decreases capas.len() - i,
    {
        keep_capa.push(capas[i] != CapaStatus::Closed);
        i = i + 1;
    }
    assert(keep_capa@ =~= Seq::new(capas@.len(), |i: int| capas@[i] != CapaStatus::Closed));
    let ghost t = tests@.map_values(|s: String| s@);
    let ghost rv = runs_view(runs@);
    let mut keep_test: Vec<bool> = Vec::new();
    let mut j: usize = 0;
    while j < tests.len()
        invariant
            t == tests@.map_values(|s: String| s@),
            rv == runs_view(runs@),
            j <= tests.len(),
            keep_test.len() == j,
            forall|k: int| 0 <= k < j ==> keep_test@[k] == latest_verdict_is(t, rv, Verdict::Fail)(k),
        decreases tests.len() - j,
    {
        let found = latest_result(runs, tests[j].as_str());
        assert(t[j as int] == tests@[j as int]@);
        let fails = match found {
            Some(x) => {
                assert(rv[x as int] == runs@[x as int]@);
                runs[x].verdict == Verdict::Fail
            },
            None => false,
        };
        keep_test.push(fails);
        j = j + 1;
    }
    assert(keep_test@ =~= Seq::new(t.len(), |j: int| latest_verdict_is(t, rv, Verdict::Fail)(j)));
    OpenIssues { ncrs: positions_where(&keep_ncr), capas: positions_where(&keep_capa), failed_tests: positions_where(&keep_test) }
}


/// An open issue as its table shows it; the texts are as shown.
pub struct IssueLine {
    /// The identifier (its short form when it has one).
    pub id: String,
    pub title: String,
    /// Severity of an NCR, or type of a CAPA or test.
    pub kind: String,
    /// Status of an NCR or CAPA (not shown for tests).
    pub status: String,
}

/// The title can be shortened to `width` bytes.
pub open spec fn title_fits(l: IssueLine, width: int) -> bool {
    byte_len(l.title@) > width ==> is_byte_boundary(l.title@, width - 3)
}

/// The row of an NCR or CAPA.
pub open spec fn issue_cells(l: IssueLine) -> Seq<Seq<char>> {
    seq![l.id@, truncated_form(l.title@, 30), l.kind@, l.status@]
}

/// The row of a failed test.
pub open spec fn test_cells(l: IssueLine) -> Seq<Seq<char>> {
    seq![l.id@, truncated_form(l.title@, 40), l.kind@]
}

/// The row of an issue: a failed test's (`wide`) or an NCR's or CAPA's.
pub open spec fn line_cells(l: IssueLine, wide: bool) -> Seq<Seq<char>> {
    if wide {
        test_cells(l)
    } else {
        issue_cells(l)
    }
}

/// A titled table section, present only when it has rows.
pub open spec fn section(title: Seq<char>, header: Seq<Seq<char>>, rows: Seq<Seq<Seq<char>>>) -> Seq<char> {
    if rows.len() > 0 {
        "\n## "@ + title + "\n\n"@ + markdown_table(seq![header] + rows)
    } else {
        Seq::empty()
    }
}

/// The open issues report.
pub open spec fn open_issues_document_text(ncrs: Seq<IssueLine>, capas: Seq<IssueLine>, tests: Seq<IssueLine>) -> Seq<char> {
    "# Open Issues Report\n\n## Summary\n\n"@
        + markdown_table(seq![
            seq!["Category"@, "Count"@],
            seq!["Open NCRs"@, decimal(ncrs.len())],
            seq!["Open CAPAs"@, decimal(capas.len())],
            seq!["Failed Tests"@, decimal(tests.len())],
        ])
        + section("Open NCRs"@, seq!["ID"@, "Title"@, "Severity"@, "Status"@], ncrs.map_values(|l: IssueLine| line_cells(l, false)))
        + section("Open CAPAs"@, seq!["ID"@, "Title"@, "Type"@, "Status"@], capas.map_values(|l: IssueLine| line_cells(l, false)))
        + section("Failed Tests"@, seq!["ID"@, "Title"@, "Type"@], tests.map_values(|l: IssueLine| line_cells(l, true)))
}

/// A table row of two cells.
fn pair_row(a: &str, b: String) -> (r: Vec<String>)
    ensures
        r@.map_values(|c: String| c@) == seq![a@, b@],
{
    let mut r: Vec<String> = Vec::new();
    r.push(a.to_owned());
    r.push(b);
    assert(r@.map_values(|c: String| c@) =~= seq![a@, b@]);
    r
}

/// Writes a titled table section for the lines, when there are any; `wide`
/// tables (failed tests) show a longer title and no status.
fn issue_section(out: &mut String, title: &str, header: &Vec<&str>, lines: &Vec<IssueLine>, wide: bool)
    requires
        forall|i: int| 0 <= i < lines.len() ==> title_fits(#[trigger] lines@[i], if wide { 40 } else { 30 }),
    ensures
        final(out)@ == old(out)@ + section(title@, header@.map_values(|c: &str| c@), lines@.map_values(|l: IssueLine| line_cells(l, wide))),
{
    let ghost cells = |l: IssueLine| line_cells(l, wide);
    if lines.len() == 0 {
        assert(lines@.map_values(cells) =~= Seq::<Seq<Seq<char>>>::empty());
        assert(out@ =~= out@ + Seq::<char>::empty());
        return;
    }
    let mut table: Vec<Vec<String>> = Vec::new();
    table.push(text_row(header));
    let mut i: usize = 0;
    while i < lines.len()
        invariant
            i <= lines.len(),
            cells == (|l: IssueLine| line_cells(l, wide)),
            forall|k: int| 0 <= k < lines.len() ==> title_fits(#[trigger] lines@[k], if wide { 40 } else { 30 }),
            table_view(table@) == seq![header@.map_values(|c: &str| c@)] + lines@.take(i as int).map_values(cells),
        decreases lines.len() - i,
    {
        let l = &lines[i];
        let mut row: Vec<String> = Vec::new();
        row.push(l.id.clone());
        if wide {
            row.push(truncate_str(l.title.as_str(), 40));
            row.push(l.kind.clone());
        } else {
            row.push(truncate_str(l.title.as_str(), 30));
            row.push(l.kind.clone());
            row.push(l.status.clone());
        }
        assert(row@.map_values(|c: String| c@) =~= cells(lines@[i as int]));
        let ghost before = table_view(table@);
        table.push(row);
        assert(table_view(table@) =~= before.push(cells(lines@[i as int])));
        assert(lines@.take(i as int + 1) =~= lines@.take(i as int).push(lines@[i as int]));
        i = i + 1;
    }
    assert(lines@.take(lines.len() as int) =~= lines@);
    append_text(out, "\n## ");
    append_text(out, title);
    append_text(out, "\n\n");
    append_text(out, draw_markdown_table(&table).as_str());
}

/// Writes the open issues report from the lines of the open NCRs, the open
/// CAPAs and the failed tests.
pub fn open_issues_document(ncrs: &Vec<IssueLine>, capas: &Vec<IssueLine>, tests: &Vec<IssueLine>) -> (r: String)
    requires
        forall|i: int| 0 <= i < ncrs.len() ==> title_fits(#[trigger] ncrs@[i], 30),
        forall|i: int| 0 <= i < capas.len() ==> title_fits(#[trigger] capas@[i], 30),
        forall|i: int| 0 <= i < tests.len() ==> title_fits(#[trigger] tests@[i], 40),
    ensures
        r@ == open_issues_document_text(ncrs@, capas@, tests@),
{
    let mut summary: Vec<Vec<String>> = Vec::new();
    let names = vec!["Category", "Count"];
    let header = text_row(&names);
    assert(header@.map_values(|c: String| c@) =~= seq!["Category"@, "Count"@]);
    summary.push(header);
    summary.push(pair_row("Open NCRs", decimal_text(ncrs.len())));
    summary.push(pair_row("Open CAPAs", decimal_text(capas.len())));
    summary.push(pair_row("Failed Tests", decimal_text(tests.len())));
    let mut out = concat_texts("# Open Issues Report\n\n## Summary\n\n", draw_markdown_table(&summary).as_str());
    assert(table_view(summary@) =~= seq![
        seq!["Category"@, "Count"@],
        seq!["Open NCRs"@, decimal(ncrs@.len())],
        seq!["Open CAPAs"@, decimal(capas@.len())],
        seq!["Failed Tests"@, decimal(tests@.len())],
    ]);
    let ncr_header = vec!["ID", "Title", "Severity", "Status"];
    issue_section(&mut out, "Open NCRs", &ncr_header, ncrs, false);
    let capa_header = vec!["ID", "Title", "Type", "Status"];
    issue_section(&mut out, "Open CAPAs", &capa_header, capas, false);
    let test_header = vec!["ID", "Title", "Type"];
    issue_section(&mut out, "Failed Tests", &test_header, tests, true);
    assert(ncr_header@.map_values(|c: &str| c@) =~= seq!["ID"@, "Title"@, "Severity"@, "Status"@]);
    assert(capa_header@.map_values(|c: &str| c@) =~= seq!["ID"@, "Title"@, "Type"@, "Status"@]);
    assert(test_header@.map_values(|c: &str| c@) =~= seq!["ID"@, "Title"@, "Type"@]);
    out
}

} // verus!
