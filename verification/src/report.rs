//! Engineering reports: which result of a test counts as its latest, and the
//! report kinds with their options. The reports themselves are computed in
//! the submodules.

pub mod bom;
pub mod fmea;
pub mod open_issues;
pub mod rvm;
pub mod test_status;

use vstd::prelude::*;
use crate::common::{instant, is_later, pos_view, Timestamp};
use crate::entities::Verdict;
use crate::text::str_eq;
pub use self::bom::BomArgs;
pub use self::fmea::FmeaArgs;
pub use self::open_issues::OpenIssuesArgs;
pub use self::rvm::RvmArgs;
pub use self::test_status::TestStatusArgs;

verus! {

pub enum ReportCommands {
    /// Requirements Verification Matrix (RVM)
    Rvm(RvmArgs),

    /// FMEA report sorted by RPN
    Fmea(FmeaArgs),

    /// BOM (Bill of Materials) with costs
    Bom(BomArgs),

    /// Test execution status summary
    TestStatus(TestStatusArgs),

    /// All open issues (NCRs, CAPAs, failed tests)
    OpenIssues(OpenIssuesArgs),
}

/// One recorded execution of a test protocol.
#[derive(Debug)]
pub struct TestRun {
    /// The result's own identifier.
    pub id: String,
    /// The test protocol that was run.
    pub test_id: String,
    pub verdict: Verdict,
    pub executed: Timestamp,
}

/// Mathematical form of a [`TestRun`].
pub struct TestRunView {
    pub id: Seq<char>,
    pub test_id: Seq<char>,
    pub verdict: Verdict,
    pub executed: Timestamp,
}

impl View for TestRun {
    type V = TestRunView;

    open spec fn view(&self) -> TestRunView {
        TestRunView { id: self.id@, test_id: self.test_id@, verdict: self.verdict, executed: self.executed }
    }
}

/// The runs, each taken by its view.
pub open spec fn runs_view(runs: Seq<TestRun>) -> Seq<TestRunView> {
    runs.map_values(|r: TestRun| r@)
}

/// Among the first `n` runs, the one that counts as the latest run of test
/// `t`: runs are taken in order, and a run replaces the one kept so far only
/// when it was executed strictly later.
pub open spec fn latest_in(runs: Seq<TestRunView>, n: int, t: Seq<char>) -> Option<int>
    decreases n,
{
    if n <= 0 {
        None
    } else {
        let prev = latest_in(runs, n - 1, t);
        if runs[n - 1].test_id == t && match prev {
            Some(p) => instant(runs[n - 1].executed) > instant(runs[p].executed),
            None => true,
        } {
            Some(n - 1)
        } else {
            prev
        }
    }
}

/// The latest run of test `t` among all runs.
pub open spec fn latest_run(runs: Seq<TestRunView>, t: Seq<char>) -> Option<int> {
    latest_in(runs, runs.len() as int, t)
}

/// The position of the latest run of the test `test_id`, if it was run.
pub fn latest_result(runs: &Vec<TestRun>, test_id: &str) -> (r: Option<usize>)
    ensures
        pos_view(r) == latest_run(runs_view(runs@), test_id@),
        r matches Some(i) ==> i < runs.len(),
{
    let ghost rv = runs_view(runs@);
    let mut best: Option<usize> = None;
    let mut i: usize = 0;
    while i < runs.len()
        invariant
            rv == runs_view(runs@),
            i <= runs.len(),
            pos_view(best) == latest_in(rv, i as int, test_id@),
            best matches Some(b) ==> b < i,
        decreases runs.len() - i,
    {
        assert(rv[i as int] == runs@[i as int]@);
        if str_eq(runs[i].test_id.as_str(), test_id) {
            match best {
                None => {
                    best = Some(i);
                },
                Some(b) => {
                    assert(rv[b as int] == runs@[b as int]@);
                    if is_later(runs[i].executed, runs[b].executed) {
                        best = Some(i);
                    }
                },
            }
        }
        i = i + 1;
    }
    best
}

/// The run kept as the latest of a test is a run of that test, none of its
/// runs is later, and every earlier run of it is strictly earlier; a test
/// has no latest run exactly when it was never run.
pub proof fn law_latest_is_first_latest(runs: Seq<TestRunView>, n: int, t: Seq<char>)
    requires
        0 <= n <= runs.len(),
    ensures
        latest_in(runs, n, t) matches Some(i) ==> {
            &&& 0 <= i < n
            &&& runs[i].test_id == t
            &&& forall|j: int| 0 <= j < n && (#[trigger] runs[j]).test_id == t ==> instant(runs[j].executed) <= instant(runs[i].executed)
            &&& forall|j: int| 0 <= j < i && (#[trigger] runs[j]).test_id == t ==> instant(runs[j].executed) < instant(runs[i].executed)
        },
        latest_in(runs, n, t) is None <==> forall|j: int| 0 <= j < n ==> (#[trigger] runs[j]).test_id != t,
    decreases n,
{
    if n > 0 {
        law_latest_is_first_latest(runs, n - 1, t);
    }
}



/// The text `tabled` draws for a table in Markdown style, the first row
/// being the header.
pub uninterp spec fn markdown_table(rows: Seq<Seq<Seq<char>>>) -> Seq<char>;

/// The rows of a table, each cell taken by its view.
pub open spec fn table_view(rows: Seq<Vec<String>>) -> Seq<Seq<Seq<char>>> {
    rows.map_values(|row: Vec<String>| row@.map_values(|c: String| c@))
}

/// Draws a table with `tabled::builder::Builder` in `Style::markdown()`:
/// the result is named [`markdown_table`] of the rows.
#[verifier::external_body]
pub(crate) fn draw_markdown_table(rows: &Vec<Vec<String>>) -> (r: String)
    ensures
        r@ == markdown_table(table_view(rows@)),
{
    let mut builder = tabled::builder::Builder::default();
    for row in rows {
        builder.push_record(row.iter().map(|c| c.as_str()));
    }
    builder.build().with(tabled::settings::Style::markdown()).to_string()
}

/// A table row of literal texts.
pub(crate) fn text_row(cells: &Vec<&str>) -> (r: Vec<String>)
    ensures
        r@.map_values(|c: String| c@) == cells@.map_values(|c: &str| c@),
{
    let mut r: Vec<String> = Vec::new();
    let mut i: usize = 0;
    while i < cells.len()
        invariant
            i <= cells.len(),
            r@.map_values(|c: String| c@) == cells@.take(i as int).map_values(|c: &str| c@),
        decreases cells.len() - i,
    {
        let ghost before = r@.map_values(|c: String| c@);
        r.push(cells[i].to_owned());
        assert(r@.map_values(|c: String| c@) =~= before.push(cells@[i as int]@));
        assert(cells@.take(i as int + 1) =~= cells@.take(i as int).push(cells@[i as int]));
        i = i + 1;
    }
    assert(cells@.take(cells.len() as int) =~= cells@);
    r
}

} // verus!
