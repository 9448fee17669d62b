//! Test execution status: how many protocols were run, passed, failed or
//! are pending, and the most recent failures.

use vstd::prelude::*;
use crate::common::{count_where, instant, pos_view};
use crate::listing::{key_views, precedes, selected_positions, sorted_order, stable_sort_order, positions_where, SortKey, SortKeyView};
use crate::entities::Verdict;
use crate::helpers::{truncate_str, truncated_form};
use crate::text::{append_text, byte_len, concat_texts, decimal, decimal_text, is_byte_boundary};
use super::{draw_markdown_table, latest_result, latest_run, markdown_table, runs_view, table_view, text_row, TestRun, TestRunView};

verus! {

pub struct TestStatusArgs {
    /// Output to file instead of stdout
    pub output: Option<String>,
}

/// The most failures the report lists.
pub const RECENT_FAILURES_SHOWN: usize = 10;

/// The latest run of the test at position `j`.
pub open spec fn latest_of(tests: Seq<Seq<char>>, runs: Seq<TestRunView>, j: int) -> Option<int> {
    latest_run(runs, tests[j])
}

/// The test at a position has been run.
pub open spec fn was_run(tests: Seq<Seq<char>>, runs: Seq<TestRunView>) -> spec_fn(int) -> bool {
    |j: int| latest_of(tests, runs, j) is Some
}

/// The test at a position has never been run.
pub open spec fn not_run(tests: Seq<Seq<char>>, runs: Seq<TestRunView>) -> spec_fn(int) -> bool {
    |j: int| latest_of(tests, runs, j) is None
}

/// The latest run of the test at a position has this verdict.
pub open spec fn latest_verdict_is(tests: Seq<Seq<char>>, runs: Seq<TestRunView>, v: Verdict) -> spec_fn(int) -> bool {
    |j: int| latest_of(tests, runs, j) matches Some(i) && runs[i].verdict == v
}

/// The positions of the tests whose latest run failed, in test order.
pub open spec fn failing_tests(tests: Seq<Seq<char>>, runs: Seq<TestRunView>) -> Seq<usize> {
    selected_positions(Seq::new(tests.len(), |j: int| latest_verdict_is(tests, runs, Verdict::Fail)(j)))
}

/// The failures the report lists: failing tests with their latest run, the
/// most recently executed first (ties keep test order), at most ten.
pub open spec fn recent_failures(tests: Seq<Seq<char>>, runs: Seq<TestRunView>) -> Seq<(usize, usize)> {
    let f = failing_tests(tests, runs);
    let keys = f.map_values(|j: usize| SortKeyView::Num(instant(runs[latest_of(tests, runs, j as int)->0].executed)));
    let order = sorted_order(keys, true);
    let shown = if order.len() > RECENT_FAILURES_SHOWN {
        order.take(RECENT_FAILURES_SHOWN as int)
    } else {
        order
    };
    shown.map_values(|p: usize| (f[p as int], latest_of(tests, runs, f[p as int] as int)->0 as usize))
}

/// Each of the first `n` tests is counted once as executed or as pending,
/// and the passed, failed and conditional counts together never exceed the
/// executed count.
pub proof fn law_test_counts_partition(tests: Seq<Seq<char>>, runs: Seq<TestRunView>, n: int)
    requires
        0 <= n,
    ensures
        count_where(n, was_run(tests, runs)) + count_where(n, not_run(tests, runs)) == n,
        count_where(n, latest_verdict_is(tests, runs, Verdict::Pass)) + count_where(n, latest_verdict_is(tests, runs, Verdict::Fail))
            + count_where(n, latest_verdict_is(tests, runs, Verdict::Conditional)) <= count_where(n, was_run(tests, runs)),
    decreases n,
{
    if n > 0 {
        law_test_counts_partition(tests, runs, n - 1);
        let w = was_run(tests, runs);
        let u = not_run(tests, runs);
        let p = latest_verdict_is(tests, runs, Verdict::Pass);
        let f = latest_verdict_is(tests, runs, Verdict::Fail);
        let c = latest_verdict_is(tests, runs, Verdict::Conditional);
        assert(count_where(n, w) == count_where(n - 1, w) + if w(n - 1) { 1nat } else { 0nat });
        assert(count_where(n, u) == count_where(n - 1, u) + if u(n - 1) { 1nat } else { 0nat });
        assert(count_where(n, p) == count_where(n - 1, p) + if p(n - 1) { 1nat } else { 0nat });
        assert(count_where(n, f) == count_where(n - 1, f) + if f(n - 1) { 1nat } else { 0nat });
        assert(count_where(n, c) == count_where(n - 1, c) + if c(n - 1) { 1nat } else { 0nat });
        match latest_of(tests, runs, n - 1) {
            Some(i) => {
                match runs[i].verdict {
                    Verdict::Pass => {},
                    Verdict::Fail => {},
                    Verdict::Conditional => {},
                    _ => {},
                }
            },
            None => {},
        }
    }
}

/// The counts and failures of the test status report.
pub struct TestStatusSummary {
    pub executed: usize,
    pub pending: usize,
    pub passed: usize,
    pub failed: usize,
    pub conditional: usize,
    /// Pairs of a test position and the position of its latest run.
    pub recent_failures: Vec<(usize, usize)>,
}

/// The test status report over the protocols `tests` (their identifiers)
/// and all recorded runs.
pub fn test_status_summary(tests: &Vec<String>, runs: &Vec<TestRun>) -> (r: TestStatusSummary)
    ensures
        ({
            let t = tests@.map_values(|s: String| s@);
            let rv = runs_view(runs@);
            &&& r.executed == count_where(tests.len() as int, was_run(t, rv))
            &&& r.pending == count_where(tests.len() as int, not_run(t, rv))
            &&& r.passed == count_where(tests.len() as int, latest_verdict_is(t, rv, Verdict::Pass))
            &&& r.failed == count_where(tests.len() as int, latest_verdict_is(t, rv, Verdict::Fail))
            &&& r.conditional == count_where(tests.len() as int, latest_verdict_is(t, rv, Verdict::Conditional))
            &&& r.executed + r.pending == tests.len()
            &&& r.passed + r.failed + r.conditional <= r.executed
            &&& r.recent_failures@ == recent_failures(t, rv)
            &&& forall|a: int, b: int| 0 <= a < b < r.recent_failures@.len() ==>
                instant(rv[r.recent_failures@[a].1 as int].executed) >= instant(rv[r.recent_failures@[b].1 as int].executed)
        }),
{
    let ghost t = tests@.map_values(|s: String| s@);
    let ghost rv = runs_view(runs@);
    proof {
        law_test_counts_partition(t, rv, tests.len() as int);
    }
    let mut executed: usize = 0;
    let mut pending: usize = 0;
    let mut passed: usize = 0;
    let mut failed: usize = 0;
    let mut conditional: usize = 0;
    let mut keep: Vec<bool> = Vec::new();
    let mut latest: Vec<Option<usize>> = Vec::new();
    let mut j: usize = 0;
    while j < tests.len()
        invariant
            t == tests@.map_values(|s: String| s@),
            rv == runs_view(runs@),
            j <= tests.len(),
            executed + pending == j,
            passed + failed + conditional <= executed,
            executed == count_where(j as int, was_run(t, rv)),
            pending == count_where(j as int, not_run(t, rv)),
            passed == count_where(j as int, latest_verdict_is(t, rv, Verdict::Pass)),
            failed == count_where(j as int, latest_verdict_is(t, rv, Verdict::Fail)),
            conditional == count_where(j as int, latest_verdict_is(t, rv, Verdict::Conditional)),
            keep.len() == j,
            latest.len() == j,
            forall|k: int| 0 <= k < j ==> keep@[k] == latest_verdict_is(t, rv, Verdict::Fail)(k),
            forall|k: int| 0 <= k < j ==> pos_view(#[trigger] latest@[k]) == latest_of(t, rv, k),
            forall|k: int| 0 <= k < j ==> (#[trigger] latest@[k] matches Some(i) ==> i < runs.len()),
        decreases tests.len() - j,
    {
        let found = latest_result(runs, tests[j].as_str());
        assert(t[j as int] == tests@[j as int]@);
        let mut fails = false;
        match found {
            Some(i) => {
                assert(rv[i as int] == runs@[i as int]@);
                executed = executed + 1;
                match runs[i].verdict {
                    Verdict::Pass => {
                        passed = passed + 1;
                    },
                    Verdict::Fail => {
                        failed = failed + 1;
                        fails = true;
                    },
                    Verdict::Conditional => {
                        conditional = conditional + 1;
                    },
                    _ => {},
                }
            },
            None => {
                pending = pending + 1;
            },
        }
        keep.push(fails);
        latest.push(found);
        j = j + 1;
    }
    let f = positions_where(&keep);
    let ghost fk = Seq::new(t.len(), |j: int| latest_verdict_is(t, rv, Verdict::Fail)(j));
    assert(keep@ =~= fk);
    proof {
        let all = Seq::new(keep@.len(), |i: int| i as usize);
        assert forall|q: int| 0 <= q < f@.len() implies f@[q] < tests.len() && keep@[f@[q] as int] by {
            all.lemma_filter_contains_rev(|i: usize| keep@[i as int], f@[q]);
        }
    }
    let ghost keys_spec = f@.map_values(|j: usize| SortKeyView::Num(instant(rv[latest_of(t, rv, j as int)->0].executed)));
    let mut keys: Vec<SortKey> = Vec::new();
    let mut q: usize = 0;
    while q < f.len()
        invariant
            t == tests@.map_values(|s: String| s@),
            rv == runs_view(runs@),
            latest.len() == tests.len(),
            forall|k: int| 0 <= k < tests.len() ==> pos_view(#[trigger] latest@[k]) == latest_of(t, rv, k),
            forall|k: int| 0 <= k < tests.len() ==> (#[trigger] latest@[k] matches Some(i) ==> i < runs.len()),
            forall|a: int| 0 <= a < f@.len() ==> f@[a] < tests.len() && keep@[f@[a] as int],
            forall|k: int| 0 <= k < tests.len() ==> keep@[k] == latest_verdict_is(t, rv, Verdict::Fail)(k),
            keep.len() == tests.len(),
            keys_spec == f@.map_values(|j: usize| SortKeyView::Num(instant(rv[latest_of(t, rv, j as int)->0].executed))),
            q <= f.len(),
            key_views(keys@) == keys_spec.take(q as int),
        decreases f.len() - q,
    {
        let j = f[q];
        assert(keep@[j as int]);
        let i = match latest[j] {
            Some(i) => i,
            None => {
                assert(false);
                0
            },
        };
        assert(rv[i as int] == runs@[i as int]@);
        let k = crate::common::time_key(runs[i].executed);
        let ghost before = keys@;
        keys.push(k);
        assert(key_views(keys@) =~= key_views(before).push(k@));
        assert(keys_spec.take(q as int + 1) =~= keys_spec.take(q as int).push(keys_spec[q as int]));
        q = q + 1;
    }
    assert(keys_spec.take(f.len() as int) =~= keys_spec);
    let mut order = stable_sort_order(&keys, true);
    let ghost full = order@;
    order.truncate(RECENT_FAILURES_SHOWN);
    let ghost shown = order@;
    assert(forall|a: int| 0 <= a < shown.len() ==> shown[a] == full[a]);
    assert(shown == {
        let o = sorted_order(keys_spec, true);
        if o.len() > RECENT_FAILURES_SHOWN {
            o.take(RECENT_FAILURES_SHOWN as int)
        } else {
            o
        }
    });
    let mut pairs: Vec<(usize, usize)> = Vec::new();
    let mut p: usize = 0;
    while p < order.len()
        invariant
            t == tests@.map_values(|s: String| s@),
            rv == runs_view(runs@),
            latest.len() == tests.len(),
            forall|k: int| 0 <= k < tests.len() ==> pos_view(#[trigger] latest@[k]) == latest_of(t, rv, k),
            forall|a: int| 0 <= a < f@.len() ==> f@[a] < tests.len() && keep@[f@[a] as int],
            forall|k: int| 0 <= k < tests.len() ==> keep@[k] == latest_verdict_is(t, rv, Verdict::Fail)(k),
            keep.len() == tests.len(),
            forall|a: int| 0 <= a < order@.len() ==> order@[a] < f@.len(),
            p <= order.len(),
            pairs@ == order@.take(p as int).map_values(|x: usize| (f@[x as int], latest_of(t, rv, f@[x as int] as int)->0 as usize)),
        decreases order.len() - p,
    {
        let x = order[p];
        let j = f[x];
        assert(keep@[j as int]);
        let i = match latest[j] {
            Some(i) => i,
            None => {
                assert(false);
                0
            },
        };
        let ghost before = pairs@;
        pairs.push((j, i));
        assert(order@.take(p as int + 1) =~= order@.take(p as int).push(x));
        assert(pairs@ =~= order@.take(p as int + 1).map_values(|x: usize| (f@[x as int], latest_of(t, rv, f@[x as int] as int)->0 as usize)));
        p = p + 1;
    }
    assert(order@.take(order.len() as int) =~= order@);
    proof {
        assert forall|a: int, b: int| 0 <= a < b < pairs@.len() implies
            instant(rv[pairs@[a].1 as int].executed) >= instant(rv[pairs@[b].1 as int].executed) by {
            assert(precedes(keys_spec, true, full[a] as int, full[b] as int));
            assert(pairs@[a] == (f@[shown[a] as int], latest_of(t, rv, f@[shown[a] as int] as int)->0 as usize));
            assert(pairs@[b] == (f@[shown[b] as int], latest_of(t, rv, f@[shown[b] as int] as int)->0 as usize));
            let ja = f@[shown[a] as int];
            let jb = f@[shown[b] as int];
            assert(keep@[ja as int]);
            assert(keep@[jb as int]);
            assert(pos_view(latest@[ja as int]) == latest_of(t, rv, ja as int));
            assert(pos_view(latest@[jb as int]) == latest_of(t, rv, jb as int));
        }
    }
    TestStatusSummary { executed, pending, passed, failed, conditional, recent_failures: pairs }
}


/// A failure as the report lists it.
pub struct FailureLine {
    /// The test's identifier as shown (its short form when it has one).
    pub test_id: String,
    pub title: String,
    /// The day of the run, as shown.
    pub date: String,
}

/// The rows of the summary table; the pass rate (as shown) comes last, and
/// only when some test was run.
pub open spec fn summary_rows(total: usize, s: &TestStatusSummary, pass_rate: Seq<char>) -> Seq<Seq<Seq<char>>> {
    let base = seq![
        seq!["Metric"@, "Count"@],
        seq!["Total Protocols"@, decimal(total as nat)],
        seq!["Executed"@, decimal(s.executed as nat)],
        seq!["Pending"@, decimal(s.pending as nat)],
        seq!["Passed"@, decimal(s.passed as nat)],
        seq!["Failed"@, decimal(s.failed as nat)],
        seq!["Conditional"@, decimal(s.conditional as nat)],
    ];
    if s.executed > 0 {
        base.push(seq!["Pass Rate"@, pass_rate])
    } else {
        base
    }
}

/// The row of a failure.
pub open spec fn failure_cells(f: FailureLine) -> Seq<Seq<char>> {
    seq![f.test_id@, truncated_form(f.title@, 40), f.date@]
}

/// The test status report: the summary table and, when there are failures,
/// their table.
pub open spec fn test_status_document_text(total: usize, s: &TestStatusSummary, pass_rate: Seq<char>, failures: Seq<FailureLine>) -> Seq<char> {
    "# Test Execution Status Report\n\n## Summary\n\n"@ + markdown_table(summary_rows(total, s, pass_rate)) + if failures.len() > 0 {
        "\n## Recent Failures\n\n"@ + markdown_table(seq![seq!["Test ID"@, "Title"@, "Execution Date"@]] + failures.map_values(|f: FailureLine| failure_cells(f)))
    } else {
        Seq::empty()
    }
}

/// A labelled count row.
fn count_row(label: &str, n: usize) -> (r: Vec<String>)
    ensures
        r@.map_values(|c: String| c@) == seq![label@, decimal(n as nat)],
{
    let mut r: Vec<String> = Vec::new();
    r.push(label.to_owned());
    r.push(decimal_text(n));
    assert(r@.map_values(|c: String| c@) =~= seq![label@, decimal(n as nat)]);
    r
}

/// Writes the test status report over `total` protocols; `pass_rate` is
/// the pass rate as shown.
pub fn test_status_document(total: usize, s: &TestStatusSummary, pass_rate: &str, failures: &Vec<FailureLine>) -> (r: String)
    requires
        forall|i: int| 0 <= i < failures.len() ==> (byte_len((#[trigger] failures@[i]).title@) > 40 ==> is_byte_boundary(failures@[i].title@, 37)),
    ensures
        r@ == test_status_document_text(total, s, pass_rate@, failures@),
{
    let mut summary: Vec<Vec<String>> = Vec::new();
    let names = vec!["Metric", "Count"];
    let header = text_row(&names);
    assert(header@.map_values(|c: String| c@) =~= seq!["Metric"@, "Count"@]);
    summary.push(header);
    summary.push(count_row("Total Protocols", total));
    summary.push(count_row("Executed", s.executed));
    summary.push(count_row("Pending", s.pending));
    summary.push(count_row("Passed", s.passed));
    summary.push(count_row("Failed", s.failed));
    summary.push(count_row("Conditional", s.conditional));
    if s.executed > 0 {
        let mut rate: Vec<String> = Vec::new();
        rate.push("Pass Rate".to_owned());
        rate.push(pass_rate.to_owned());
        assert(rate@.map_values(|c: String| c@) =~= seq!["Pass Rate"@, pass_rate@]);
        summary.push(rate);
    }
    assert(table_view(summary@) =~= summary_rows(total, s, pass_rate@));
    let mut out = concat_texts("# Test Execution Status Report\n\n## Summary\n\n", draw_markdown_table(&summary).as_str());
    if failures.len() > 0 {
        let mut table: Vec<Vec<String>> = Vec::new();
        let titles = vec!["Test ID", "Title", "Execution Date"];
        let header = text_row(&titles);
        assert(header@.map_values(|c: String| c@) =~= seq!["Test ID"@, "Title"@, "Execution Date"@]);
        table.push(header);
        let mut i: usize = 0;
        while i < failures.len()
            invariant
                i <= failures.len(),
                forall|k: int| 0 <= k < failures.len() ==> (byte_len((#[trigger] failures@[k]).title@) > 40 ==> is_byte_boundary(failures@[k].title@, 37)),
                table_view(table@) == seq![seq!["Test ID"@, "Title"@, "Execution Date"@]] + failures@.take(i as int).map_values(|f: FailureLine| failure_cells(f)),
            decreases failures.len() - i,
        {
            let f = &failures[i];
            let mut row: Vec<String> = Vec::new();
            row.push(f.test_id.clone());
            row.push(truncate_str(f.title.as_str(), 40));
            row.push(f.date.clone());
            assert(row@.map_values(|c: String| c@) =~= failure_cells(failures@[i as int]));
            let ghost before = table_view(table@);
            table.push(row);
            assert(table_view(table@) =~= before.push(failure_cells(failures@[i as int])));
            assert(failures@.take(i as int + 1) =~= failures@.take(i as int).push(failures@[i as int]));
            i = i + 1;
        }
        assert(failures@.take(failures.len() as int) =~= failures@);
        append_text(&mut out, "\n## Recent Failures\n\n");
        append_text(&mut out, draw_markdown_table(&table).as_str());
    } else {
        assert(out@ =~= out@ + Seq::<char>::empty());
    }
    out
}

} // verus!
