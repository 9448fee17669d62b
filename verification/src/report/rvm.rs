//! Requirements verification matrix: one row per requirement without tests
//! and one per test that verifies a requirement, with the test's latest
//! result, and the matrix's counts. The tests a requirement lists are merged
//! with the protocols that list the requirement, and each requirement is
//! graded as verified, partial or unverified.

use vstd::prelude::*;
use crate::common::{count_where, holds_id, ids_view, last_position, last_with, pos_view};
use crate::entities::Verdict;
use crate::helpers::{truncate_str, truncated_form};
use crate::text::{byte_len, concat_texts, is_byte_boundary};
use super::{draw_markdown_table, latest_result, latest_run, markdown_table, runs_view, table_view, text_row, TestRun, TestRunView};

verus! {

pub struct RvmArgs {
    /// Output to file instead of stdout
    pub output: Option<String>,

    /// Show only unverified requirements
    pub unverified_only: bool,
}

/// The protocol a requirement's link names.
pub open spec fn link_test(tests: Seq<Seq<char>>, t: Seq<char>) -> Option<int> {
    last_with(tests, tests.len() as int, t)
}

/// The result shown for a link: the latest run of the test, when the test
/// exists.
pub open spec fn link_result(tests: Seq<Seq<char>>, runs: Seq<TestRunView>, t: Seq<char>) -> Option<int> {
    if link_test(tests, t) is Some {
        latest_run(runs, t)
    } else {
        None
    }
}

/// A requirement as the merged verification matrix reads it: its
/// identifier and the tests it lists as verifying it.
pub struct MatrixRequirement {
    pub id: String,
    pub verified_by: Vec<String>,
}

/// A test protocol as the merged matrix reads it: its identifier and the
/// requirements it lists as verified by it.
pub struct MatrixTest {
    pub id: String,
    pub verifies: Vec<String>,
}

/// The identifiers of the protocols.
pub open spec fn matrix_test_ids(tests: Seq<MatrixTest>) -> Seq<Seq<char>> {
    tests.map_values(|t: MatrixTest| t.id@)
}

/// The identifiers of those of the first `n` protocols that list
/// requirement `req`, in protocol order.
pub open spec fn verifiers_of(tests: Seq<MatrixTest>, n: int, req: Seq<char>) -> Seq<Seq<char>>
    decreases n,
{
    if n <= 0 {
        seq![]
    } else {
        verifiers_of(tests, n - 1, req) + if ids_view(tests[n - 1].verifies@).contains(req) {
            seq![tests[n - 1].id@]
        } else {
            seq![]
        }
    }
}

/// The identifiers once each, in order of first appearance.
pub open spec fn distinct_ids(s: Seq<Seq<char>>) -> Seq<Seq<char>>
    decreases s.len(),
{
    if s.len() == 0 {
        seq![]
    } else {
        let d = distinct_ids(s.drop_last());
        if d.contains(s.last()) {
            d
        } else {
            d.push(s.last())
        }
    }
}

/// The tests linked to a requirement in either direction, once each: those
/// the requirement lists, then those that list the requirement.
pub open spec fn linked_tests(r: MatrixRequirement, tests: Seq<MatrixTest>) -> Seq<Seq<char>> {
    distinct_ids(ids_view(r.verified_by@) + verifiers_of(tests, tests.len() as int, r.id@))
}

/// The identifiers of the protocols that list requirement `req`.
fn verifying_tests(tests: &Vec<MatrixTest>, req: &str) -> (r: Vec<String>)
    ensures
        ids_view(r@) == verifiers_of(tests@, tests.len() as int, req@),
{
    let mut r: Vec<String> = Vec::new();
    let mut i: usize = 0;
    while i < tests.len()
        invariant
            i <= tests.len(),
            ids_view(r@) == verifiers_of(tests@, i as int, req@),
        decreases tests.len() - i,
    {
        if holds_id(&tests[i].verifies, req) {
            r.push(tests[i].id.clone());
        }
        assert(ids_view(r@) =~= verifiers_of(tests@, i as int + 1, req@));
        i = i + 1;
    }
    r
}

/// The identifiers once each, in order of first appearance.
fn distinct_list(s: &Vec<String>) -> (r: Vec<String>)
    ensures
        ids_view(r@) == distinct_ids(ids_view(s@)),
{
    let ghost sv = ids_view(s@);
    let mut r: Vec<String> = Vec::new();
    let mut i: usize = 0;
    assert(sv.take(0) =~= Seq::<Seq<char>>::empty());
    while i < s.len()
        invariant
            sv == ids_view(s@),
            i <= s.len(),
            ids_view(r@) == distinct_ids(sv.take(i as int)),
        decreases s.len() - i,
    {
        assert(sv.take(i as int + 1).drop_last() =~= sv.take(i as int));
        assert(sv.take(i as int + 1).last() == s@[i as int]@);
        if !holds_id(&r, s[i].as_str()) {
            r.push(s[i].clone());
        }
        assert(ids_view(r@) =~= distinct_ids(sv.take(i as int + 1)));
        i = i + 1;
    }
    assert(sv.take(s.len() as int) =~= sv);
    r
}

/// The tests linked to a requirement in either direction, once each.
pub fn linked_test_ids(req: &MatrixRequirement, tests: &Vec<MatrixTest>) -> (r: Vec<String>)
    ensures
        ids_view(r@) == linked_tests(*req, tests@),
{
    let mut all: Vec<String> = Vec::new();
    let mut i: usize = 0;
    while i < req.verified_by.len()
        invariant
            i <= req.verified_by.len(),
            all.len() == i,
            forall|j: int| 0 <= j < i ==> (#[trigger] all@[j])@ == req.verified_by@[j]@,
        decreases req.verified_by.len() - i,
    {
        all.push(req.verified_by[i].clone());
        i = i + 1;
    }
    assert(ids_view(all@) =~= ids_view(req.verified_by@));
    let mut back = verifying_tests(tests, req.id.as_str());
    let ghost a = ids_view(all@);
    let ghost b = ids_view(back@);
    all.append(&mut back);
    assert(ids_view(all@) =~= a + b);
    distinct_list(&all)
}

/// The test counts as passing in the merged matrix: it exists, was run, and
/// its latest run passed or was not applicable.
pub open spec fn link_passes(ids: Seq<Seq<char>>, runs: Seq<TestRunView>, t: Seq<char>) -> bool {
    link_result(ids, runs, t) matches Some(i) && (runs[i].verdict == Verdict::Pass || runs[i].verdict == Verdict::NotApplicable)
}

/// How far a requirement is verified.
#[derive(Debug, Clone, Copy, PartialEq, Eq, Structural)]
pub enum Coverage {
    /// Some linked test was run and every linked test passes.
    Verified,
    /// Some linked test was run, but not every linked test passes.
    Partial,
    /// No linked test, or none of them was run.
    Unverified,
}

/// Some linked test exists and was run.
pub open spec fn some_link_run(linked: Seq<Seq<char>>, ids: Seq<Seq<char>>, runs: Seq<TestRunView>) -> bool {
    exists|k: int| 0 <= k < linked.len() && (#[trigger] link_result(ids, runs, linked[k])) is Some
}

/// Every linked test passes.
pub open spec fn all_links_pass(linked: Seq<Seq<char>>, ids: Seq<Seq<char>>, runs: Seq<TestRunView>) -> bool {
    forall|k: int| 0 <= k < linked.len() ==> #[trigger] link_passes(ids, runs, linked[k])
}

/// How far a requirement with these linked tests is verified.
pub open spec fn coverage_of(linked: Seq<Seq<char>>, ids: Seq<Seq<char>>, runs: Seq<TestRunView>) -> Coverage {
    if some_link_run(linked, ids, runs) && all_links_pass(linked, ids, runs) {
        Coverage::Verified
    } else if some_link_run(linked, ids, runs) {
        Coverage::Partial
    } else {
        Coverage::Unverified
    }
}

/// A row of the merged matrix.
#[derive(Debug, Clone)]
pub enum MatrixRow {
    /// A requirement with no linked test.
    NoTests { requirement: usize },
    /// A test linked to a requirement: its position among the protocols if
    /// found, the position of its latest run if found and run, and whether
    /// it counts as passing.
    Linked { requirement: usize, test_id: String, test: Option<usize>, result: Option<usize>, passed: bool },
}

/// Mathematical form of a [`MatrixRow`].
pub enum MatrixRowView {
    NoTests { requirement: int },
    Linked { requirement: int, test_id: Seq<char>, test: Option<int>, result: Option<int>, passed: bool },
}

impl View for MatrixRow {
    type V = MatrixRowView;

    open spec fn view(&self) -> MatrixRowView {
        match self {
            MatrixRow::NoTests { requirement } => MatrixRowView::NoTests { requirement: *requirement as int },
            MatrixRow::Linked { requirement, test_id, test, result, passed } => MatrixRowView::Linked {
                requirement: *requirement as int,
                test_id: test_id@,
                test: pos_view(*test),
                result: pos_view(*result),
                passed: *passed,
            },
        }
    }
}

/// The rows, each taken by its view.
pub open spec fn matrix_rows_view(rows: Seq<MatrixRow>) -> Seq<MatrixRowView> {
    rows.map_values(|x: MatrixRow| x@)
}

/// The row of test `t`, linked to requirement `r`.
pub open spec fn matrix_link_row(r: int, ids: Seq<Seq<char>>, runs: Seq<TestRunView>, t: Seq<char>) -> MatrixRowView {
    MatrixRowView::Linked {
        requirement: r,
        test_id: t,
        test: link_test(ids, t),
        result: link_result(ids, runs, t),
        passed: link_passes(ids, runs, t),
    }
}

/// The rows of requirement `r`: one per linked test, or one saying it has
/// none; when only unverified requirements are asked for, a requirement some
/// of whose tests was run shows no row.
pub open spec fn matrix_requirement_rows(linked: Seq<Seq<char>>, r: int, ids: Seq<Seq<char>>, runs: Seq<TestRunView>, unverified_only: bool) -> Seq<MatrixRowView> {
    if linked.len() == 0 {
        seq![MatrixRowView::NoTests { requirement: r }]
    } else if unverified_only && some_link_run(linked, ids, runs) {
        seq![]
    } else {
        linked.map_values(|t: Seq<char>| matrix_link_row(r, ids, runs, t))
    }
}

/// The rows of the first `n` requirements.
pub open spec fn matrix_rows(reqs: Seq<MatrixRequirement>, n: int, tests: Seq<MatrixTest>, runs: Seq<TestRunView>, unverified_only: bool) -> Seq<MatrixRowView>
    decreases n,
{
    if n <= 0 {
        seq![]
    } else {
        matrix_rows(reqs, n - 1, tests, runs, unverified_only)
            + matrix_requirement_rows(linked_tests(reqs[n - 1], tests), n - 1, matrix_test_ids(tests), runs, unverified_only)
    }
}

/// Requirement `r` has coverage `c`.
pub open spec fn has_coverage(reqs: Seq<MatrixRequirement>, tests: Seq<MatrixTest>, runs: Seq<TestRunView>, c: Coverage) -> spec_fn(int) -> bool {
    |r: int| coverage_of(linked_tests(reqs[r], tests), matrix_test_ids(tests), runs) == c
}

/// The `k`-th linked test shows a latest run with verdict `v`.
pub open spec fn link_has_verdict(linked: Seq<Seq<char>>, ids: Seq<Seq<char>>, runs: Seq<TestRunView>, v: Verdict) -> spec_fn(int) -> bool {
    |k: int| link_result(ids, runs, linked[k]) matches Some(i) && runs[i].verdict == v
}

/// How many linked tests of the first `n` requirements show a latest run
/// with verdict `v`.
pub open spec fn matrix_verdicts(reqs: Seq<MatrixRequirement>, n: int, tests: Seq<MatrixTest>, runs: Seq<TestRunView>, v: Verdict) -> nat
    decreases n,
{
    if n <= 0 {
        0
    } else {
        let linked = linked_tests(reqs[n - 1], tests);
        matrix_verdicts(reqs, n - 1, tests, runs, v) + count_where(linked.len() as int, link_has_verdict(linked, matrix_test_ids(tests), runs, v))
    }
}

/// Counts over a prefix of the requirements only grow.
proof fn lemma_matrix_verdicts_grow(reqs: Seq<MatrixRequirement>, a: int, b: int, tests: Seq<MatrixTest>, runs: Seq<TestRunView>, v: Verdict)
    requires
        0 <= a <= b,
    ensures
        matrix_verdicts(reqs, a, tests, runs, v) <= matrix_verdicts(reqs, b, tests, runs, v),
    decreases b - a,
{
    if a < b {
        lemma_matrix_verdicts_grow(reqs, a, b - 1, tests, runs, v);
    }
}

/// The rows of one requirement, given its linked tests, with its coverage
/// and how many of its tests show a passed and a failed latest run.
fn requirement_lines(linked: &Vec<String>, r: usize, ids: &Vec<String>, runs: &Vec<TestRun>, unverified_only: bool) -> (out: (Vec<MatrixRow>, Coverage, usize, usize))
    ensures
        ({
            let lv = ids_view(linked@);
            let iv = ids_view(ids@);
            let rv = runs_view(runs@);
            &&& matrix_rows_view(out.0@) == matrix_requirement_rows(lv, r as int, iv, rv, unverified_only)
            &&& out.1 == coverage_of(lv, iv, rv)
            &&& out.2 == count_where(linked.len() as int, link_has_verdict(lv, iv, rv, Verdict::Pass))
            &&& out.3 == count_where(linked.len() as int, link_has_verdict(lv, iv, rv, Verdict::Fail))
        }),
        forall|k: int| 0 <= k < out.0@.len() ==> (#[trigger] out.0@[k] matches MatrixRow::Linked { result: Some(i), .. } ==> i < runs.len()),
{
    let ghost lv = ids_view(linked@);
    let ghost iv = ids_view(ids@);
    let ghost rv = runs_view(runs@);
    let mut rows: Vec<MatrixRow> = Vec::new();
    let mut any_run = false;
    let mut all_pass = true;
    let mut passed: usize = 0;
    let mut failed: usize = 0;
    let mut k: usize = 0;
    while k < linked.len()
        invariant
            lv == ids_view(linked@),
            iv == ids_view(ids@),
            rv == runs_view(runs@),
            k <= linked.len(),
            passed + failed <= k,
            matrix_rows_view(rows@) == lv.take(k as int).map_values(|t: Seq<char>| matrix_link_row(r as int, iv, rv, t)),
            any_run == exists|j: int| 0 <= j < k && (#[trigger] link_result(iv, rv, lv[j])) is Some,
            all_pass == forall|j: int| 0 <= j < k ==> #[trigger] link_passes(iv, rv, lv[j]),
            passed == count_where(k as int, link_has_verdict(lv, iv, rv, Verdict::Pass)),
            failed == count_where(k as int, link_has_verdict(lv, iv, rv, Verdict::Fail)),
            forall|j: int| 0 <= j < rows@.len() ==> (#[trigger] rows@[j] matches MatrixRow::Linked { result: Some(i), .. } ==> i < runs.len()),
        decreases linked.len() - k,
    {
        let ghost t = lv[k as int];
        assert(t == linked@[k as int]@);
        let test = last_position(ids, linked[k].as_str());
        let result = match test {
            Some(_) => latest_result(runs, linked[k].as_str()),
            None => None,
        };
        assert(pos_view(test) == link_test(iv, t));
        assert(pos_view(result) == link_result(iv, rv, t));
        let passes = match result {
            Some(i) => {
                assert(rv[i as int] == runs@[i as int]@);
                match runs[i].verdict {
                    Verdict::Pass => {
                        passed = passed + 1;
                        true
                    },
                    Verdict::Fail => {
                        failed = failed + 1;
                        false
                    },
                    Verdict::NotApplicable => true,
                    _ => false,
                }
            },
            None => false,
        };
        assert(passes == link_passes(iv, rv, t));
        if result.is_some() {
            any_run = true;
        }
        if !passes {
            all_pass = false;
        }
        let ghost before = rows@;
        rows.push(MatrixRow::Linked { requirement: r, test_id: linked[k].clone(), test, result, passed: passes });
        assert(matrix_rows_view(rows@) =~= matrix_rows_view(before).push(matrix_link_row(r as int, iv, rv, t)));
        assert(lv.take(k as int + 1) =~= lv.take(k as int).push(t));
        assert(lv.take(k as int + 1).map_values(|t: Seq<char>| matrix_link_row(r as int, iv, rv, t))
            =~= lv.take(k as int).map_values(|t: Seq<char>| matrix_link_row(r as int, iv, rv, t)).push(matrix_link_row(r as int, iv, rv, t)));
        k = k + 1;
    }
    let coverage = if any_run && all_pass {
        Coverage::Verified
    } else if any_run {
        Coverage::Partial
    } else {
        Coverage::Unverified
    };
    if linked.len() == 0 {
        rows = Vec::new();
        rows.push(MatrixRow::NoTests { requirement: r });
        assert(matrix_rows_view(rows@) =~= matrix_requirement_rows(lv, r as int, iv, rv, unverified_only));
    } else if unverified_only && any_run {
        rows = Vec::new();
        assert(matrix_rows_view(rows@) =~= matrix_requirement_rows(lv, r as int, iv, rv, unverified_only));
    } else {
        assert(lv.take(linked.len() as int) =~= lv);
    }
    (rows, coverage, passed, failed)
}

/// The merged verification matrix and its counts.
pub struct VerificationMatrix {
    pub rows: Vec<MatrixRow>,
    pub verified: usize,
    pub partial: usize,
    pub unverified: usize,
    /// Linked tests whose latest run passed.
    pub passed: usize,
    /// Linked tests whose latest run failed.
    pub failed: usize,
}

/// The identifiers of the protocols.
fn protocol_ids(tests: &Vec<MatrixTest>) -> (r: Vec<String>)
    ensures
        ids_view(r@) == matrix_test_ids(tests@),
{
    let mut r: Vec<String> = Vec::new();
    let mut i: usize = 0;
    while i < tests.len()
        invariant
            i <= tests.len(),
            r.len() == i,
            forall|j: int| 0 <= j < i ==> (#[trigger] r@[j])@ == tests@[j].id@,
        decreases tests.len() - i,
    {
        r.push(tests[i].id.clone());
        i = i + 1;
    }
    assert(ids_view(r@) =~= matrix_test_ids(tests@));
    r
}

/// Builds the verification matrix that merges the links of both sides: a
/// requirement's tests are those it lists and those that list it, each once;
/// a test is found by its identifier (the last protocol with it) and shown
/// with its latest run.
pub fn verification_matrix(reqs: &Vec<MatrixRequirement>, tests: &Vec<MatrixTest>, runs: &Vec<TestRun>, unverified_only: bool) -> (m: VerificationMatrix)
    requires
        matrix_verdicts(reqs@, reqs.len() as int, tests@, runs_view(runs@), Verdict::Pass) <= usize::MAX,
        matrix_verdicts(reqs@, reqs.len() as int, tests@, runs_view(runs@), Verdict::Fail) <= usize::MAX,
    ensures
        ({
            let rv = runs_view(runs@);
            &&& matrix_rows_view(m.rows@) == matrix_rows(reqs@, reqs.len() as int, tests@, rv, unverified_only)
            &&& m.verified == count_where(reqs.len() as int, has_coverage(reqs@, tests@, rv, Coverage::Verified))
            &&& m.partial == count_where(reqs.len() as int, has_coverage(reqs@, tests@, rv, Coverage::Partial))
            &&& m.unverified == count_where(reqs.len() as int, has_coverage(reqs@, tests@, rv, Coverage::Unverified))
            &&& m.passed == matrix_verdicts(reqs@, reqs.len() as int, tests@, rv, Verdict::Pass)
            &&& m.failed == matrix_verdicts(reqs@, reqs.len() as int, tests@, rv, Verdict::Fail)
        }),
        m.verified + m.partial + m.unverified == reqs.len(),
        forall|k: int| 0 <= k < m.rows@.len() ==> (#[trigger] m.rows@[k] matches MatrixRow::Linked { result: Some(i), .. } ==> i < runs.len()),
{
    let ghost rv = runs_view(runs@);
    let ids = protocol_ids(tests);
    let mut rows: Vec<MatrixRow> = Vec::new();
    let mut verified: usize = 0;
    let mut partial: usize = 0;
    let mut unverified: usize = 0;
    let mut passed: usize = 0;
    let mut failed: usize = 0;
    let mut r: usize = 0;
    while r < reqs.len()
        invariant
            rv == runs_view(runs@),
            ids_view(ids@) == matrix_test_ids(tests@),
            matrix_verdicts(reqs@, reqs.len() as int, tests@, rv, Verdict::Pass) <= usize::MAX,
            matrix_verdicts(reqs@, reqs.len() as int, tests@, rv, Verdict::Fail) <= usize::MAX,
            r <= reqs.len(),
            verified + partial + unverified == r,
            matrix_rows_view(rows@) == matrix_rows(reqs@, r as int, tests@, rv, unverified_only),
            verified == count_where(r as int, has_coverage(reqs@, tests@, rv, Coverage::Verified)),
            partial == count_where(r as int, has_coverage(reqs@, tests@, rv, Coverage::Partial)),
            unverified == count_where(r as int, has_coverage(reqs@, tests@, rv, Coverage::Unverified)),
            passed == matrix_verdicts(reqs@, r as int, tests@, rv, Verdict::Pass),
            failed == matrix_verdicts(reqs@, r as int, tests@, rv, Verdict::Fail),
            forall|k: int| 0 <= k < rows@.len() ==> (#[trigger] rows@[k] matches MatrixRow::Linked { result: Some(i), .. } ==> i < runs.len()),
        decreases reqs.len() - r,
    {
        let linked = linked_test_ids(&reqs[r], tests);
        let (more, coverage, p, f) = requirement_lines(&linked, r, &ids, runs, unverified_only);
        proof {
            lemma_matrix_verdicts_grow(reqs@, r as int + 1, reqs.len() as int, tests@, rv, Verdict::Pass);
            lemma_matrix_verdicts_grow(reqs@, r as int + 1, reqs.len() as int, tests@, rv, Verdict::Fail);
        }
        match coverage {
            Coverage::Verified => {
                verified = verified + 1;
            },
            Coverage::Partial => {
                partial = partial + 1;
            },
            Coverage::Unverified => {
                unverified = unverified + 1;
            },
        }
        passed = passed + p;
        failed = failed + f;
        let ghost before = rows@;
        let mut more = more;
        let ghost added = more@;
        rows.append(&mut more);
        assert(rows@ =~= before + added);
        assert(matrix_rows_view(rows@) =~= matrix_rows_view(before) + matrix_rows_view(added));
        assert forall|k: int| 0 <= k < rows@.len() implies (#[trigger] rows@[k] matches MatrixRow::Linked { result: Some(i), .. } ==> i < runs.len()) by {
            if k >= before.len() {
                assert(rows@[k] == added[k - before.len()]);
            }
        }
        r = r + 1;
    }
    VerificationMatrix { rows, verified, partial, unverified, passed, failed }
}

/// How a verdict is shown in the matrix.
pub open spec fn verdict_label(v: Verdict) -> Seq<char> {
    match v {
        Verdict::Pass => "✓ Pass"@,
        Verdict::Fail => "✗ Fail"@,
        Verdict::Conditional => "⚠ Conditional"@,
        Verdict::Incomplete => "… Incomplete"@,
        Verdict::NotApplicable => "N/A"@,
    }
}

/// The label of a verdict.
fn verdict_text(v: Verdict) -> (r: &'static str)
    ensures
        r@ == verdict_label(v),
{
    match v {
        Verdict::Pass => "✓ Pass",
        Verdict::Fail => "✗ Fail",
        Verdict::Conditional => "⚠ Conditional",
        Verdict::Incomplete => "… Incomplete",
        Verdict::NotApplicable => "N/A",
    }
}

/// What the matrix table shows in one row, before titles are shortened.
pub struct MatrixLine {
    pub req_id: String,
    pub req_title: String,
    pub test_id: String,
    pub test_title: String,
    pub result_id: String,
    pub verdict: String,
}

/// Mathematical form of a [`MatrixLine`].
pub struct MatrixLineView {
    pub req_id: Seq<char>,
    pub req_title: Seq<char>,
    pub test_id: Seq<char>,
    pub test_title: Seq<char>,
    pub result_id: Seq<char>,
    pub verdict: Seq<char>,
}

impl View for MatrixLine {
    type V = MatrixLineView;

    open spec fn view(&self) -> MatrixLineView {
        MatrixLineView {
            req_id: self.req_id@,
            req_title: self.req_title@,
            test_id: self.test_id@,
            test_title: self.test_title@,
            result_id: self.result_id@,
            verdict: self.verdict@,
        }
    }
}

/// The texts of a matrix row, given the identifiers and titles as shown: a
/// requirement without tests, a test that is not found, one that was not
/// run, or one with its latest run and verdict.
pub open spec fn matrix_line_view(row: MatrixRowView, runs: Seq<TestRunView>, req_id: Seq<char>, req_title: Seq<char>, test_id: Seq<char>, test_title: Seq<char>, result_id: Seq<char>) -> MatrixLineView {
    match row {
        MatrixRowView::NoTests { .. } => MatrixLineView {
            req_id,
            req_title,
            test_id: "-"@,
            test_title: "(no tests linked)"@,
            result_id: "-"@,
            verdict: "-"@,
        },
        MatrixRowView::Linked { test, result, .. } => match test {
            None => MatrixLineView { req_id, req_title, test_id, test_title: "(test not found)"@, result_id: "-"@, verdict: "-"@ },
            Some(_) => match result {
                None => MatrixLineView { req_id, req_title, test_id, test_title, result_id: "-"@, verdict: "(not executed)"@ },
                Some(i) => MatrixLineView { req_id, req_title, test_id, test_title, result_id, verdict: verdict_label(runs[i].verdict) },
            },
        },
    }
}

/// The texts of a matrix row: `req_id` and `req_title` show the requirement,
/// `test_id`, `test_title` and `result_id` the linked test and its latest
/// run (each as shown; those a row does not use are ignored).
pub fn matrix_line(row: &MatrixRow, runs: &Vec<TestRun>, req_id: &str, req_title: &str, test_id: &str, test_title: &str, result_id: &str) -> (l: MatrixLine)
    requires
        row matches MatrixRow::Linked { result: Some(i), .. } ==> i < runs.len(),
    ensures
        l@ == matrix_line_view(row@, runs_view(runs@), req_id@, req_title@, test_id@, test_title@, result_id@),
{
    let req_id = req_id.to_owned();
    let req_title = req_title.to_owned();
    match row {
        MatrixRow::NoTests { .. } => MatrixLine {
            req_id,
            req_title,
            test_id: "-".to_owned(),
            test_title: "(no tests linked)".to_owned(),
            result_id: "-".to_owned(),
            verdict: "-".to_owned(),
        },
        MatrixRow::Linked { test, result, .. } => match test {
            None => MatrixLine {
                req_id,
                req_title,
                test_id: test_id.to_owned(),
                test_title: "(test not found)".to_owned(),
                result_id: "-".to_owned(),
                verdict: "-".to_owned(),
            },
            Some(_) => match result {
                None => MatrixLine {
                    req_id,
                    req_title,
                    test_id: test_id.to_owned(),
                    test_title: test_title.to_owned(),
                    result_id: "-".to_owned(),
                    verdict: "(not executed)".to_owned(),
                },
                Some(i) => {
                    assert(runs_view(runs@)[*i as int] == runs@[*i as int]@);
                    MatrixLine {
                        req_id,
                        req_title,
                        test_id: test_id.to_owned(),
                        test_title: test_title.to_owned(),
                        result_id: result_id.to_owned(),
                        verdict: verdict_text(runs[*i].verdict).to_owned(),
                    }
                },
            },
        },
    }
}

/// The header row of the matrix table.
pub open spec fn matrix_header() -> Seq<Seq<char>> {
    seq!["REQ ID"@, "REQ Title"@, "Test ID"@, "Test Title"@, "Result"@, "Verdict"@]
}

/// The cells of a matrix row, titles shortened to 25 bytes.
pub open spec fn matrix_cells(l: MatrixLineView) -> Seq<Seq<char>> {
    seq![l.req_id, truncated_form(l.req_title, 25), l.test_id, truncated_form(l.test_title, 25), l.result_id, l.verdict]
}

/// The titles of the row can be shortened to 25 bytes.
pub open spec fn titles_fit(l: MatrixLineView) -> bool {
    &&& byte_len(l.req_title) > 25 ==> is_byte_boundary(l.req_title, 22)
    &&& byte_len(l.test_title) > 25 ==> is_byte_boundary(l.test_title, 22)
}

/// The matrix report up to its summary: the title and the table.
pub open spec fn rvm_document_text(lines: Seq<MatrixLineView>) -> Seq<char> {
    "# Requirements Verification Matrix (RVM)\n\n"@ + markdown_table(seq![matrix_header()] + lines.map_values(|l: MatrixLineView| matrix_cells(l)))
}

/// The lines, each taken by its view.
pub open spec fn matrix_lines_view(lines: Seq<MatrixLine>) -> Seq<MatrixLineView> {
    lines.map_values(|l: MatrixLine| l@)
}

/// The cells of a matrix row in the table.
fn matrix_row_cells(l: &MatrixLine) -> (cells: Vec<String>)
    requires
        titles_fit(l@),
    ensures
        cells@.map_values(|c: String| c@) == matrix_cells(l@),
{
    let mut cells: Vec<String> = Vec::new();
    cells.push(l.req_id.clone());
    cells.push(truncate_str(l.req_title.as_str(), 25));
    cells.push(l.test_id.clone());
    cells.push(truncate_str(l.test_title.as_str(), 25));
    cells.push(l.result_id.clone());
    cells.push(l.verdict.clone());
    assert(cells@.map_values(|c: String| c@) =~= matrix_cells(l@));
    cells
}

/// Writes the matrix report up to its summary, for the rows in matrix order.
pub fn rvm_document(lines: &Vec<MatrixLine>) -> (r: String)
    requires
        forall|i: int| 0 <= i < lines.len() ==> titles_fit(#[trigger] lines@[i]@),
    ensures
        r@ == rvm_document_text(matrix_lines_view(lines@)),
{
    let mut table: Vec<Vec<String>> = Vec::new();
    let names = vec!["REQ ID", "REQ Title", "Test ID", "Test Title", "Result", "Verdict"];
    let header = text_row(&names);
    assert(header@.map_values(|c: String| c@) =~= matrix_header());
    table.push(header);
    let ghost lv = matrix_lines_view(lines@);
    assert(table_view(table@) =~= seq![matrix_header()]);
    let mut i: usize = 0;
    while i < lines.len()
        invariant
            i <= lines.len(),
            lv == matrix_lines_view(lines@),
            forall|k: int| 0 <= k < lines.len() ==> titles_fit(#[trigger] lines@[k]@),
            table_view(table@) == seq![matrix_header()] + lv.take(i as int).map_values(|l: MatrixLineView| matrix_cells(l)),
        decreases lines.len() - i,
    {
        let cells = matrix_row_cells(&lines[i]);
        let ghost before = table_view(table@);
        table.push(cells);
        assert(table_view(table@) =~= before.push(matrix_cells(lv[i as int])));
        assert(lv.take(i as int + 1) =~= lv.take(i as int).push(lv[i as int]));
        i = i + 1;
    }
    assert(lv.take(lines.len() as int) =~= lv);
    let drawn = draw_markdown_table(&table);
    concat_texts("# Requirements Verification Matrix (RVM)\n\n", drawn.as_str())
}

/// Keeping first appearances leaves each identifier once and loses none.
proof fn lemma_distinct_ids(s: Seq<Seq<char>>)
    ensures
        distinct_ids(s).no_duplicates(),
        forall|x: Seq<char>| distinct_ids(s).contains(x) <==> s.contains(x),
    decreases s.len(),
{
    if s.len() > 0 {
        let p = s.drop_last();
        lemma_distinct_ids(p);
        let d = distinct_ids(p);
        assert forall|x: Seq<char>| s.contains(x) <==> (p.contains(x) || x == s.last()) by {
            if s.contains(x) {
                let j = choose|j: int| 0 <= j < s.len() && s[j] == x;
                if j < s.len() - 1 {
                    assert(p[j] == x);
                }
            }
            if p.contains(x) {
                let j = choose|j: int| 0 <= j < p.len() && p[j] == x;
                assert(s[j] == x);
            }
            if x == s.last() {
                assert(s[s.len() - 1] == x);
            }
        }
        if !d.contains(s.last()) {
            let e = d.push(s.last());
            assert forall|x: Seq<char>| e.contains(x) <==> (d.contains(x) || x == s.last()) by {
                if e.contains(x) {
                    let j = choose|j: int| 0 <= j < e.len() && e[j] == x;
                    if j < d.len() {
                        assert(d[j] == x);
                    }
                }
                if d.contains(x) {
                    let j = choose|j: int| 0 <= j < d.len() && d[j] == x;
                    assert(e[j] == x);
                }
                if x == s.last() {
                    assert(e[e.len() - 1] == x);
                }
            }
            assert forall|i: int, j: int| 0 <= i < e.len() && 0 <= j < e.len() && i != j implies e[i] != e[j] by {
                if i < d.len() && j < d.len() {
                } else if i == d.len() {
                    assert(d[j] == e[j]);
                } else {
                    assert(d[i] == e[i]);
                }
            }
        }
    }
}

/// The protocols that list a requirement are exactly those found by
/// [`verifiers_of`].
proof fn lemma_verifiers_of(tests: Seq<MatrixTest>, n: int, req: Seq<char>)
    requires
        0 <= n <= tests.len(),
    ensures
        forall|x: Seq<char>| verifiers_of(tests, n, req).contains(x) <==>
            exists|j: int| 0 <= j < n && tests[j].id@ == x && #[trigger] ids_view(tests[j].verifies@).contains(req),
    decreases n,
{
    if n > 0 {
        lemma_verifiers_of(tests, n - 1, req);
        let a = verifiers_of(tests, n - 1, req);
        let b: Seq<Seq<char>> = if ids_view(tests[n - 1].verifies@).contains(req) {
            seq![tests[n - 1].id@]
        } else {
            seq![]
        };
        assert forall|x: Seq<char>| verifiers_of(tests, n, req).contains(x) <==>
            exists|j: int| 0 <= j < n && tests[j].id@ == x && #[trigger] ids_view(tests[j].verifies@).contains(req) by {
            let v = verifiers_of(tests, n, req);
            assert(v == a + b);
            if v.contains(x) {
                let i = choose|i: int| 0 <= i < v.len() && v[i] == x;
                if i < a.len() {
                    assert(a[i] == x);
                    assert(a.contains(x));
                } else {
                    assert(b[i - a.len()] == x);
                    assert(tests[n - 1].id@ == x && ids_view(tests[n - 1].verifies@).contains(req));
                }
            }
            if exists|j: int| 0 <= j < n && tests[j].id@ == x && #[trigger] ids_view(tests[j].verifies@).contains(req) {
                let j = choose|j: int| 0 <= j < n && tests[j].id@ == x && #[trigger] ids_view(tests[j].verifies@).contains(req);
                if j < n - 1 {
                    assert(a.contains(x));
                    let i = choose|i: int| 0 <= i < a.len() && a[i] == x;
                    assert(v[i] == x);
                } else {
                    assert(v[a.len() as int] == x);
                }
            }
        }
    }
}

/// The tests linked to a requirement are each listed once, and they are
/// exactly the tests the requirement lists together with the protocols that
/// list the requirement.
pub proof fn law_linked_tests_merge_both_sides(r: MatrixRequirement, tests: Seq<MatrixTest>)
    ensures
        linked_tests(r, tests).no_duplicates(),
        forall|x: Seq<char>| #[trigger] linked_tests(r, tests).contains(x) <==> (ids_view(r.verified_by@).contains(x)
            || exists|j: int| 0 <= j < tests.len() && tests[j].id@ == x && #[trigger] ids_view(tests[j].verifies@).contains(r.id@)),
{
    let a = ids_view(r.verified_by@);
    let b = verifiers_of(tests, tests.len() as int, r.id@);
    lemma_distinct_ids(a + b);
    lemma_verifiers_of(tests, tests.len() as int, r.id@);
    assert forall|x: Seq<char>| (a + b).contains(x) <==> (a.contains(x) || b.contains(x)) by {
        let s = a + b;
        if s.contains(x) {
            let i = choose|i: int| 0 <= i < s.len() && s[i] == x;
            if i < a.len() {
                assert(a[i] == x);
            } else {
                assert(b[i - a.len()] == x);
            }
        }
        if a.contains(x) {
            let i = choose|i: int| 0 <= i < a.len() && a[i] == x;
            assert(s[i] == x);
        }
        if b.contains(x) {
            let i = choose|i: int| 0 <= i < b.len() && b[i] == x;
            assert(s[a.len() + i] == x);
        }
    }
}

} // verus!
