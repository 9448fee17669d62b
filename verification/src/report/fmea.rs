//! FMEA report: which risks it lists, in which order, and its summary.

use vstd::prelude::*;
use crate::common::count_where;
use crate::helpers::{truncate_str, truncated_form};
use crate::text::{byte_len, concat_texts, decimal, decimal_text, is_byte_boundary};
use super::{draw_markdown_table, markdown_table, table_view, text_row};
use crate::entities::{RiskLevel, RiskType};
use crate::listing::{key_views, precedes, ranked_positions, ranked_selection, SortKey, SortKeyView};

verus! {

pub struct FmeaArgs {
    /// Output to file instead of stdout
    pub output: Option<String>,

    /// Minimum RPN to include (default: 0)
    pub min_rpn: u16,

    /// Only show design risks
    pub design_only: bool,

    /// Only show process risks
    pub process_only: bool,
}

/// What the FMEA report reads of a risk.
#[derive(Debug, Clone, Copy, PartialEq, Eq, Structural)]
pub struct RiskSummary {
    pub risk_type: RiskType,
    /// Risk priority number (severity × occurrence × detection), if rated.
    pub rpn: Option<u16>,
    pub risk_level: Option<RiskLevel>,
    /// Number of mitigation actions.
    pub mitigations: usize,
}

/// The RPN a risk is ranked and filtered by: unrated counts as zero.
pub open spec fn rpn_or_zero(r: RiskSummary) -> int {
    match r.rpn {
        Some(v) => v as int,
        None => 0,
    }
}

/// The risk passes the type filters and reaches the minimum RPN.
pub open spec fn fmea_keeps(args: &FmeaArgs, r: RiskSummary) -> bool {
    &&& (args.design_only ==> r.risk_type == RiskType::Design)
    &&& (args.process_only ==> r.risk_type == RiskType::Process)
    &&& rpn_or_zero(r) >= args.min_rpn
}

/// The kept risks with this level.
pub open spec fn kept_with_level(args: &FmeaArgs, risks: Seq<RiskSummary>, l: RiskLevel) -> spec_fn(int) -> bool {
    |i: int| fmea_keeps(args, risks[i]) && risks[i].risk_level == Some(l)
}

/// The kept risks without any mitigation.
pub open spec fn kept_unmitigated(args: &FmeaArgs, risks: Seq<RiskSummary>) -> spec_fn(int) -> bool {
    |i: int| fmea_keeps(args, risks[i]) && risks[i].mitigations == 0
}

/// The sum of the RPNs of the kept risks among the first `n`.
pub open spec fn kept_rpn_total(args: &FmeaArgs, risks: Seq<RiskSummary>, n: int) -> int
    decreases n,
{
    if n <= 0 {
        0
    } else {
        kept_rpn_total(args, risks, n - 1) + if fmea_keeps(args, risks[n - 1]) {
            rpn_or_zero(risks[n - 1])
        } else {
            0
        }
    }
}

/// Partial sums of RPNs only grow.
proof fn lemma_rpn_total_grows(args: &FmeaArgs, risks: Seq<RiskSummary>, a: int, b: int)
    requires
        0 <= a <= b,
    ensures
        kept_rpn_total(args, risks, a) <= kept_rpn_total(args, risks, b),
    decreases b - a,
{
    if a < b {
        lemma_rpn_total_grows(args, risks, a, b - 1);
    }
}

/// The risks the report lists, as positions: the kept ones, highest RPN
/// first, equal RPNs in their loaded order.
pub open spec fn fmea_rows(args: &FmeaArgs, risks: Seq<RiskSummary>) -> Seq<usize> {
    ranked_selection(
        Seq::new(risks.len(), |i: int| fmea_keeps(args, risks[i])),
        Seq::new(risks.len(), |i: int| SortKeyView::Num(rpn_or_zero(risks[i]))),
        true,
    )
}

/// The kept risks that have a risk level.
pub open spec fn kept_with_some_level(args: &FmeaArgs, risks: Seq<RiskSummary>) -> spec_fn(int) -> bool {
    |i: int| fmea_keeps(args, risks[i]) && risks[i].risk_level is Some
}

/// The counts by risk level split the kept risks that have a level: every
/// such risk is counted once, under its own level, among the first `n`.
pub proof fn law_level_counts_partition(args: &FmeaArgs, risks: Seq<RiskSummary>, n: int)
    requires
        0 <= n <= risks.len(),
    ensures
        count_where(n, kept_with_level(args, risks, RiskLevel::Critical)) + count_where(n, kept_with_level(args, risks, RiskLevel::High))
            + count_where(n, kept_with_level(args, risks, RiskLevel::Medium)) + count_where(n, kept_with_level(args, risks, RiskLevel::Low))
            == count_where(n, kept_with_some_level(args, risks)),
    decreases n,
{
    if n > 0 {
        law_level_counts_partition(args, risks, n - 1);
        let r = risks[n - 1];
        assert(kept_with_level(args, risks, RiskLevel::Critical)(n - 1) == (fmea_keeps(args, r) && r.risk_level == Some(RiskLevel::Critical)));
        assert(kept_with_level(args, risks, RiskLevel::High)(n - 1) == (fmea_keeps(args, r) && r.risk_level == Some(RiskLevel::High)));
        assert(kept_with_level(args, risks, RiskLevel::Medium)(n - 1) == (fmea_keeps(args, r) && r.risk_level == Some(RiskLevel::Medium)));
        assert(kept_with_level(args, risks, RiskLevel::Low)(n - 1) == (fmea_keeps(args, r) && r.risk_level == Some(RiskLevel::Low)));
        assert(kept_with_some_level(args, risks)(n - 1) == (fmea_keeps(args, r) && r.risk_level is Some));
        let pc = kept_with_level(args, risks, RiskLevel::Critical);
        let ph = kept_with_level(args, risks, RiskLevel::High);
        let pm = kept_with_level(args, risks, RiskLevel::Medium);
        let pl = kept_with_level(args, risks, RiskLevel::Low);
        let ps = kept_with_some_level(args, risks);
        assert(count_where(n, pc) == count_where(n - 1, pc) + if pc(n - 1) { 1nat } else { 0nat });
        assert(count_where(n, ph) == count_where(n - 1, ph) + if ph(n - 1) { 1nat } else { 0nat });
        assert(count_where(n, pm) == count_where(n - 1, pm) + if pm(n - 1) { 1nat } else { 0nat });
        assert(count_where(n, pl) == count_where(n - 1, pl) + if pl(n - 1) { 1nat } else { 0nat });
        assert(count_where(n, ps) == count_where(n - 1, ps) + if ps(n - 1) { 1nat } else { 0nat });
        match r.risk_level {
            Some(RiskLevel::Critical) => {},
            Some(RiskLevel::High) => {},
            Some(RiskLevel::Medium) => {},
            Some(RiskLevel::Low) => {},
            None => {},
        }
    }
}

/// The FMEA report: its rows and summary counts.
pub struct FmeaReport {
    /// Positions of the listed risks, in report order.
    pub rows: Vec<usize>,
    pub total_rpn: u32,
    pub critical: usize,
    pub high: usize,
    pub medium: usize,
    pub low: usize,
    pub unmitigated: usize,
}

/// Builds the FMEA report over the loaded risks.
pub fn fmea_report(args: &FmeaArgs, risks: &Vec<RiskSummary>) -> (r: FmeaReport)
    requires
        kept_rpn_total(args, risks@, risks.len() as int) <= u32::MAX,
    ensures
        r.rows@ == fmea_rows(args, risks@),
        r.total_rpn == kept_rpn_total(args, risks@, risks.len() as int),
        r.critical == count_where(risks.len() as int, kept_with_level(args, risks@, RiskLevel::Critical)),
        r.high == count_where(risks.len() as int, kept_with_level(args, risks@, RiskLevel::High)),
        r.medium == count_where(risks.len() as int, kept_with_level(args, risks@, RiskLevel::Medium)),
        r.low == count_where(risks.len() as int, kept_with_level(args, risks@, RiskLevel::Low)),
        r.unmitigated == count_where(risks.len() as int, kept_unmitigated(args, risks@)),
        forall|a: int| 0 <= a < r.rows@.len() ==> r.rows@[a] < risks.len() && fmea_keeps(args, risks@[r.rows@[a] as int]),
        forall|i: int| 0 <= i < risks.len() && fmea_keeps(args, risks@[i]) ==> r.rows@.contains(i as usize),
        forall|a: int, b: int| 0 <= a < b < r.rows@.len() ==>
            rpn_or_zero(risks@[r.rows@[a] as int]) >= rpn_or_zero(risks@[r.rows@[b] as int]),
        r.critical + r.high + r.medium + r.low == count_where(risks.len() as int, kept_with_some_level(args, risks@)),
{
    proof {
        law_level_counts_partition(args, risks@, risks.len() as int);
    }
    let ghost rs = risks@;
    let mut keep: Vec<bool> = Vec::new();
    let mut keys: Vec<SortKey> = Vec::new();
    let mut total: u32 = 0;
    let mut critical: usize = 0;
    let mut high: usize = 0;
    let mut medium: usize = 0;
    let mut low: usize = 0;
    let mut unmitigated: usize = 0;
    let mut i: usize = 0;
    while i < risks.len()
        invariant
            rs == risks@,
            i <= risks.len(),
            kept_rpn_total(args, rs, rs.len() as int) <= u32::MAX,
            keep.len() == i,
            keys.len() == i,
            forall|k: int| 0 <= k < i ==> keep@[k] == fmea_keeps(args, rs[k]),
            forall|k: int| 0 <= k < i ==> (#[trigger] keys@[k])@ == SortKeyView::Num(rpn_or_zero(rs[k])),
            total == kept_rpn_total(args, rs, i as int),
            critical + high + medium + low <= i,
            unmitigated <= i,
            critical == count_where(i as int, kept_with_level(args, rs, RiskLevel::Critical)),
            high == count_where(i as int, kept_with_level(args, rs, RiskLevel::High)),
            medium == count_where(i as int, kept_with_level(args, rs, RiskLevel::Medium)),
            low == count_where(i as int, kept_with_level(args, rs, RiskLevel::Low)),
            unmitigated == count_where(i as int, kept_unmitigated(args, rs)),
        decreases risks.len() - i,
    {
        let r = risks[i];
        let rpn: u16 = match r.rpn {
            Some(v) => v,
            None => 0,
        };
        let kept = (!args.design_only || r.risk_type == RiskType::Design)
            && (!args.process_only || r.risk_type == RiskType::Process)
            && rpn >= args.min_rpn;
        if kept {
            proof {
                lemma_rpn_total_grows(args, rs, i as int + 1, rs.len() as int);
            }
            total = total + rpn as u32;
            match r.risk_level {
                Some(RiskLevel::Critical) => {
                    critical = critical + 1;
                },
                Some(RiskLevel::High) => {
                    high = high + 1;
                },
                Some(RiskLevel::Medium) => {
                    medium = medium + 1;
                },
                Some(RiskLevel::Low) => {
                    low = low + 1;
                },
                None => {},
            }
            if r.mitigations == 0 {
                unmitigated = unmitigated + 1;
            }
        }
        keep.push(kept);
        keys.push(SortKey::num(rpn as i128));
        i = i + 1;
    }
    let rows = ranked_positions(&keep, &keys, true);
    assert(keep@ =~= Seq::new(rs.len(), |i: int| fmea_keeps(args, rs[i])));
    assert(key_views(keys@) =~= Seq::new(rs.len(), |i: int| SortKeyView::Num(rpn_or_zero(rs[i]))));
    assert forall|i: int| 0 <= i < rs.len() && fmea_keeps(args, rs[i]) implies rows@.contains(i as usize) by {
        assert(keep@[i]);
    }
    assert forall|a: int, b: int| 0 <= a < b < rows@.len() implies
        rpn_or_zero(rs[rows@[a] as int]) >= rpn_or_zero(rs[rows@[b] as int]) by {
        assert(precedes(key_views(keys@), true, rows@[a] as int, rows@[b] as int));
        assert((#[trigger] keys@[rows@[a] as int])@ == SortKeyView::Num(rpn_or_zero(rs[rows@[a] as int])));
        assert((#[trigger] keys@[rows@[b] as int])@ == SortKeyView::Num(rpn_or_zero(rs[rows@[b] as int])));
    }
    FmeaReport { rows, total_rpn: total, critical, high, medium, low, unmitigated }
}


/// What the FMEA table shows of a risk.
pub struct FmeaRowText {
    /// The risk's identifier as shown (its short form when it has one).
    pub id: String,
    pub failure_mode: Option<String>,
    pub cause: Option<String>,
    pub effect: Option<String>,
    pub severity: Option<u8>,
    pub occurrence: Option<u8>,
    pub detection: Option<u8>,
    pub rpn: Option<u16>,
    pub level: Option<RiskLevel>,
    /// Number of mitigation actions.
    pub mitigations: usize,
}

/// The text, or a dash when absent.
pub open spec fn or_dash(o: Option<String>) -> Seq<char> {
    match o {
        Some(x) => x@,
        None => "-"@,
    }
}

/// The number in decimal, or a dash when absent.
pub open spec fn number_or_dash(o: Option<int>) -> Seq<char> {
    match o {
        Some(n) => decimal(n as nat),
        None => "-"@,
    }
}

/// The name a risk level is written as.
pub open spec fn level_name(l: RiskLevel) -> Seq<char> {
    match l {
        RiskLevel::Low => "low"@,
        RiskLevel::Medium => "medium"@,
        RiskLevel::High => "high"@,
        RiskLevel::Critical => "critical"@,
    }
}

/// The mitigations column: none, or how many actions.
pub open spec fn mitigation_text(n: usize) -> Seq<char> {
    if n == 0 {
        "None"@
    } else {
        decimal(n as nat) + " action(s)"@
    }
}

/// The text (or its dash) can be shortened to `width` bytes: when too long,
/// the cut falls between two characters.
pub open spec fn fits_cell(o: Option<String>, width: int) -> bool {
    byte_len(or_dash(o)) > width ==> is_byte_boundary(or_dash(o), if width >= 3 { width - 3 } else { 0 })
}

/// The cells of a risk's row.
pub open spec fn fmea_cells(r: FmeaRowText) -> Seq<Seq<char>> {
    seq![
        r.id@,
        truncated_form(or_dash(r.failure_mode), 20),
        truncated_form(or_dash(r.cause), 15),
        truncated_form(or_dash(r.effect), 15),
        number_or_dash(match r.severity { Some(v) => Some(v as int), None => None }),
        number_or_dash(match r.occurrence { Some(v) => Some(v as int), None => None }),
        number_or_dash(match r.detection { Some(v) => Some(v as int), None => None }),
        number_or_dash(match r.rpn { Some(v) => Some(v as int), None => None }),
        match r.level { Some(l) => level_name(l), None => "-"@ },
        mitigation_text(r.mitigations),
    ]
}

/// The header row of the FMEA table.
pub open spec fn fmea_header() -> Seq<Seq<char>> {
    seq!["ID"@, "Failure Mode"@, "Cause"@, "Effect"@, "S"@, "O"@, "D"@, "RPN"@, "Level"@, "Mitigations"@]
}

/// The FMEA report up to its summary: the title and the table.
pub open spec fn fmea_document_text(rows: Seq<FmeaRowText>) -> Seq<char> {
    "# FMEA Report\n\n"@ + markdown_table(seq![fmea_header()] + rows.map_values(|r: FmeaRowText| fmea_cells(r)))
}

/// The text, or a dash.
fn text_or_dash(o: &Option<String>) -> (r: &str)
    ensures
        r@ == or_dash(*o),
{
    match o {
        Some(x) => x.as_str(),
        None => "-",
    }
}

/// A number in decimal, or a dash.
fn decimal_or_dash(o: Option<usize>) -> (r: String)
    ensures
        r@ == number_or_dash(match o { Some(v) => Some(v as int), None => None }),
{
    match o {
        Some(v) => decimal_text(v),
        None => "-".to_owned(),
    }
}

/// The cells of a risk's row in the FMEA table.
pub fn fmea_row_cells(r: &FmeaRowText) -> (cells: Vec<String>)
    requires
        fits_cell(r.failure_mode, 20),
        fits_cell(r.cause, 15),
        fits_cell(r.effect, 15),
    ensures
        cells@.map_values(|c: String| c@) == fmea_cells(*r),
{
    let mut cells: Vec<String> = Vec::new();
    cells.push(r.id.clone());
    cells.push(truncate_str(text_or_dash(&r.failure_mode), 20));
    cells.push(truncate_str(text_or_dash(&r.cause), 15));
    cells.push(truncate_str(text_or_dash(&r.effect), 15));
    cells.push(decimal_or_dash(match r.severity { Some(v) => Some(v as usize), None => None }));
    cells.push(decimal_or_dash(match r.occurrence { Some(v) => Some(v as usize), None => None }));
    cells.push(decimal_or_dash(match r.detection { Some(v) => Some(v as usize), None => None }));
    cells.push(decimal_or_dash(match r.rpn { Some(v) => Some(v as usize), None => None }));
    cells.push(match r.level {
        Some(RiskLevel::Low) => "low".to_owned(),
        Some(RiskLevel::Medium) => "medium".to_owned(),
        Some(RiskLevel::High) => "high".to_owned(),
        Some(RiskLevel::Critical) => "critical".to_owned(),
        None => "-".to_owned(),
    });
    cells.push(if r.mitigations == 0 {
        "None".to_owned()
    } else {
        concat_texts(decimal_text(r.mitigations).as_str(), " action(s)")
    });
    assert(cells@.map_values(|c: String| c@) =~= fmea_cells(*r));
    cells
}

/// The FMEA report up to its summary, for the risks in report order.
pub fn fmea_document(rows: &Vec<FmeaRowText>) -> (r: String)
    requires
        forall|i: int| 0 <= i < rows.len() ==> fits_cell(#[trigger] rows@[i].failure_mode, 20) && fits_cell(rows@[i].cause, 15) && fits_cell(rows@[i].effect, 15),
    ensures
        r@ == fmea_document_text(rows@),
{
    let mut table: Vec<Vec<String>> = Vec::new();
    let names = vec!["ID", "Failure Mode", "Cause", "Effect", "S", "O", "D", "RPN", "Level", "Mitigations"];
    let header = text_row(&names);
    assert(header@.map_values(|c: String| c@) =~= fmea_header());
    table.push(header);
    assert(table_view(table@) =~= seq![fmea_header()]);
    let mut i: usize = 0;
    while i < rows.len()
        invariant
            i <= rows.len(),
            forall|k: int| 0 <= k < rows.len() ==> fits_cell(#[trigger] rows@[k].failure_mode, 20) && fits_cell(rows@[k].cause, 15) && fits_cell(rows@[k].effect, 15),
            table_view(table@) == seq![fmea_header()] + rows@.take(i as int).map_values(|r: FmeaRowText| fmea_cells(r)),
        decreases rows.len() - i,
    {
        let cells = fmea_row_cells(&rows[i]);
        let ghost before = table_view(table@);
        table.push(cells);
        assert(table_view(table@) =~= before.push(fmea_cells(rows@[i as int])));
        assert(rows@.take(i as int + 1) =~= rows@.take(i as int).push(rows@[i as int]));
        i = i + 1;
    }
    assert(rows@.take(rows.len() as int) =~= rows@);
    let drawn = draw_markdown_table(&table);
    concat_texts("# FMEA Report\n\n", drawn.as_str())
}

} // verus!
