//! Mates between features: which mates a listing shows.

use vstd::prelude::*;
use crate::args::{is_full_record_format, OutputFormat};
use crate::assembly::{cuts_at, cuts_cleanly, status_debug_name};
use crate::helpers::{csv_field, dash_rule, dashes, escape_csv, format_short_id, short_id_form, shown_or, text_or, truncate_str, truncated_form};
use crate::entities::{MateType, Status};
use crate::text::{append_text, concat_texts, contains_ignore_case, contains_ignoring_case, decimal, decimal_text, pad_right, padded};

verus! {

/// Mate type filter
#[derive(Debug, Clone, Copy, PartialEq, Eq, Structural)]
pub enum TypeFilter {
    ClearanceFit,
    InterferenceFit,
    TransitionFit,
    PlanarContact,
    ThreadEngagement,
    All,
}

/// Status filter
#[derive(Debug, Clone, Copy, PartialEq, Eq, Structural)]
pub enum StatusFilter {
    Draft,
    Review,
    Approved,
    Released,
    Obsolete,
    All,
}

pub struct ListArgs {
    /// Filter by mate type
    pub mate_type: TypeFilter,

    /// Filter by status
    pub status: StatusFilter,

    /// Search in title
    pub search: Option<String>,

    /// Limit number of results
    pub limit: Option<usize>,

    /// Show only count
    pub count: bool,

    /// Output format
    pub format: OutputFormat,
}

pub struct ShowArgs {
    /// Mate ID or short ID (MATE@N)
    pub id: String,

    /// Output format
    pub format: OutputFormat,
}

pub struct EditArgs {
    /// Mate ID or short ID (MATE@N)
    pub id: String,
}

pub struct RecalcArgs {
    /// Mate ID or short ID (MATE@N)
    pub id: String,
}


/// What the mate list reads of a mate.
pub struct MateSummary {
    pub title: String,
    pub description: Option<String>,
    pub mate_type: MateType,
    pub status: Status,
}

/// The mate has the kind a filter asks for.
pub open spec fn mate_type_matches(f: TypeFilter, t: MateType) -> bool {
    match f {
        TypeFilter::ClearanceFit => t == MateType::ClearanceFit,
        TypeFilter::InterferenceFit => t == MateType::InterferenceFit,
        TypeFilter::TransitionFit => t == MateType::TransitionFit,
        TypeFilter::PlanarContact => t == MateType::PlanarContact,
        TypeFilter::ThreadEngagement => t == MateType::ThreadEngagement,
        TypeFilter::All => true,
    }
}

/// The name of the value a `TypeFilter` asks for (the filter's own variant
/// name).
pub open spec fn mate_type_filter_name(f: TypeFilter) -> Seq<char> {
    match f {
        TypeFilter::ClearanceFit => "ClearanceFit"@,
        TypeFilter::InterferenceFit => "InterferenceFit"@,
        TypeFilter::TransitionFit => "TransitionFit"@,
        TypeFilter::PlanarContact => "PlanarContact"@,
        TypeFilter::ThreadEngagement => "ThreadEngagement"@,
        TypeFilter::All => "All"@,
    }
}

/// The variant name of a `MateType`.
pub open spec fn mate_type_name(t: MateType) -> Seq<char> {
    match t {
        MateType::ClearanceFit => "ClearanceFit"@,
        MateType::InterferenceFit => "InterferenceFit"@,
        MateType::TransitionFit => "TransitionFit"@,
        MateType::PlanarContact => "PlanarContact"@,
        MateType::ThreadEngagement => "ThreadEngagement"@,
    }
}

/// A filter other than `All` keeps exactly the values whose name is the
/// filter's; `All` keeps every value.
pub proof fn law_mate_type_filter_keeps_its_value(f: TypeFilter, v: MateType)
    ensures
        f != TypeFilter::All ==> (mate_type_matches(f, v) <==> mate_type_name(v) == mate_type_filter_name(f)),
        f == TypeFilter::All ==> mate_type_matches(f, v),
{
    reveal_strlit("ClearanceFit");
    reveal_strlit("InterferenceFit");
    reveal_strlit("TransitionFit");
    reveal_strlit("PlanarContact");
    reveal_strlit("ThreadEngagement");
    reveal_strlit("All");
    assert("ClearanceFit"@.len() == 12);
    assert("InterferenceFit"@.len() == 15);
    assert("TransitionFit"@.len() == 13 && "TransitionFit"@[0] == 'T');
    assert("PlanarContact"@.len() == 13 && "PlanarContact"@[0] == 'P');
    assert("ThreadEngagement"@.len() == 16);
    assert("All"@.len() == 3);
}


/// The mate has the status a filter asks for.
pub open spec fn status_matches(f: StatusFilter, s: Status) -> bool {
    match f {
        StatusFilter::Draft => s == Status::Draft,
        StatusFilter::Review => s == Status::Review,
        StatusFilter::Approved => s == Status::Approved,
        StatusFilter::Released => s == Status::Released,
        StatusFilter::Obsolete => s == Status::Obsolete,
        StatusFilter::All => true,
    }
}

/// The name of the value a `StatusFilter` asks for (the filter's own variant
/// name).
pub open spec fn status_filter_name(f: StatusFilter) -> Seq<char> {
    match f {
        StatusFilter::Draft => "Draft"@,
        StatusFilter::Review => "Review"@,
        StatusFilter::Approved => "Approved"@,
        StatusFilter::Released => "Released"@,
        StatusFilter::Obsolete => "Obsolete"@,
        StatusFilter::All => "All"@,
    }
}

/// A filter other than `All` keeps exactly the values whose name is the
/// filter's; `All` keeps every value.
pub proof fn law_status_filter_keeps_its_value(f: StatusFilter, v: Status)
    ensures
        f != StatusFilter::All ==> (status_matches(f, v) <==> status_debug_name(v) == status_filter_name(f)),
        f == StatusFilter::All ==> status_matches(f, v),
{
    reveal_strlit("Draft");
    reveal_strlit("Review");
    reveal_strlit("Approved");
    reveal_strlit("Released");
    reveal_strlit("Obsolete");
    reveal_strlit("All");
    assert("Draft"@.len() == 5);
    assert("Review"@.len() == 6);
    assert("Approved"@.len() == 8 && "Approved"@[0] == 'A');
    assert("Released"@.len() == 8 && "Released"@[0] == 'R');
    assert("Obsolete"@.len() == 8 && "Obsolete"@[0] == 'O');
    assert("All"@.len() == 3);
}


/// The mate passes every filter of `mate list`.
pub open spec fn mate_listed(args: &ListArgs, m: &MateSummary) -> bool {
    &&& mate_type_matches(args.mate_type, m.mate_type)
    &&& status_matches(args.status, m.status)
    &&& (args.search matches Some(s) ==> (contains_ignoring_case(m.title@, s@)
        || (m.description matches Some(d) && contains_ignoring_case(d@, s@))))
}

/// Whether `mate list` shows the mate.
pub fn mate_matches(args: &ListArgs, m: &MateSummary) -> (r: bool)
    ensures
        r == mate_listed(args, m),
{
    let type_ok = match args.mate_type {
        TypeFilter::ClearanceFit => m.mate_type == MateType::ClearanceFit,
        TypeFilter::InterferenceFit => m.mate_type == MateType::InterferenceFit,
        TypeFilter::TransitionFit => m.mate_type == MateType::TransitionFit,
        TypeFilter::PlanarContact => m.mate_type == MateType::PlanarContact,
        TypeFilter::ThreadEngagement => m.mate_type == MateType::ThreadEngagement,
        TypeFilter::All => true,
    };
    let status_ok = match args.status {
        StatusFilter::Draft => m.status == Status::Draft,
        StatusFilter::Review => m.status == Status::Review,
        StatusFilter::Approved => m.status == Status::Approved,
        StatusFilter::Released => m.status == Status::Released,
        StatusFilter::Obsolete => m.status == Status::Obsolete,
        StatusFilter::All => true,
    };
    if !type_ok || !status_ok {
        return false;
    }
    if let Some(s) = &args.search {
        let in_description = match &m.description {
            Some(d) => contains_ignore_case(d.as_str(), s.as_str()),
            None => false,
        };
        if !(contains_ignore_case(m.title.as_str(), s.as_str()) || in_description) {
            return false;
        }
    }
    true
}


/// A mate as the list shows it: each text as written, with the short form
/// the caller found and the fit result, if the mate has a fit analysis.
pub struct MateListRow {
    pub id: String,
    /// The mate's short form, if it has one.
    pub short_id: Option<String>,
    pub title: String,
    /// The mate type, as written.
    pub mate_type: String,
    /// The fit result, as written, when the mate has a fit analysis.
    pub fit_result: Option<String>,
    /// The status, as written.
    pub status: String,
}

/// The CSV line of a mate.
pub open spec fn mate_csv_line(m: &MateListRow) -> Seq<char> {
    text_or(m.short_id, Seq::empty()) + ","@ + m.id@ + ","@ + csv_field(m.title@) + ","@ + m.mate_type@ + ","@
        + text_or(m.fit_result, "n/a"@) + ","@ + m.status@
}

/// The line of a mate in the table listing.
pub open spec fn mate_table_line(m: &MateListRow) -> Seq<char> {
    padded(text_or(m.short_id, Seq::empty()), 8) + " "@ + padded(short_id_form(m.id@), 17) + " "@ + padded(truncated_form(m.title@, 23), 25)
        + " "@ + padded(m.mate_type@, 15) + " "@ + padded(text_or(m.fit_result, "n/a"@), 12) + " "@ + padded(m.status@, 10)
}

/// The header line of the table listing.
pub open spec fn mate_table_header() -> Seq<char> {
    padded("SHORT"@, 8) + " "@ + padded("ID"@, 17) + " "@ + padded("TITLE"@, 25) + " "@ + padded("TYPE"@, 15) + " "@
        + padded("FIT"@, 12) + " "@ + padded("STATUS"@, 10)
}

/// The Markdown line of a mate.
pub open spec fn mate_md_line(m: &MateListRow) -> Seq<char> {
    "| "@ + text_or(m.short_id, Seq::empty()) + " | "@ + short_id_form(m.id@) + " | "@ + m.title@ + " | "@ + m.mate_type@ + " | "@
        + text_or(m.fit_result, "n/a"@) + " | "@ + m.status@ + " |"@
}

/// What `mate list` prints for the mates in a format other than JSON and
/// YAML, one text per line: the count when only that is asked for, a notice
/// when there are none, else the lines of the format.
pub open spec fn mate_list_output(ms: Seq<MateListRow>, count: bool, format: OutputFormat) -> Seq<Seq<char>> {
    if count {
        seq![decimal(ms.len())]
    } else if ms.len() == 0 {
        seq!["No mates found."@]
    } else {
        match format {
            OutputFormat::Csv => seq!["short_id,id,title,mate_type,fit_result,status"@] + ms.map_values(|m: MateListRow| mate_csv_line(&m)),
            OutputFormat::Md => seq!["| Short | ID | Title | Type | Fit | Status |"@, "|---|---|---|---|---|---|"@]
                + ms.map_values(|m: MateListRow| mate_md_line(&m)),
            OutputFormat::Id => ms.map_values(|m: MateListRow| m.id@),
            _ => seq![mate_table_header(), dash_rule(90)] + ms.map_values(|m: MateListRow| mate_table_line(&m))
                + seq![Seq::empty(), decimal(ms.len()) + " mate(s) found. Use MATE@N to reference by short ID."@],
        }
    }
}

/// The texts of a mate that the listings cut can be cut cleanly.
pub open spec fn mate_row_fits(m: &MateListRow) -> bool {
    &&& cuts_cleanly(m.id@, 16)
    &&& cuts_cleanly(m.title@, 23)
}

impl MateListRow {
    /// Whether the texts that the listings cut can be cut cleanly.
    pub fn fits(&self) -> (r: bool)
        ensures
            r == mate_row_fits(self),
    {
        cuts_at(self.id.as_str(), 16) && cuts_at(self.title.as_str(), 23)
    }
}

/// The CSV line of a mate.
fn mate_csv(m: &MateListRow) -> (r: String)
    ensures
        r@ == mate_csv_line(m),
{
    proof {
        reveal_strlit("");
        assert(""@ =~= Seq::<char>::empty());
    }
    let mut r = shown_or(&m.short_id, "");
    append_text(&mut r, ",");
    append_text(&mut r, m.id.as_str());
    append_text(&mut r, ",");
    append_text(&mut r, escape_csv(m.title.as_str()).as_str());
    append_text(&mut r, ",");
    append_text(&mut r, m.mate_type.as_str());
    append_text(&mut r, ",");
    append_text(&mut r, shown_or(&m.fit_result, "n/a").as_str());
    append_text(&mut r, ",");
    append_text(&mut r, m.status.as_str());
    r
}

/// Appends a space and the text padded to `width`.
fn append_cell(r: &mut String, text: &str, width: usize)
    ensures
        final(r)@ == old(r)@ + " "@ + padded(text@, width as int),
{
    append_text(r, " ");
    append_text(r, pad_right(text, width).as_str());
}

/// The line of a mate in the table listing.
fn mate_line(m: &MateListRow) -> (r: String)
    requires
        mate_row_fits(m),
    ensures
        r@ == mate_table_line(m),
{
    proof {
        reveal_strlit("");
        assert(""@ =~= Seq::<char>::empty());
    }
    let mut r = pad_right(shown_or(&m.short_id, "").as_str(), 8);
    append_cell(&mut r, format_short_id(m.id.as_str()).as_str(), 17);
    append_cell(&mut r, truncate_str(m.title.as_str(), 23).as_str(), 25);
    append_cell(&mut r, m.mate_type.as_str(), 15);
    append_cell(&mut r, shown_or(&m.fit_result, "n/a").as_str(), 12);
    append_cell(&mut r, m.status.as_str(), 10);
    r
}

/// The Markdown line of a mate.
fn mate_md(m: &MateListRow) -> (r: String)
    requires
        cuts_cleanly(m.id@, 16),
    ensures
        r@ == mate_md_line(m),
{
    proof {
        reveal_strlit("");
        assert(""@ =~= Seq::<char>::empty());
    }
    let mut r = concat_texts("| ", shown_or(&m.short_id, "").as_str());
    append_text(&mut r, " | ");
    append_text(&mut r, format_short_id(m.id.as_str()).as_str());
    append_text(&mut r, " | ");
    append_text(&mut r, m.title.as_str());
    append_text(&mut r, " | ");
    append_text(&mut r, m.mate_type.as_str());
    append_text(&mut r, " | ");
    append_text(&mut r, shown_or(&m.fit_result, "n/a").as_str());
    append_text(&mut r, " | ");
    append_text(&mut r, m.status.as_str());
    append_text(&mut r, " |");
    r
}

/// Writes what `mate list` prints for the mates in a format other than
/// JSON and YAML, one text per line.
pub fn mate_list_lines(mates: &Vec<MateListRow>, count: bool, format: OutputFormat) -> (r: Vec<String>)
    requires
        mates.len() > 0 && !count ==> !is_full_record_format(format) && format != OutputFormat::Auto && format != OutputFormat::ShortId,
        format == OutputFormat::Tsv ==> forall|i: int| 0 <= i < mates.len() ==> mate_row_fits(#[trigger] &mates@[i]),
        format == OutputFormat::Md ==> forall|i: int| 0 <= i < mates.len() ==> cuts_cleanly((#[trigger] mates@[i]).id@, 16),
    ensures
        r@.map_values(|s: String| s@) == mate_list_output(mates@, count, format),
{
    let mut out: Vec<String> = Vec::new();
    if count {
        out.push(decimal_text(mates.len()));
        assert(out@.map_values(|s: String| s@) =~= mate_list_output(mates@, count, format));
        return out;
    }
    if mates.len() == 0 {
        out.push("No mates found.".to_owned());
        assert(out@.map_values(|s: String| s@) =~= mate_list_output(mates@, count, format));
        return out;
    }
    let ghost head: Seq<Seq<char>> = match format {
        OutputFormat::Csv => seq!["short_id,id,title,mate_type,fit_result,status"@],
        OutputFormat::Md => seq!["| Short | ID | Title | Type | Fit | Status |"@, "|---|---|---|---|---|---|"@],
        OutputFormat::Id => seq![],
        _ => seq![mate_table_header(), dash_rule(90)],
    };
    let ghost line = |m: MateListRow| match format {
        OutputFormat::Csv => mate_csv_line(&m),
        OutputFormat::Md => mate_md_line(&m),
        OutputFormat::Id => m.id@,
        _ => mate_table_line(&m),
    };
    match format {
        OutputFormat::Csv => {
            out.push("short_id,id,title,mate_type,fit_result,status".to_owned());
        },
        OutputFormat::Md => {
            out.push("| Short | ID | Title | Type | Fit | Status |".to_owned());
            out.push("|---|---|---|---|---|---|".to_owned());
        },
        OutputFormat::Id => {},
        _ => {
            let mut header = pad_right("SHORT", 8);
            append_cell(&mut header, "ID", 17);
            append_cell(&mut header, "TITLE", 25);
            append_cell(&mut header, "TYPE", 15);
            append_cell(&mut header, "FIT", 12);
            append_cell(&mut header, "STATUS", 10);
            out.push(header);
            out.push(dashes(90));
        },
    }
    assert(out@.map_values(|s: String| s@) =~= head);
    let mut i: usize = 0;
    while i < mates.len()
        invariant
            i <= mates.len(),
            mates.len() > 0 && !count,
            !is_full_record_format(format) && format != OutputFormat::Auto && format != OutputFormat::ShortId,
            format == OutputFormat::Tsv ==> forall|k: int| 0 <= k < mates.len() ==> mate_row_fits(#[trigger] &mates@[k]),
            format == OutputFormat::Md ==> forall|k: int| 0 <= k < mates.len() ==> cuts_cleanly((#[trigger] mates@[k]).id@, 16),
            line == (|m: MateListRow| match format {
                OutputFormat::Csv => mate_csv_line(&m),
                OutputFormat::Md => mate_md_line(&m),
                OutputFormat::Id => m.id@,
                _ => mate_table_line(&m),
            }),
            out@.map_values(|s: String| s@) == head + mates@.take(i as int).map_values(line),
        decreases mates.len() - i,
    {
        let m = &mates[i];
        let text = match format {
            OutputFormat::Csv => mate_csv(m),
            OutputFormat::Md => mate_md(m),
            OutputFormat::Id => m.id.clone(),
            _ => mate_line(m),
        };
        assert(text@ == line(mates@[i as int]));
        let ghost before = out@.map_values(|s: String| s@);
        out.push(text);
        assert(out@.map_values(|s: String| s@) =~= before.push(text@));
        assert(mates@.take(i as int + 1) =~= mates@.take(i as int).push(mates@[i as int]));
        assert(mates@.take(i as int + 1).map_values(line) =~= mates@.take(i as int).map_values(line).push(line(mates@[i as int])));
        i = i + 1;
    }
    assert(mates@.take(mates.len() as int) =~= mates@);
    match format {
        OutputFormat::Csv => {},
        OutputFormat::Md => {},
        OutputFormat::Id => {},
        _ => {
            let ghost before = out@.map_values(|s: String| s@);
            out.push(String::new());
            let mut footer = decimal_text(mates.len());
            append_text(&mut footer, " mate(s) found. Use MATE@N to reference by short ID.");
            out.push(footer);
            assert(out@.map_values(|s: String| s@) =~= before + seq![Seq::<char>::empty(), decimal(mates.len() as nat) + " mate(s) found. Use MATE@N to reference by short ID."@]);
        },
    }
    assert(out@.map_values(|s: String| s@) =~= mate_list_output(mates@, count, format));
    out
}
} // verus!
