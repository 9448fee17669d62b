//! Control plan items: which controls a listing shows, in which order.

use vstd::prelude::*;
use crate::assembly::{status_debug_name, status_debug_text};
use crate::common::{instant, time_key, Timestamp};
use crate::entities::{ControlType, Status};
use crate::listing::{SortKey, SortKeyView};
use crate::args::{is_full_record_format, OutputFormat};
use crate::assembly::{cuts_at, cuts_cleanly};
use crate::helpers::{csv_field, dash_rule, dashes, escape_csv, format_short_id, short_id_form, shown_or, text_or, truncate_str, truncated_form};
use crate::text::{append_text, concat_texts, contains_ignore_case, contains_ignoring_case, decimal, decimal_text, pad_right, padded, str_contains, text_contains};

verus! {

/// Control type filter
#[derive(Debug, Clone, Copy, PartialEq, Eq, Structural)]
pub enum ControlTypeFilter {
    Spc,
    Inspection,
    PokaYoke,
    Visual,
    FunctionalTest,
    Attribute,
    All,
}

/// Status filter
#[derive(Debug, Clone, Copy, PartialEq, Eq, Structural)]
pub enum StatusFilter {
    Draft,
    Review,
    Approved,
    Released,
    Obsolete,
    All,
}

pub struct ListArgs {
    /// Filter by control type
    pub kind: ControlTypeFilter,

    /// Filter by status
    pub status: StatusFilter,

    /// Filter by process ID
    pub process: Option<String>,

    /// Show only critical (CTQ) controls
    pub critical: bool,

    /// Search in title and description
    pub search: Option<String>,

    /// Sort by field
    pub sort: SortField,

    /// Reverse sort order
    pub reverse: bool,

    /// Limit number of results
    pub limit: Option<usize>,

    /// Show only count
    pub count: bool,
}

#[derive(Debug, Clone, Copy, PartialEq, Eq, Structural)]
pub enum SortField {
    Title,
    Type,
    Status,
    Created,
}

pub struct ShowArgs {
    /// Control ID or short ID (CTRL@N)
    pub id: String,
}

pub struct EditArgs {
    /// Control ID or short ID (CTRL@N)
    pub id: String,
}


/// What the control list reads of a control.
pub struct ControlSummary {
    pub title: String,
    pub description: Option<String>,
    pub control_type: ControlType,
    pub status: Status,
    /// The process the control belongs to, if linked.
    pub process: Option<String>,
    /// The controlled characteristic's name.
    pub characteristic_name: String,
    /// The characteristic is critical to quality.
    pub critical: bool,
    pub created: Timestamp,
}

/// The control has the kind a filter asks for.
pub open spec fn control_type_matches(f: ControlTypeFilter, t: ControlType) -> bool {
    match f {
        ControlTypeFilter::Spc => t == ControlType::Spc,
        ControlTypeFilter::Inspection => t == ControlType::Inspection,
        ControlTypeFilter::PokaYoke => t == ControlType::PokaYoke,
        ControlTypeFilter::Visual => t == ControlType::Visual,
        ControlTypeFilter::FunctionalTest => t == ControlType::FunctionalTest,
        ControlTypeFilter::Attribute => t == ControlType::Attribute,
        ControlTypeFilter::All => true,
    }
}

/// The name of the value a `ControlTypeFilter` asks for (the filter's own variant
/// name).
pub open spec fn control_type_filter_name(f: ControlTypeFilter) -> Seq<char> {
    match f {
        ControlTypeFilter::Spc => "Spc"@,
        ControlTypeFilter::Inspection => "Inspection"@,
        ControlTypeFilter::PokaYoke => "PokaYoke"@,
        ControlTypeFilter::Visual => "Visual"@,
        ControlTypeFilter::FunctionalTest => "FunctionalTest"@,
        ControlTypeFilter::Attribute => "Attribute"@,
        ControlTypeFilter::All => "All"@,
    }
}

/// A filter other than `All` keeps exactly the values whose name is the
/// filter's; `All` keeps every value.
pub proof fn law_control_type_filter_keeps_its_value(f: ControlTypeFilter, v: ControlType)
    ensures
        f != ControlTypeFilter::All ==> (control_type_matches(f, v) <==> control_type_debug_name(v) == control_type_filter_name(f)),
        f == ControlTypeFilter::All ==> control_type_matches(f, v),
{
    reveal_strlit("Spc");
    reveal_strlit("Inspection");
    reveal_strlit("PokaYoke");
    reveal_strlit("Visual");
    reveal_strlit("FunctionalTest");
    reveal_strlit("Attribute");
    reveal_strlit("All");
    assert("Spc"@.len() == 3 && "Spc"@[0] == 'S');
    assert("Inspection"@.len() == 10);
    assert("PokaYoke"@.len() == 8);
    assert("Visual"@.len() == 6);
    assert("FunctionalTest"@.len() == 14);
    assert("Attribute"@.len() == 9);
    assert("All"@.len() == 3 && "All"@[0] == 'A');
}


/// The control has the status a filter asks for.
pub open spec fn status_matches(f: StatusFilter, s: Status) -> bool {
    match f {
        StatusFilter::Draft => s == Status::Draft,
        StatusFilter::Review => s == Status::Review,
        StatusFilter::Approved => s == Status::Approved,
        StatusFilter::Released => s == Status::Released,
        StatusFilter::Obsolete => s == Status::Obsolete,
        StatusFilter::All => true,
    }
}

/// The name of the value a `StatusFilter` asks for (the filter's own variant
/// name).
pub open spec fn status_filter_name(f: StatusFilter) -> Seq<char> {
    match f {
        StatusFilter::Draft => "Draft"@,
        StatusFilter::Review => "Review"@,
        StatusFilter::Approved => "Approved"@,
        StatusFilter::Released => "Released"@,
        StatusFilter::Obsolete => "Obsolete"@,
        StatusFilter::All => "All"@,
    }
}

/// A filter other than `All` keeps exactly the values whose name is the
/// filter's; `All` keeps every value.
pub proof fn law_status_filter_keeps_its_value(f: StatusFilter, v: Status)
    ensures
        f != StatusFilter::All ==> (status_matches(f, v) <==> status_debug_name(v) == status_filter_name(f)),
        f == StatusFilter::All ==> status_matches(f, v),
{
    reveal_strlit("Draft");
    reveal_strlit("Review");
    reveal_strlit("Approved");
    reveal_strlit("Released");
    reveal_strlit("Obsolete");
    reveal_strlit("All");
    assert("Draft"@.len() == 5);
    assert("Review"@.len() == 6);
    assert("Approved"@.len() == 8 && "Approved"@[0] == 'A');
    assert("Released"@.len() == 8 && "Released"@[0] == 'R');
    assert("Obsolete"@.len() == 8 && "Obsolete"@[0] == 'O');
    assert("All"@.len() == 3);
}


/// The control passes every filter of `ctrl list`; `process` is the process
/// filter with its short form resolved.
pub open spec fn control_listed(args: &ListArgs, process: Option<Seq<char>>, c: &ControlSummary) -> bool {
    &&& control_type_matches(args.kind, c.control_type)
    &&& status_matches(args.status, c.status)
    &&& (process matches Some(p) ==> (c.process matches Some(x) && text_contains(x@, p)))
    &&& (args.critical ==> c.critical)
    &&& (args.search matches Some(s) ==> (contains_ignoring_case(c.title@, s@)
        || (c.description matches Some(d) && contains_ignoring_case(d@, s@))
        || contains_ignoring_case(c.characteristic_name@, s@)))
}

/// Whether `ctrl list` shows the control.
pub fn control_matches(args: &ListArgs, process: Option<&str>, c: &ControlSummary) -> (r: bool)
    ensures
        r == control_listed(args, match process {
            Some(p) => Some(p@),
            None => None,
        }, c),
{
    let type_ok = match args.kind {
        ControlTypeFilter::Spc => c.control_type == ControlType::Spc,
        ControlTypeFilter::Inspection => c.control_type == ControlType::Inspection,
        ControlTypeFilter::PokaYoke => c.control_type == ControlType::PokaYoke,
        ControlTypeFilter::Visual => c.control_type == ControlType::Visual,
        ControlTypeFilter::FunctionalTest => c.control_type == ControlType::FunctionalTest,
        ControlTypeFilter::Attribute => c.control_type == ControlType::Attribute,
        ControlTypeFilter::All => true,
    };
    let status_ok = match args.status {
        StatusFilter::Draft => c.status == Status::Draft,
        StatusFilter::Review => c.status == Status::Review,
        StatusFilter::Approved => c.status == Status::Approved,
        StatusFilter::Released => c.status == Status::Released,
        StatusFilter::Obsolete => c.status == Status::Obsolete,
        StatusFilter::All => true,
    };
    if !type_ok || !status_ok {
        return false;
    }
    if let Some(p) = process {
        let linked = match &c.process {
            Some(x) => str_contains(x.as_str(), p),
            None => false,
        };
        if !linked {
            return false;
        }
    }
    if args.critical && !c.critical {
        return false;
    }
    if let Some(s) = &args.search {
        let in_description = match &c.description {
            Some(d) => contains_ignore_case(d.as_str(), s.as_str()),
            None => false,
        };
        if !(contains_ignore_case(c.title.as_str(), s.as_str()) || in_description
            || contains_ignore_case(c.characteristic_name.as_str(), s.as_str())) {
            return false;
        }
    }
    true
}

/// The name a control kind has in its debug form.
pub open spec fn control_type_debug_name(t: ControlType) -> Seq<char> {
    match t {
        ControlType::Spc => "Spc"@,
        ControlType::Inspection => "Inspection"@,
        ControlType::PokaYoke => "PokaYoke"@,
        ControlType::Visual => "Visual"@,
        ControlType::FunctionalTest => "FunctionalTest"@,
        ControlType::Attribute => "Attribute"@,
    }
}

/// The key a control is sorted by for a field.
pub open spec fn control_key(field: SortField, c: &ControlSummary) -> SortKeyView {
    match field {
        SortField::Title => SortKeyView::Text(c.title@),
        SortField::Type => SortKeyView::Text(control_type_debug_name(c.control_type)),
        SortField::Status => SortKeyView::Text(status_debug_name(c.status)),
        SortField::Created => SortKeyView::Num(instant(c.created)),
    }
}

/// The sort key of a control for the chosen field.
pub fn control_sort_key(field: SortField, c: &ControlSummary) -> (r: SortKey)
    ensures
        r@ == control_key(field, c),
{
    match field {
        SortField::Title => SortKey::text(c.title.as_str()),
        SortField::Type => SortKey::text(match c.control_type {
            ControlType::Spc => "Spc",
            ControlType::Inspection => "Inspection",
            ControlType::PokaYoke => "PokaYoke",
            ControlType::Visual => "Visual",
            ControlType::FunctionalTest => "FunctionalTest",
            ControlType::Attribute => "Attribute",
        }),
        SortField::Status => SortKey::text(status_debug_text(c.status)),
        SortField::Created => time_key(c.created),
    }
}

/// A control as the list shows it: each text as written, with the short
/// form the caller found.
pub struct ControlListRow {
    pub id: String,
    /// The control's short form, if it has one.
    pub short_id: Option<String>,
    pub title: String,
    /// The control type, as written.
    pub control_type: String,
    /// The name of the characteristic the control watches.
    pub characteristic: String,
    /// Whether the characteristic is critical to quality.
    pub critical: bool,
    /// The status, as written.
    pub status: String,
}

/// The CSV line of a control.
pub open spec fn control_csv_line(m: &ControlListRow) -> Seq<char> {
    text_or(m.short_id, Seq::empty()) + ","@ + m.id@ + ","@ + csv_field(m.title@) + ","@ + m.control_type@ + ","@
        + csv_field(m.characteristic@) + ","@ + (if m.critical { "Y"@ } else { "N"@ }) + ","@ + m.status@
}

/// The line of a control in the table listing.
pub open spec fn control_table_line(m: &ControlListRow) -> Seq<char> {
    padded(text_or(m.short_id, Seq::empty()), 8) + " "@ + padded(short_id_form(m.id@), 17) + " "@ + padded(truncated_form(m.title@, 26), 28)
        + " "@ + padded(m.control_type@, 14) + " "@ + padded(truncated_form(m.characteristic@, 14), 16) + " "@
        + padded(if m.critical { "*"@ } else { Seq::empty() }, 4) + " "@ + padded(m.status@, 10)
}

/// The header line of the table listing.
pub open spec fn control_table_header() -> Seq<char> {
    padded("SHORT"@, 8) + " "@ + padded("ID"@, 17) + " "@ + padded("TITLE"@, 28) + " "@ + padded("TYPE"@, 14) + " "@
        + padded("CHARACTERISTIC"@, 16) + " "@ + padded("CTQ"@, 4) + " "@ + padded("STATUS"@, 10)
}

/// The Markdown line of a control.
pub open spec fn control_md_line(m: &ControlListRow) -> Seq<char> {
    "| "@ + text_or(m.short_id, Seq::empty()) + " | "@ + short_id_form(m.id@) + " | "@ + m.title@ + " | "@ + m.control_type@ + " | "@
        + m.characteristic@ + " | "@ + (if m.critical { "Yes"@ } else { Seq::empty() }) + " | "@ + m.status@ + " |"@
}

/// What `ctrl list` prints for the controls in a format other than JSON and
/// YAML, one text per line: the count when only that is asked for, a notice
/// when there are none, else the lines of the format.
pub open spec fn control_list_output(ms: Seq<ControlListRow>, count: bool, format: OutputFormat) -> Seq<Seq<char>> {
    if count {
        seq![decimal(ms.len())]
    } else if ms.len() == 0 {
        seq!["No controls found."@]
    } else {
        match format {
            OutputFormat::Csv => seq!["short_id,id,title,type,characteristic,critical,status"@] + ms.map_values(|m: ControlListRow| control_csv_line(&m)),
            OutputFormat::Md => seq!["| Short | ID | Title | Type | Characteristic | CTQ | Status |"@, "|---|---|---|---|---|---|---|"@]
                + ms.map_values(|m: ControlListRow| control_md_line(&m)),
            OutputFormat::Id => ms.map_values(|m: ControlListRow| m.id@),
            _ => seq![control_table_header(), dash_rule(100)] + ms.map_values(|m: ControlListRow| control_table_line(&m))
                + seq![Seq::empty(), decimal(ms.len()) + " control(s) found. Use CTRL@N to reference by short ID."@],
        }
    }
}

/// The texts of a control that the listings cut can be cut cleanly.
pub open spec fn control_row_fits(m: &ControlListRow) -> bool {
    &&& cuts_cleanly(m.id@, 16)
    &&& cuts_cleanly(m.title@, 26)
    &&& cuts_cleanly(m.characteristic@, 14)
}

impl ControlListRow {
    /// Whether the texts that the listings cut can be cut cleanly.
    pub fn fits(&self) -> (r: bool)
        ensures
            r == control_row_fits(self),
    {
        cuts_at(self.id.as_str(), 16) && cuts_at(self.title.as_str(), 26) && cuts_at(self.characteristic.as_str(), 14)
    }
}

/// The CSV line of a control.
fn control_csv(m: &ControlListRow) -> (r: String)
    ensures
        r@ == control_csv_line(m),
{
    proof {
        reveal_strlit("");
        assert(""@ =~= Seq::<char>::empty());
    }
    let mut r = shown_or(&m.short_id, "");
    append_text(&mut r, ",");
    append_text(&mut r, m.id.as_str());
    append_text(&mut r, ",");
    append_text(&mut r, escape_csv(m.title.as_str()).as_str());
    append_text(&mut r, ",");
    append_text(&mut r, m.control_type.as_str());
    append_text(&mut r, ",");
    append_text(&mut r, escape_csv(m.characteristic.as_str()).as_str());
    append_text(&mut r, ",");
    append_text(&mut r, if m.critical { "Y" } else { "N" });
    append_text(&mut r, ",");
    append_text(&mut r, m.status.as_str());
    r
}

/// Appends a space and the text padded to `width`.
fn append_cell(r: &mut String, text: &str, width: usize)
    ensures
        final(r)@ == old(r)@ + " "@ + padded(text@, width as int),
{
    append_text(r, " ");
    append_text(r, pad_right(text, width).as_str());
}

/// The line of a control in the table listing.
fn control_line(m: &ControlListRow) -> (r: String)
    requires
        control_row_fits(m),
    ensures
        r@ == control_table_line(m),
{
    proof {
        reveal_strlit("");
        assert(""@ =~= Seq::<char>::empty());
    }
    let mut r = pad_right(shown_or(&m.short_id, "").as_str(), 8);
    append_cell(&mut r, format_short_id(m.id.as_str()).as_str(), 17);
    append_cell(&mut r, truncate_str(m.title.as_str(), 26).as_str(), 28);
    append_cell(&mut r, m.control_type.as_str(), 14);
    append_cell(&mut r, truncate_str(m.characteristic.as_str(), 14).as_str(), 16);
    append_cell(&mut r, if m.critical { "*" } else { "" }, 4);
    append_cell(&mut r, m.status.as_str(), 10);
    r
}

/// The Markdown line of a control.
fn control_md(m: &ControlListRow) -> (r: String)
    requires
        cuts_cleanly(m.id@, 16),
    ensures
        r@ == control_md_line(m),
{
    proof {
        reveal_strlit("");
        assert(""@ =~= Seq::<char>::empty());
    }
    let mut r = concat_texts("| ", shown_or(&m.short_id, "").as_str());
    append_text(&mut r, " | ");
    append_text(&mut r, format_short_id(m.id.as_str()).as_str());
    append_text(&mut r, " | ");
    append_text(&mut r, m.title.as_str());
    append_text(&mut r, " | ");
    append_text(&mut r, m.control_type.as_str());
    append_text(&mut r, " | ");
    append_text(&mut r, m.characteristic.as_str());
    append_text(&mut r, " | ");
    append_text(&mut r, if m.critical { "Yes" } else { "" });
    append_text(&mut r, " | ");
    append_text(&mut r, m.status.as_str());
    append_text(&mut r, " |");
    r
}

/// Writes what `ctrl list` prints for the controls in a format other than
/// JSON and YAML, one text per line.
pub fn control_list_lines(controls: &Vec<ControlListRow>, count: bool, format: OutputFormat) -> (r: Vec<String>)
    requires
        controls.len() > 0 && !count ==> !is_full_record_format(format) && format != OutputFormat::Auto && format != OutputFormat::ShortId,
        format == OutputFormat::Tsv ==> forall|i: int| 0 <= i < controls.len() ==> control_row_fits(#[trigger] &controls@[i]),
        format == OutputFormat::Md ==> forall|i: int| 0 <= i < controls.len() ==> cuts_cleanly((#[trigger] controls@[i]).id@, 16),
    ensures
        r@.map_values(|s: String| s@) == control_list_output(controls@, count, format),
{
    let mut out: Vec<String> = Vec::new();
    if count {
        out.push(decimal_text(controls.len()));
        assert(out@.map_values(|s: String| s@) =~= control_list_output(controls@, count, format));
        return out;
    }
    if controls.len() == 0 {
        out.push("No controls found.".to_owned());
        assert(out@.map_values(|s: String| s@) =~= control_list_output(controls@, count, format));
        return out;
    }
    let ghost head: Seq<Seq<char>> = match format {
        OutputFormat::Csv => seq!["short_id,id,title,type,characteristic,critical,status"@],
        OutputFormat::Md => seq!["| Short | ID | Title | Type | Characteristic | CTQ | Status |"@, "|---|---|---|---|---|---|---|"@],
        OutputFormat::Id => seq![],
        _ => seq![control_table_header(), dash_rule(100)],
    };
    let ghost line = |m: ControlListRow| match format {
        OutputFormat::Csv => control_csv_line(&m),
        OutputFormat::Md => control_md_line(&m),
        OutputFormat::Id => m.id@,
        _ => control_table_line(&m),
    };
    match format {
        OutputFormat::Csv => {
            out.push("short_id,id,title,type,characteristic,critical,status".to_owned());
        },
        OutputFormat::Md => {
            out.push("| Short | ID | Title | Type | Characteristic | CTQ | Status |".to_owned());
            out.push("|---|---|---|---|---|---|---|".to_owned());
        },
        OutputFormat::Id => {},
        _ => {
            let mut header = pad_right("SHORT", 8);
            append_cell(&mut header, "ID", 17);
            append_cell(&mut header, "TITLE", 28);
            append_cell(&mut header, "TYPE", 14);
            append_cell(&mut header, "CHARACTERISTIC", 16);
            append_cell(&mut header, "CTQ", 4);
            append_cell(&mut header, "STATUS", 10);
            out.push(header);
            out.push(dashes(100));
        },
    }
    assert(out@.map_values(|s: String| s@) =~= head);
    let mut i: usize = 0;
    while i < controls.len()
        invariant
            i <= controls.len(),
            controls.len() > 0 && !count,
            !is_full_record_format(format) && format != OutputFormat::Auto && format != OutputFormat::ShortId,
            format == OutputFormat::Tsv ==> forall|k: int| 0 <= k < controls.len() ==> control_row_fits(#[trigger] &controls@[k]),
            format == OutputFormat::Md ==> forall|k: int| 0 <= k < controls.len() ==> cuts_cleanly((#[trigger] controls@[k]).id@, 16),
            line == (|m: ControlListRow| match format {
                OutputFormat::Csv => control_csv_line(&m),
                OutputFormat::Md => control_md_line(&m),
                OutputFormat::Id => m.id@,
                _ => control_table_line(&m),
            }),
            out@.map_values(|s: String| s@) == head + controls@.take(i as int).map_values(line),
        decreases controls.len() - i,
    {
        let m = &controls[i];
        let text = match format {
            OutputFormat::Csv => control_csv(m),
            OutputFormat::Md => control_md(m),
            OutputFormat::Id => m.id.clone(),
            _ => control_line(m),
        };
        assert(text@ == line(controls@[i as int]));
        let ghost before = out@.map_values(|s: String| s@);
        out.push(text);
        assert(out@.map_values(|s: String| s@) =~= before.push(text@));
        assert(controls@.take(i as int + 1) =~= controls@.take(i as int).push(controls@[i as int]));
        assert(controls@.take(i as int + 1).map_values(line) =~= controls@.take(i as int).map_values(line).push(line(controls@[i as int])));
        i = i + 1;
    }
    assert(controls@.take(controls.len() as int) =~= controls@);
    match format {
        OutputFormat::Csv => {},
        OutputFormat::Md => {},
        OutputFormat::Id => {},
        _ => {
            let ghost before = out@.map_values(|s: String| s@);
            out.push(String::new());
            let mut footer = decimal_text(controls.len());
            append_text(&mut footer, " control(s) found. Use CTRL@N to reference by short ID.");
            out.push(footer);
            assert(out@.map_values(|s: String| s@) =~= before + seq![Seq::<char>::empty(), decimal(controls.len() as nat) + " control(s) found. Use CTRL@N to reference by short ID."@]);
        },
    }
    assert(out@.map_values(|s: String| s@) =~= control_list_output(controls@, count, format));
    out
}
} // verus!
