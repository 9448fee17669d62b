//! CSV import: which entity kinds can be imported, the template each kind
//! offers, how a row's fields are read, how a row becomes the text of a new
//! entity file, and how the outcome of each row is counted.

use vstd::prelude::*;
use crate::common::{last_position, last_with, ids_view, opt_view, parse_usize, parsed_usize};
use crate::identity::{prefix_text, EntityPrefix};
use crate::text::{append_text, decimal, decimal_text, first_word, first_word_of, is_empty_text, to_uppercase, uppercase, comma_pieces, concat_texts, join_texts, joined, lowercase, replace_all, replace_first, replaced, replaced_first, split_commas, str_eq, to_lowercase, trim_text, trimmed};

verus! {

pub struct ImportArgs {
    /// Entity type to import (req, risk, cmp, sup)
    pub entity_type: Option<EntityPrefix>,

    /// CSV file to import
    pub file: Option<String>,

    /// Generate a CSV template for the entity type
    pub template: bool,

    /// Validate CSV without creating files
    pub dry_run: bool,

    /// Continue importing after errors (default: stop on first error)
    pub skip_errors: bool,

    /// Update existing entities if ID column matches
    pub update: bool,
}

/// The entity kind an import names (already lower-cased).
pub open spec fn entity_type_named(name: Seq<char>) -> Option<EntityPrefix> {
    if name == "req"@ {
        Some(EntityPrefix::Req)
    } else if name == "risk"@ {
        Some(EntityPrefix::Risk)
    } else if name == "cmp"@ {
        Some(EntityPrefix::Cmp)
    } else if name == "sup"@ {
        Some(EntityPrefix::Sup)
    } else if name == "test"@ {
        Some(EntityPrefix::Test)
    } else if name == "proc"@ {
        Some(EntityPrefix::Proc)
    } else if name == "ctrl"@ {
        Some(EntityPrefix::Ctrl)
    } else if name == "ncr"@ {
        Some(EntityPrefix::Ncr)
    } else if name == "capa"@ {
        Some(EntityPrefix::Capa)
    } else if name == "quote"@ || name == "quot"@ {
        Some(EntityPrefix::Quot)
    } else {
        None
    }
}

/// `lower` is the lower-case spelling of the capitals `upper`, letter for
/// letter.
pub open spec fn spelled_in_lower_case(upper: Seq<char>, lower: Seq<char>) -> bool {
    &&& lower.len() == upper.len()
    &&& forall|i: int| 0 <= i < upper.len() ==> 'A' <= #[trigger] upper[i] <= 'Z' && lower[i] as u32 == upper[i] as u32 + 32
}

/// An import name selects the entity kind whose identifier prefix it spells
/// in lower case (`quote` also names quotes).
pub proof fn law_import_name_spells_kind(name: Seq<char>)
    ensures
        entity_type_named(name) matches Some(p) ==> spelled_in_lower_case(prefix_text(p), name)
            || (p == EntityPrefix::Quot && name == "quote"@),
{
    reveal_strlit("req");
    reveal_strlit("risk");
    reveal_strlit("cmp");
    reveal_strlit("sup");
    reveal_strlit("test");
    reveal_strlit("proc");
    reveal_strlit("ctrl");
    reveal_strlit("ncr");
    reveal_strlit("capa");
    reveal_strlit("quot");
    reveal_strlit("REQ");
    reveal_strlit("RISK");
    reveal_strlit("CMP");
    reveal_strlit("SUP");
    reveal_strlit("TEST");
    reveal_strlit("PROC");
    reveal_strlit("CTRL");
    reveal_strlit("NCR");
    reveal_strlit("CAPA");
    reveal_strlit("QUOT");
}

/// The message for a kind that cannot be imported.
pub open spec fn unsupported_message(s: Seq<char>) -> Seq<char> {
    "Unsupported entity type: '"@ + s + "'. Supported: req, risk, cmp, sup, test, proc, ctrl, ncr, capa, quote"@
}

/// Reads the entity kind of an import, in any letter case.
pub fn parse_entity_type(s: &str) -> (r: Result<EntityPrefix, String>)
    ensures
        entity_type_named(lowercase(s@)) matches Some(p) ==> r == Ok::<EntityPrefix, String>(p),
        entity_type_named(lowercase(s@)) is None ==> (r matches Err(m) && m@ == unsupported_message(s@)),
        r matches Ok(p) ==> spelled_in_lower_case(prefix_text(p), lowercase(s@)) || (p == EntityPrefix::Quot && lowercase(s@) == "quote"@),
{
    proof {
        law_import_name_spells_kind(lowercase(s@));
    }
    let l = to_lowercase(s);
    let n = l.as_str();
    if str_eq(n, "req") {
        Ok(EntityPrefix::Req)
    } else if str_eq(n, "risk") {
        Ok(EntityPrefix::Risk)
    } else if str_eq(n, "cmp") {
        Ok(EntityPrefix::Cmp)
    } else if str_eq(n, "sup") {
        Ok(EntityPrefix::Sup)
    } else if str_eq(n, "test") {
        Ok(EntityPrefix::Test)
    } else if str_eq(n, "proc") {
        Ok(EntityPrefix::Proc)
    } else if str_eq(n, "ctrl") {
        Ok(EntityPrefix::Ctrl)
    } else if str_eq(n, "ncr") {
        Ok(EntityPrefix::Ncr)
    } else if str_eq(n, "capa") {
        Ok(EntityPrefix::Capa)
    } else if str_eq(n, "quote") || str_eq(n, "quot") {
        Ok(EntityPrefix::Quot)
    } else {
        let a = concat_texts("Unsupported entity type: '", s);
        Err(concat_texts(a.as_str(), "'. Supported: req, risk, cmp, sup, test, proc, ctrl, ncr, capa, quote"))
    }
}

/// The columns of the CSV template of an entity kind.
pub open spec fn csv_headers(p: EntityPrefix) -> Seq<Seq<char>> {
    match p {
        EntityPrefix::Req => seq!["title"@, "type"@, "priority"@, "status"@, "text"@, "rationale"@, "tags"@],
        EntityPrefix::Risk => seq![
            "title"@, "type"@, "description"@, "failure_mode"@, "cause"@, "effect"@,
            "severity"@, "occurrence"@, "detection"@, "tags"@,
        ],
        EntityPrefix::Cmp => seq![
            "part_number"@, "title"@, "make_buy"@, "category"@, "description"@,
            "material"@, "finish"@, "mass"@, "cost"@, "tags"@,
        ],
        EntityPrefix::Sup => seq![
            "short_name"@, "title"@, "website"@, "contact_email"@, "contact_phone"@,
            "address"@, "lead_time_days"@, "tags"@,
        ],
        EntityPrefix::Test => seq![
            "title"@, "type"@, "level"@, "method"@, "category"@, "priority"@,
            "objective"@, "description"@, "estimated_duration"@, "tags"@,
        ],
        EntityPrefix::Proc => seq![
            "title"@, "type"@, "operation_number"@, "description"@,
            "cycle_time_minutes"@, "setup_time_minutes"@, "operator_skill"@, "tags"@,
        ],
        EntityPrefix::Ctrl => seq![
            "title"@, "type"@, "category"@, "description"@, "characteristic_name"@,
            "nominal"@, "upper_limit"@, "lower_limit"@, "units"@, "critical"@, "tags"@,
        ],
        EntityPrefix::Ncr => seq![
            "title"@, "type"@, "severity"@, "category"@, "description"@,
            "part_number"@, "quantity_affected"@, "characteristic"@, "specification"@, "actual"@, "tags"@,
        ],
        EntityPrefix::Capa => seq![
            "title"@, "type"@, "source_type"@, "source_ref"@, "problem_statement"@,
            "root_cause"@, "tags"@,
        ],
        EntityPrefix::Quot => seq![
            "title"@, "supplier"@, "component"@, "currency"@, "unit_price"@,
            "lead_time_days"@, "moq"@, "description"@, "tags"@,
        ],
        _ => seq!["title"@, "description"@, "tags"@],
    }
}

/// The texts, each taken by its view.
pub open spec fn texts_view(v: Seq<&str>) -> Seq<Seq<char>> {
    v.map_values(|s: &str| s@)
}

/// The column names of the CSV template of an entity kind.
pub fn get_csv_headers(entity_type: EntityPrefix) -> (r: Vec<&'static str>)
    ensures
        texts_view(r@) == csv_headers(entity_type),
{
    let r = match entity_type {
        EntityPrefix::Req => vec!["title", "type", "priority", "status", "text", "rationale", "tags"],
        EntityPrefix::Risk => vec![
            "title", "type", "description", "failure_mode", "cause", "effect",
            "severity", "occurrence", "detection", "tags",
        ],
        EntityPrefix::Cmp => vec![
            "part_number", "title", "make_buy", "category", "description",
            "material", "finish", "mass", "cost", "tags",
        ],
        EntityPrefix::Sup => vec![
            "short_name", "title", "website", "contact_email", "contact_phone",
            "address", "lead_time_days", "tags",
        ],
        EntityPrefix::Test => vec![
            "title", "type", "level", "method", "category", "priority",
            "objective", "description", "estimated_duration", "tags",
        ],
        EntityPrefix::Proc => vec![
            "title", "type", "operation_number", "description",
            "cycle_time_minutes", "setup_time_minutes", "operator_skill", "tags",
        ],
        EntityPrefix::Ctrl => vec![
            "title", "type", "category", "description", "characteristic_name",
            "nominal", "upper_limit", "lower_limit", "units", "critical", "tags",
        ],
        EntityPrefix::Ncr => vec![
            "title", "type", "severity", "category", "description",
            "part_number", "quantity_affected", "characteristic", "specification", "actual", "tags",
        ],
        EntityPrefix::Capa => vec![
            "title", "type", "source_type", "source_ref", "problem_statement",
            "root_cause", "tags",
        ],
        EntityPrefix::Quot => vec![
            "title", "supplier", "component", "currency", "unit_price",
            "lead_time_days", "moq", "description", "tags",
        ],
        _ => vec!["title", "description", "tags"],
    };
    assert(texts_view(r@) =~= csv_headers(entity_type));
    r
}


/// The example row of the CSV template of an entity kind (none for kinds
/// that cannot be imported).
pub open spec fn csv_example(p: EntityPrefix) -> Seq<Seq<char>> {
    match p {
        EntityPrefix::Req => seq![
            "\"Stroke Length\""@,
            "input"@,
            "critical"@,
            "draft"@,
            "\"The actuator shall have a minimum stroke length of 100mm\""@,
            "\"Required for full range of motion\""@,
            "\"mechanical,critical\""@,
        ],
        EntityPrefix::Risk => seq![
            "\"Seal Failure\""@,
            "design"@,
            "\"O-ring may fail under pressure\""@,
            "\"Seal extrusion\""@,
            "\"Excessive pressure differential\""@,
            "\"Fluid leakage and system failure\""@,
            "8"@,
            "4"@,
            "6"@,
            "\"seal,pressure\""@,
        ],
        EntityPrefix::Cmp => seq![
            "\"PN-001\""@,
            "\"Housing Assembly\""@,
            "make"@,
            "mechanical"@,
            "\"Main structural housing\""@,
            "\"6061-T6 Aluminum\""@,
            "\"Anodize\""@,
            "0.5"@,
            "125.00"@,
            "\"structural,machined\""@,
        ],
        EntityPrefix::Sup => seq![
            "\"ACME\""@,
            "\"ACME Manufacturing Co.\""@,
            "\"https://acme.example.com\""@,
            "\"sales@acme.example.com\""@,
            "\"+1-555-123-4567\""@,
            "\"123 Industrial Way, City, ST 12345\""@,
            "14"@,
            "\"machining,precision\""@,
        ],
        EntityPrefix::Test => seq![
            "\"Housing Dimensional Inspection\""@,
            "verification"@,
            "unit"@,
            "inspection"@,
            "\"mechanical\""@,
            "high"@,
            "\"Verify housing dimensions meet specification\""@,
            "\"Measure critical dimensions of machined housing\""@,
            "\"30 min\""@,
            "\"verification,dimensional\""@,
        ],
        EntityPrefix::Proc => seq![
            "\"CNC Rough Machining\""@,
            "machining"@,
            "\"OP-010\""@,
            "\"Initial rough machining of housing blank\""@,
            "45"@,
            "30"@,
            "intermediate"@,
            "\"machining,cnc\""@,
        ],
        EntityPrefix::Ctrl => seq![
            "\"Bore Diameter Check\""@,
            "inspection"@,
            "variable"@,
            "\"In-process check of bore diameter\""@,
            "\"Bore Diameter\""@,
            "25.0"@,
            "25.02"@,
            "24.98"@,
            "mm"@,
            "true"@,
            "\"dimensional,critical\""@,
        ],
        EntityPrefix::Ncr => seq![
            "\"Out-of-spec bore diameter\""@,
            "internal"@,
            "minor"@,
            "dimensional"@,
            "\"Bore diameter measured outside tolerance\""@,
            "\"PN-001\""@,
            "5"@,
            "\"Bore Diameter\""@,
            "\"25.0 +/- 0.02mm\""@,
            "\"25.05mm\""@,
            "\"dimensional,machining\""@,
        ],
        EntityPrefix::Capa => seq![
            "\"Improve bore machining process\""@,
            "corrective"@,
            "ncr"@,
            "\"NCR@1\""@,
            "\"Recurring out-of-spec bore diameters\""@,
            "\"Tool wear not being monitored\""@,
            "\"machining,process\""@,
        ],
        EntityPrefix::Quot => seq![
            "\"Housing Quote - Acme\""@,
            "\"SUP@1\""@,
            "\"CMP@1\""@,
            "USD"@,
            "125.00"@,
            "14"@,
            "100"@,
            "\"Quote for housing assembly\""@,
            "\"machining\""@,
        ],
        _ => Seq::empty(),
    }
}

/// The example row of the CSV template of an entity kind.
pub fn get_csv_example(entity_type: EntityPrefix) -> (r: Vec<&'static str>)
    ensures
        texts_view(r@) == csv_example(entity_type),
{
    let r = match entity_type {
        EntityPrefix::Req => vec![
            "\"Stroke Length\"",
            "input",
            "critical",
            "draft",
            "\"The actuator shall have a minimum stroke length of 100mm\"",
            "\"Required for full range of motion\"",
            "\"mechanical,critical\"",
        ],
        EntityPrefix::Risk => vec![
            "\"Seal Failure\"",
            "design",
            "\"O-ring may fail under pressure\"",
            "\"Seal extrusion\"",
            "\"Excessive pressure differential\"",
            "\"Fluid leakage and system failure\"",
            "8",
            "4",
            "6",
            "\"seal,pressure\"",
        ],
        EntityPrefix::Cmp => vec![
            "\"PN-001\"",
            "\"Housing Assembly\"",
            "make",
            "mechanical",
            "\"Main structural housing\"",
            "\"6061-T6 Aluminum\"",
            "\"Anodize\"",
            "0.5",
            "125.00",
            "\"structural,machined\"",
        ],
        EntityPrefix::Sup => vec![
            "\"ACME\"",
            "\"ACME Manufacturing Co.\"",
            "\"https://acme.example.com\"",
            "\"sales@acme.example.com\"",
            "\"+1-555-123-4567\"",
            "\"123 Industrial Way, City, ST 12345\"",
            "14",
            "\"machining,precision\"",
        ],
        EntityPrefix::Test => vec![
            "\"Housing Dimensional Inspection\"",
            "verification",
            "unit",
            "inspection",
            "\"mechanical\"",
            "high",
            "\"Verify housing dimensions meet specification\"",
            "\"Measure critical dimensions of machined housing\"",
            "\"30 min\"",
            "\"verification,dimensional\"",
        ],
        EntityPrefix::Proc => vec![
            "\"CNC Rough Machining\"",
            "machining",
            "\"OP-010\"",
            "\"Initial rough machining of housing blank\"",
            "45",
            "30",
            "intermediate",
            "\"machining,cnc\"",
        ],
        EntityPrefix::Ctrl => vec![
            "\"Bore Diameter Check\"",
            "inspection",
            "variable",
            "\"In-process check of bore diameter\"",
            "\"Bore Diameter\"",
            "25.0",
            "25.02",
            "24.98",
            "mm",
            "true",
            "\"dimensional,critical\"",
        ],
        EntityPrefix::Ncr => vec![
            "\"Out-of-spec bore diameter\"",
            "internal",
            "minor",
            "dimensional",
            "\"Bore diameter measured outside tolerance\"",
            "\"PN-001\"",
            "5",
            "\"Bore Diameter\"",
            "\"25.0 +/- 0.02mm\"",
            "\"25.05mm\"",
            "\"dimensional,machining\"",
        ],
        EntityPrefix::Capa => vec![
            "\"Improve bore machining process\"",
            "corrective",
            "ncr",
            "\"NCR@1\"",
            "\"Recurring out-of-spec bore diameters\"",
            "\"Tool wear not being monitored\"",
            "\"machining,process\"",
        ],
        EntityPrefix::Quot => vec![
            "\"Housing Quote - Acme\"",
            "\"SUP@1\"",
            "\"CMP@1\"",
            "USD",
            "125.00",
            "14",
            "100",
            "\"Quote for housing assembly\"",
            "\"machining\"",
        ],
        _ => Vec::new(),
    };
    assert(texts_view(r@) =~= csv_example(entity_type));
    r
}

/// The kinds an import accepts.
pub open spec fn is_importable(p: EntityPrefix) -> bool {
    exists|name: Seq<char>| entity_type_named(name) == Some(p)
}

/// For every kind an import accepts, the template's example row has one
/// value for each column.
pub proof fn law_template_example_fits_headers(p: EntityPrefix)
    requires
        is_importable(p),
    ensures
        csv_example(p).len() == csv_headers(p).len(),
        csv_example(p).len() > 0,
{
}


/// The lines a template prints: the column names, and the example row when
/// the kind has one, each with commas between the values.
pub fn template_lines(entity_type: EntityPrefix) -> (r: (String, Option<String>))
    ensures
        r.0@ == joined(csv_headers(entity_type), ","@),
        csv_example(entity_type).len() > 0 ==> (r.1 matches Some(x) && x@ == joined(csv_example(entity_type), ","@)),
        csv_example(entity_type).len() == 0 ==> r.1 is None,
{
    let headers = get_csv_headers(entity_type);
    let example = get_csv_example(entity_type);
    let head = join_texts(&headers, ",");
    if example.len() > 0 {
        (head, Some(join_texts(&example, ",")))
    } else {
        (head, None)
    }
}

/// The key a header column is looked up by: lower-cased, then trimmed.
pub open spec fn header_key(h: Seq<char>) -> Seq<char> {
    trimmed(lowercase(h))
}

/// The lookup keys of the header columns, in column order.
pub fn header_keys(headers: &Vec<String>) -> (r: Vec<String>)
    ensures
        ids_view(r@) == headers@.map_values(|h: String| header_key(h@)),
{
    let mut r: Vec<String> = Vec::new();
    let mut i: usize = 0;
    while i < headers.len()
        invariant
            i <= headers.len(),
            ids_view(r@) == headers@.take(i as int).map_values(|h: String| header_key(h@)),
        decreases headers.len() - i,
    {
        let l = to_lowercase(headers[i].as_str());
        let k = trim_text(l.as_str());
        let ghost before = ids_view(r@);
        r.push(k);
        assert(ids_view(r@) =~= before.push(header_key(headers@[i as int]@)));
        assert(headers@.take(i as int + 1) =~= headers@.take(i as int).push(headers@[i as int]));
        i = i + 1;
    }
    assert(headers@.take(headers.len() as int) =~= headers@);
    r
}

/// The value of a field of a record: the trimmed text in the column whose
/// key is the field's name (the last such column), absent when empty.
pub open spec fn field_value(record: Seq<Seq<char>>, keys: Seq<Seq<char>>, field: Seq<char>) -> Option<Seq<char>> {
    match last_with(keys, keys.len() as int, field) {
        Some(i) => if i < record.len() && trimmed(record[i]).len() > 0 {
            Some(trimmed(record[i]))
        } else {
            None
        },
        None => None,
    }
}

/// The value of a field, or a default.
pub open spec fn value_or(v: Option<Seq<char>>, d: Seq<char>) -> Seq<char> {
    match v {
        Some(x) => x,
        None => d,
    }
}

/// Reads a field of a record.
pub fn get_field(record: &Vec<String>, keys: &Vec<String>, field: &str) -> (r: Option<String>)
    ensures
        opt_view(r) == field_value(ids_view(record@), ids_view(keys@), field@),
{
    match last_position(keys, field) {
        Some(i) => if i < record.len() {
            let v = trim_text(record[i].as_str());
            if !is_empty_text(v.as_str()) {
                Some(v)
            } else {
                assert(v@.len() == 0);
                None
            }
        } else {
            None
        },
        None => None,
    }
}

/// Reads a field of a record, or the default when it is absent.
pub fn field_or(record: &Vec<String>, keys: &Vec<String>, field: &str, default: &str) -> (r: String)
    ensures
        r@ == value_or(field_value(ids_view(record@), ids_view(keys@), field@), default@),
{
    match get_field(record, keys, field) {
        Some(v) => v,
        None => default.to_owned(),
    }
}

/// A small count typed by a user, as `u8::from_str` reads it.
pub open spec fn parsed_u8(s: Seq<char>) -> Option<u8> {
    match parsed_usize(s) {
        Some(n) => if n <= 255 {
            Some(n as u8)
        } else {
            None
        },
        None => None,
    }
}

/// The small count in a field, if present and well-formed.
pub open spec fn field_u8(record: Seq<Seq<char>>, keys: Seq<Seq<char>>, field: Seq<char>) -> Option<u8> {
    match field_value(record, keys, field) {
        Some(v) => parsed_u8(v),
        None => None,
    }
}

/// Reads a small count from a field.
pub fn get_u8_field(record: &Vec<String>, keys: &Vec<String>, field: &str) -> (r: Option<u8>)
    ensures
        r == field_u8(ids_view(record@), ids_view(keys@), field@),
{
    match get_field(record, keys, field) {
        Some(v) => match parse_usize(v.as_str()) {
            Some(n) => if n <= 255 {
                Some(n as u8)
            } else {
                None
            },
            None => None,
        },
        None => None,
    }
}

/// Why a row cannot be imported.
#[derive(Debug, Clone, Copy, PartialEq, Eq, Structural)]
pub enum RowError {
    /// The row has no title.
    MissingTitle,
    /// The row has neither a title nor a part number.
    MissingTitleOrPartNumber,
    /// The row has neither a title nor a short name.
    MissingTitleOrShortName,
}

/// A multi-line text indented to sit under a YAML block key.
pub open spec fn indented(s: Seq<char>) -> Seq<char> {
    replaced(s, "\n"@, "\n  "@)
}

/// A text with its double quotes escaped for a quoted YAML value.
pub open spec fn escaped(s: Seq<char>) -> Seq<char> {
    replaced(s, "\""@, "\\\""@)
}

/// Indents a multi-line text.
pub fn indent_text(s: &str) -> (r: String)
    ensures
        r@ == indented(s@),
{
    proof {
        reveal_strlit("\n");
    }
    replace_all(s, "\n", "\n  ")
}

/// Escapes the double quotes of a text.
pub fn escape_quotes(s: &str) -> (r: String)
    ensures
        r@ == escaped(s@),
{
    proof {
        reveal_strlit("\"");
    }
    replace_all(s, "\"", "\\\"")
}

/// The tags of a row as a YAML list: each comma-separated piece trimmed and
/// quoted, with ", " between them.
pub open spec fn tags_list(tags: Seq<char>) -> Seq<char> {
    "tags: ["@ + joined(comma_pieces(tags).map_values(|p: Seq<char>| "\""@ + trimmed(p) + "\""@), ", "@) + "]"@
}

/// The file text with the tags filled in, when the row has tags.
pub open spec fn with_tags(y: Seq<char>, tags: Option<Seq<char>>) -> Seq<char> {
    match tags {
        Some(t) => if t.len() > 0 {
            replaced(y, "tags: []"@, tags_list(t))
        } else {
            y
        },
        None => y,
    }
}

/// Writes the tags of a row as a YAML list.
pub fn tags_text(tags: &str) -> (r: String)
    ensures
        r@ == tags_list(tags@),
{
    let pieces = split_commas(tags);
    let ghost q = comma_pieces(tags@).map_values(|p: Seq<char>| "\""@ + trimmed(p) + "\""@);
    let mut body = String::new();
    let mut i: usize = 0;
    assert(q.take(0) =~= Seq::<Seq<char>>::empty());
    while i < pieces.len()
        invariant
            pieces@.map_values(|x: String| x@) == comma_pieces(tags@),
            q == comma_pieces(tags@).map_values(|p: Seq<char>| "\""@ + trimmed(p) + "\""@),
            i <= pieces.len(),
            body@ == joined(q.take(i as int), ", "@),
        decreases pieces.len() - i,
    {
        assert(q.take(i as int + 1).drop_last() =~= q.take(i as int));
        assert(pieces@[i as int]@ == comma_pieces(tags@)[i as int]);
        if i > 0 {
            append_text(&mut body, ", ");
        } else {
            assert(body@ =~= Seq::<char>::empty());
        }
        let t = trim_text(pieces[i].as_str());
        append_text(&mut body, "\"");
        append_text(&mut body, t.as_str());
        append_text(&mut body, "\"");
        assert(body@ =~= joined(q.take(i as int + 1), ", "@));
        i = i + 1;
    }
    assert(q.take(pieces.len() as int) =~= q);
    let mut r = String::new();
    append_text(&mut r, "tags: [");
    append_text(&mut r, body.as_str());
    append_text(&mut r, "]");
    r
}

/// Fills in the tags of a row.
pub fn fill_tags(y: String, tags: &Option<String>) -> (r: String)
    ensures
        r@ == with_tags(y@, opt_view(*tags)),
{
    match tags {
        Some(t) => if !is_empty_text(t.as_str()) {
            let line = tags_text(t.as_str());
            proof {
                reveal_strlit("tags: []");
            }
            replace_all(y.as_str(), "tags: []", line.as_str())
        } else {
            assert(t@.len() == 0);
            y
        },
        None => y,
    }
}

/// The file text with a quoted value put in place of a placeholder, when the
/// value is present and not empty.
pub open spec fn with_quoted(y: Seq<char>, v: Option<Seq<char>>, holder: Seq<char>, key: Seq<char>) -> Seq<char> {
    match v {
        Some(x) => if x.len() > 0 {
            replaced(y, holder, key + escaped(x) + "\""@)
        } else {
            y
        },
        None => y,
    }
}

/// Puts a quoted value in place of a placeholder.
fn fill_quoted(y: String, v: &Option<String>, holder: &str, key: &str) -> (r: String)
    requires
        holder@.len() > 0,
    ensures
        r@ == with_quoted(y@, opt_view(*v), holder@, key@),
{
    match v {
        Some(x) => if !is_empty_text(x.as_str()) {
            let mut with = String::new();
            append_text(&mut with, key);
            let e = escape_quotes(x.as_str());
            append_text(&mut with, e.as_str());
            append_text(&mut with, "\"");
            replace_all(y.as_str(), holder, with.as_str())
        } else {
            assert(x@.len() == 0);
            y
        },
        None => y,
    }
}

/// The file text with a block value put in place of a placeholder, when the
/// value is not empty.
pub open spec fn with_block(y: Seq<char>, v: Seq<char>, holder: Seq<char>, key: Seq<char>) -> Seq<char> {
    if v.len() > 0 {
        replaced(y, holder, key + indented(v))
    } else {
        y
    }
}

/// Puts a block value in place of a placeholder.
fn fill_block(y: String, v: &str, holder: &str, key: &str) -> (r: String)
    requires
        holder@.len() > 0,
    ensures
        r@ == with_block(y@, v@, holder@, key@),
{
    if !is_empty_text(v) {
        let mut with = String::new();
        append_text(&mut with, key);
        let ind = indent_text(v);
        append_text(&mut with, ind.as_str());
        replace_all(y.as_str(), holder, with.as_str())
    } else {
        y
    }
}


/// The fields of a requirement row.
pub struct RequirementRow {
    pub title: String,
    pub req_type: String,
    pub priority: String,
    pub status: String,
    pub text: String,
    pub rationale: Option<String>,
    pub tags: Option<String>,
}

/// Reads a requirement row: the title is required; type, priority and status
/// default to input, medium and draft.
pub fn read_requirement_row(record: &Vec<String>, keys: &Vec<String>) -> (r: Result<RequirementRow, RowError>)
    ensures
        ({
            let rec = ids_view(record@);
            let ks = ids_view(keys@);
            &&& field_value(rec, ks, "title"@) is None ==> r == Err::<RequirementRow, RowError>(RowError::MissingTitle)
            &&& field_value(rec, ks, "title"@) is Some ==> (r matches Ok(row) && {
                &&& Some(row.title@) == field_value(rec, ks, "title"@)
                &&& row.req_type@ == value_or(field_value(rec, ks, "type"@), "input"@)
                &&& row.priority@ == value_or(field_value(rec, ks, "priority"@), "medium"@)
                &&& row.status@ == value_or(field_value(rec, ks, "status"@), "draft"@)
                &&& row.text@ == value_or(field_value(rec, ks, "text"@), Seq::empty())
                &&& opt_view(row.rationale) == field_value(rec, ks, "rationale"@)
                &&& opt_view(row.tags) == field_value(rec, ks, "tags"@)
            })
        }),
{
    let title = match get_field(record, keys, "title") {
        Some(t) => t,
        None => {
            return Err(RowError::MissingTitle);
        },
    };
    let text = field_or(record, keys, "text", "");
    proof {
        reveal_strlit("");
    }
    Ok(RequirementRow {
        title,
        req_type: field_or(record, keys, "type", "input"),
        priority: field_or(record, keys, "priority", "medium"),
        status: field_or(record, keys, "status", "draft"),
        text,
        rationale: get_field(record, keys, "rationale"),
        tags: get_field(record, keys, "tags"),
    })
}

/// The text of a new requirement file: the generated template with the
/// row's text, rationale, status and tags filled in.
pub open spec fn requirement_file_text(template: Seq<char>, row: &RequirementRow) -> Seq<char> {
    let y1 = with_block(
        template,
        row.text@,
        "text: |\n  # Enter requirement text here\n  # Use clear, testable language:\n  #   - \"shall\" for mandatory requirements\n  #   - \"should\" for recommended requirements\n  #   - \"may\" for optional requirements"@,
        "text: |\n  "@,
    );
    let y2 = with_quoted(y1, opt_view(row.rationale), "rationale: \"\""@, "rationale: \""@);
    let y3 = if row.status@ != "draft"@ {
        replaced(y2, "status: draft"@, "status: "@ + row.status@)
    } else {
        y2
    };
    with_tags(y3, opt_view(row.tags))
}

/// Fills the generated template of a requirement with the row's values.
pub fn requirement_file(template: &str, row: &RequirementRow) -> (r: String)
    ensures
        r@ == requirement_file_text(template@, row),
{
    proof {
        reveal_strlit("text: |\n  # Enter requirement text here\n  # Use clear, testable language:\n  #   - \"shall\" for mandatory requirements\n  #   - \"should\" for recommended requirements\n  #   - \"may\" for optional requirements");
        reveal_strlit("rationale: \"\"");
        reveal_strlit("status: draft");
    }
    let y = fill_block(
        template.to_owned(),
        row.text.as_str(),
        "text: |\n  # Enter requirement text here\n  # Use clear, testable language:\n  #   - \"shall\" for mandatory requirements\n  #   - \"should\" for recommended requirements\n  #   - \"may\" for optional requirements",
        "text: |\n  ",
    );
    let y = fill_quoted(y, &row.rationale, "rationale: \"\"", "rationale: \"");
    let y = if !str_eq(row.status.as_str(), "draft") {
        let with = concat_texts("status: ", row.status.as_str());
        replace_all(y.as_str(), "status: draft", with.as_str())
    } else {
        y
    };
    fill_tags(y, &row.tags)
}

/// The fields of a risk row.
pub struct RiskRow {
    pub title: String,
    pub risk_type: String,
    pub description: String,
    pub failure_mode: Option<String>,
    pub cause: Option<String>,
    pub effect: Option<String>,
    pub severity: Option<u8>,
    pub occurrence: Option<u8>,
    pub detection: Option<u8>,
    pub tags: Option<String>,
}

/// Reads a risk row: the title is required; the type defaults to design;
/// ratings that are not small counts are left out.
pub fn read_risk_row(record: &Vec<String>, keys: &Vec<String>) -> (r: Result<RiskRow, RowError>)
    ensures
        ({
            let rec = ids_view(record@);
            let ks = ids_view(keys@);
            &&& field_value(rec, ks, "title"@) is None ==> r == Err::<RiskRow, RowError>(RowError::MissingTitle)
            &&& field_value(rec, ks, "title"@) is Some ==> (r matches Ok(row) && {
                &&& Some(row.title@) == field_value(rec, ks, "title"@)
                &&& row.risk_type@ == value_or(field_value(rec, ks, "type"@), "design"@)
                &&& row.description@ == value_or(field_value(rec, ks, "description"@), Seq::empty())
                &&& opt_view(row.failure_mode) == field_value(rec, ks, "failure_mode"@)
                &&& opt_view(row.cause) == field_value(rec, ks, "cause"@)
                &&& opt_view(row.effect) == field_value(rec, ks, "effect"@)
                &&& row.severity == field_u8(rec, ks, "severity"@)
                &&& row.occurrence == field_u8(rec, ks, "occurrence"@)
                &&& row.detection == field_u8(rec, ks, "detection"@)
                &&& opt_view(row.tags) == field_value(rec, ks, "tags"@)
            })
        }),
{
    let title = match get_field(record, keys, "title") {
        Some(t) => t,
        None => {
            return Err(RowError::MissingTitle);
        },
    };
    let description = field_or(record, keys, "description", "");
    proof {
        reveal_strlit("");
    }
    Ok(RiskRow {
        title,
        risk_type: field_or(record, keys, "type", "design"),
        description,
        failure_mode: get_field(record, keys, "failure_mode"),
        cause: get_field(record, keys, "cause"),
        effect: get_field(record, keys, "effect"),
        severity: get_u8_field(record, keys, "severity"),
        occurrence: get_u8_field(record, keys, "occurrence"),
        detection: get_u8_field(record, keys, "detection"),
        tags: get_field(record, keys, "tags"),
    })
}

/// The text of a new risk file: the generated template with the row's
/// description, failure mode, cause, effect and tags filled in.
pub open spec fn risk_file_text(template: Seq<char>, row: &RiskRow) -> Seq<char> {
    let y1 = with_block(
        template,
        row.description@,
        "description: |\n  # Describe the risk scenario here\n  # What could go wrong? Under what conditions?"@,
        "description: |\n  "@,
    );
    let y2 = with_quoted(y1, opt_view(row.failure_mode), "failure_mode: |\n  # How does this failure manifest?"@, "failure_mode: \""@);
    let y3 = with_quoted(y2, opt_view(row.cause), "cause: |\n  # What is the root cause or mechanism?"@, "cause: \""@);
    let y4 = with_quoted(y3, opt_view(row.effect), "effect: |\n  # What is the impact or consequence?"@, "effect: \""@);
    with_tags(y4, opt_view(row.tags))
}

/// Fills the generated template of a risk with the row's values.
pub fn risk_file(template: &str, row: &RiskRow) -> (r: String)
    ensures
        r@ == risk_file_text(template@, row),
{
    proof {
        reveal_strlit("description: |\n  # Describe the risk scenario here\n  # What could go wrong? Under what conditions?");
        reveal_strlit("failure_mode: |\n  # How does this failure manifest?");
        reveal_strlit("cause: |\n  # What is the root cause or mechanism?");
        reveal_strlit("effect: |\n  # What is the impact or consequence?");
    }
    let y = fill_block(
        template.to_owned(),
        row.description.as_str(),
        "description: |\n  # Describe the risk scenario here\n  # What could go wrong? Under what conditions?",
        "description: |\n  ",
    );
    let y = fill_quoted(y, &row.failure_mode, "failure_mode: |\n  # How does this failure manifest?", "failure_mode: \"");
    let y = fill_quoted(y, &row.cause, "cause: |\n  # What is the root cause or mechanism?", "cause: \"");
    let y = fill_quoted(y, &row.effect, "effect: |\n  # What is the impact or consequence?", "effect: \"");
    fill_tags(y, &row.tags)
}

/// The folder (below the risks folder) a new risk goes to.
pub open spec fn risk_folder(risk_type: Seq<char>) -> Seq<char> {
    if risk_type == "process"@ {
        "process"@
    } else {
        "design"@
    }
}

/// The folder a new risk of this type goes to.
pub fn risk_subdir(risk_type: &str) -> (r: &'static str)
    ensures
        r@ == risk_folder(risk_type@),
{
    if str_eq(risk_type, "process") {
        "process"
    } else {
        "design"
    }
}

/// The fields of a component row. Mass and cost are kept as typed; they
/// are decimal numbers read outside this library.
pub struct ComponentRow {
    pub title: String,
    pub part_number: String,
    pub make_buy: String,
    pub category: String,
    pub description: Option<String>,
    pub material: Option<String>,
    pub finish: Option<String>,
    pub mass: Option<String>,
    pub cost: Option<String>,
    pub tags: Option<String>,
}

/// Reads a component row: a title or a part number is required; make/buy
/// and category default to make and mechanical.
pub fn read_component_row(record: &Vec<String>, keys: &Vec<String>) -> (r: Result<ComponentRow, RowError>)
    ensures
        ({
            let rec = ids_view(record@);
            let ks = ids_view(keys@);
            &&& (field_value(rec, ks, "title"@) is None && field_value(rec, ks, "part_number"@) is None)
                ==> r == Err::<ComponentRow, RowError>(RowError::MissingTitleOrPartNumber)
            &&& (field_value(rec, ks, "title"@) is Some || field_value(rec, ks, "part_number"@) is Some) ==> (r matches Ok(row) && {
                &&& row.title@ == value_or(field_value(rec, ks, "title"@), Seq::empty())
                &&& row.part_number@ == value_or(field_value(rec, ks, "part_number"@), Seq::empty())
                &&& row.make_buy@ == value_or(field_value(rec, ks, "make_buy"@), "make"@)
                &&& row.category@ == value_or(field_value(rec, ks, "category"@), "mechanical"@)
                &&& opt_view(row.description) == field_value(rec, ks, "description"@)
                &&& opt_view(row.material) == field_value(rec, ks, "material"@)
                &&& opt_view(row.finish) == field_value(rec, ks, "finish"@)
                &&& opt_view(row.mass) == field_value(rec, ks, "mass"@)
                &&& opt_view(row.cost) == field_value(rec, ks, "cost"@)
                &&& opt_view(row.tags) == field_value(rec, ks, "tags"@)
            })
        }),
{
    let title = get_field(record, keys, "title");
    let part_number = get_field(record, keys, "part_number");
    if title.is_none() && part_number.is_none() {
        return Err(RowError::MissingTitleOrPartNumber);
    }
    proof {
        reveal_strlit("");
    }
    let title = match title {
        Some(t) => t,
        None => "".to_owned(),
    };
    let part_number = match part_number {
        Some(p) => p,
        None => "".to_owned(),
    };
    Ok(ComponentRow {
        title,
        part_number,
        make_buy: field_or(record, keys, "make_buy", "make"),
        category: field_or(record, keys, "category", "mechanical"),
        description: get_field(record, keys, "description"),
        material: get_field(record, keys, "material"),
        finish: get_field(record, keys, "finish"),
        mass: get_field(record, keys, "mass"),
        cost: get_field(record, keys, "cost"),
        tags: get_field(record, keys, "tags"),
    })
}

/// The title a new component gets: its title, or its part number when it
/// has none.
pub open spec fn component_title(row: &ComponentRow) -> Seq<char> {
    if row.title@.len() == 0 {
        row.part_number@
    } else {
        row.title@
    }
}

/// The title a new component gets.
pub fn effective_component_title(row: &ComponentRow) -> (r: &str)
    ensures
        r@ == component_title(row),
{
    if is_empty_text(row.title.as_str()) {
        row.part_number.as_str()
    } else {
        row.title.as_str()
    }
}

/// The text of a new component file: the generated template with the row's
/// description, finish (after the material line), mass, cost and tags
/// filled in. `mass` and `cost` are the numbers as written into the file.
pub open spec fn component_file_text(template: Seq<char>, row: &ComponentRow, mass: Option<Seq<char>>, cost: Option<Seq<char>>) -> Seq<char> {
    let y1 = match row.description {
        Some(d) => with_block(
            template,
            d@,
            "description: |\n  # Detailed description of this component\n  # Include key specifications and requirements"@,
            "description: |\n  "@,
        ),
        None => template,
    };
    let mat = text_of(opt_view(row.material));
    let y2 = match row.finish {
        Some(f) => if f@.len() > 0 {
            replaced(y1, "material: \""@ + mat + "\""@, "material: \""@ + mat + "\"\nfinish: \""@ + escaped(f@) + "\""@)
        } else {
            y1
        },
        None => y1,
    };
    let y3 = match mass {
        Some(m) => replaced(y2, "mass_kg: null"@, "mass_kg: "@ + m),
        None => y2,
    };
    let y4 = match cost {
        Some(c) => replaced_first(y3, "unit_cost: null"@, "unit_cost: "@ + c),
        None => y3,
    };
    with_tags(y4, opt_view(row.tags))
}

/// The text, or the empty text.
pub open spec fn text_of(v: Option<Seq<char>>) -> Seq<char> {
    match v {
        Some(x) => x,
        None => Seq::empty(),
    }
}

/// Fills the generated template of a component with the row's values.
pub fn component_file(template: &str, row: &ComponentRow, mass: Option<&str>, cost: Option<&str>) -> (r: String)
    ensures
        r@ == component_file_text(template@, row, match mass {
            Some(m) => Some(m@),
            None => None,
        }, match cost {
            Some(c) => Some(c@),
            None => None,
        }),
{
    proof {
        reveal_strlit("description: |\n  # Detailed description of this component\n  # Include key specifications and requirements");
        reveal_strlit("mass_kg: null");
        reveal_strlit("unit_cost: null");
        reveal_strlit("material: \"");
        reveal_strlit("");
    }
    let y = match &row.description {
        Some(d) => fill_block(
            template.to_owned(),
            d.as_str(),
            "description: |\n  # Detailed description of this component\n  # Include key specifications and requirements",
            "description: |\n  ",
        ),
        None => template.to_owned(),
    };
    let mat: &str = match &row.material {
        Some(m) => m.as_str(),
        None => "",
    };
    let y = match &row.finish {
        Some(f) => if !is_empty_text(f.as_str()) {
            let mut from = String::new();
            append_text(&mut from, "material: \"");
            append_text(&mut from, mat);
            append_text(&mut from, "\"");
            let mut with = String::new();
            append_text(&mut with, "material: \"");
            append_text(&mut with, mat);
            append_text(&mut with, "\"\nfinish: \"");
            let e = escape_quotes(f.as_str());
            append_text(&mut with, e.as_str());
            append_text(&mut with, "\"");
            replace_all(y.as_str(), from.as_str(), with.as_str())
        } else {
            y
        },
        None => y,
    };
    let y = match mass {
        Some(m) => {
            let with = concat_texts("mass_kg: ", m);
            replace_all(y.as_str(), "mass_kg: null", with.as_str())
        },
        None => y,
    };
    let y = match cost {
        Some(c) => {
            let with = concat_texts("unit_cost: ", c);
            replace_first(y.as_str(), "unit_cost: null", with.as_str())
        },
        None => y,
    };
    fill_tags(y, &row.tags)
}

/// The counts an import reports.
#[derive(Debug, Clone, Copy, PartialEq, Eq, Structural)]
pub struct ImportStats {
    pub rows_processed: usize,
    pub entities_created: usize,
    pub entities_updated: usize,
    pub errors: usize,
    pub skipped: usize,
}

impl ImportStats {
    /// No row seen yet.
    pub fn new() -> (r: ImportStats)
        ensures
            r == (ImportStats { rows_processed: 0, entities_created: 0, entities_updated: 0, errors: 0, skipped: 0 }),
    {
        ImportStats { rows_processed: 0, entities_created: 0, entities_updated: 0, errors: 0, skipped: 0 }
    }
}

/// What became of one row.
#[derive(Debug, Clone, Copy, PartialEq, Eq, Structural)]
pub enum RowOutcome {
    /// The row was unreadable or lacked a required field.
    Failed,
    /// The row was valid and, in a dry run, nothing was written.
    Checked,
    /// The row was valid and its entity file was written.
    Created,
}

/// The counts after one more row, and whether the import goes on: a failed
/// row counts as an error and stops the import unless errors are skipped.
pub open spec fn after_row(s: ImportStats, o: RowOutcome, skip_errors: bool) -> (ImportStats, bool) {
    let seen = ImportStats { rows_processed: (s.rows_processed + 1) as usize, ..s };
    match o {
        RowOutcome::Failed => (ImportStats { errors: (s.errors + 1) as usize, ..seen }, skip_errors),
        RowOutcome::Checked => (seen, true),
        RowOutcome::Created => (ImportStats { entities_created: (s.entities_created + 1) as usize, ..seen }, true),
    }
}

/// Counts one row; returns whether the import goes on.
pub fn record_row(stats: &mut ImportStats, outcome: RowOutcome, skip_errors: bool) -> (go_on: bool)
    requires
        old(stats).rows_processed < usize::MAX,
        old(stats).errors < usize::MAX,
        old(stats).entities_created < usize::MAX,
    ensures
        (*final(stats), go_on) == after_row(*old(stats), outcome, skip_errors),
{
    stats.rows_processed = stats.rows_processed + 1;
    match outcome {
        RowOutcome::Failed => {
            stats.errors = stats.errors + 1;
            skip_errors
        },
        RowOutcome::Checked => true,
        RowOutcome::Created => {
            stats.entities_created = stats.entities_created + 1;
            true
        },
    }
}

/// How an import ends: with the number of errors when there were any and
/// they were not skipped.
pub open spec fn import_outcome(s: ImportStats, skip_errors: bool) -> Result<(), usize> {
    if s.errors > 0 && !skip_errors {
        Err(s.errors)
    } else {
        Ok(())
    }
}

/// The end result of an import.
pub fn finish_import(stats: &ImportStats, skip_errors: bool) -> (r: Result<(), usize>)
    ensures
        r == import_outcome(*stats, skip_errors),
{
    if stats.errors > 0 && !skip_errors {
        Err(stats.errors)
    } else {
        Ok(())
    }
}

/// A failed row stops an import that does not skip errors, and the import
/// then ends with an error.
pub proof fn law_failed_row_stops_import(s: ImportStats)
    ensures
        !after_row(s, RowOutcome::Failed, false).1,
        s.errors + 1 <= usize::MAX ==> import_outcome(after_row(s, RowOutcome::Failed, false).0, false) is Err,
{
}

/// The row number a reader sees for the record at a position: counted from
/// one, after the header row.
pub open spec fn row_number_of(idx: int) -> int {
    idx + 2
}

/// The row number of the record at a position.
pub fn row_number(idx: usize) -> (r: usize)
    requires
        idx <= usize::MAX - 2,
    ensures
        r == row_number_of(idx as int),
{
    idx + 2
}


/// The fields of a supplier row.
pub struct SupplierRow {
    pub title: String,
    pub short_name: String,
    pub website: Option<String>,
    pub contact_email: Option<String>,
    pub contact_phone: Option<String>,
    pub address: Option<String>,
    pub tags: Option<String>,
}

/// Reads a supplier row: a title or a short name is required.
pub fn read_supplier_row(record: &Vec<String>, keys: &Vec<String>) -> (r: Result<SupplierRow, RowError>)
    ensures
        ({
            let rec = ids_view(record@);
            let ks = ids_view(keys@);
            &&& (field_value(rec, ks, "title"@) is None && field_value(rec, ks, "short_name"@) is None)
                ==> r == Err::<SupplierRow, RowError>(RowError::MissingTitleOrShortName)
            &&& (field_value(rec, ks, "title"@) is Some || field_value(rec, ks, "short_name"@) is Some) ==> (r matches Ok(row) && {
                &&& row.title@ == value_or(field_value(rec, ks, "title"@), Seq::empty())
                &&& row.short_name@ == value_or(field_value(rec, ks, "short_name"@), Seq::empty())
                &&& opt_view(row.website) == field_value(rec, ks, "website"@)
                &&& opt_view(row.contact_email) == field_value(rec, ks, "contact_email"@)
                &&& opt_view(row.contact_phone) == field_value(rec, ks, "contact_phone"@)
                &&& opt_view(row.address) == field_value(rec, ks, "address"@)
                &&& opt_view(row.tags) == field_value(rec, ks, "tags"@)
            })
        }),
{
    let title = get_field(record, keys, "title");
    let short_name = get_field(record, keys, "short_name");
    if title.is_none() && short_name.is_none() {
        return Err(RowError::MissingTitleOrShortName);
    }
    proof {
        reveal_strlit("");
    }
    let title = match title {
        Some(t) => t,
        None => "".to_owned(),
    };
    let short_name = match short_name {
        Some(n) => n,
        None => "".to_owned(),
    };
    Ok(SupplierRow {
        title,
        short_name,
        website: get_field(record, keys, "website"),
        contact_email: get_field(record, keys, "contact_email"),
        contact_phone: get_field(record, keys, "contact_phone"),
        address: get_field(record, keys, "address"),
        tags: get_field(record, keys, "tags"),
    })
}

/// The title a new supplier gets: its title, or its short name when it has
/// none.
pub open spec fn supplier_title(row: &SupplierRow) -> Seq<char> {
    if row.title@.len() == 0 {
        row.short_name@
    } else {
        row.title@
    }
}

/// The short name a new supplier gets: the one given, else the first word
/// of its title in upper case (SUP when the title has no word).
pub open spec fn supplier_short_name(row: &SupplierRow) -> Seq<char> {
    if row.short_name@.len() == 0 {
        uppercase(match first_word(supplier_title(row)) {
            Some(w) => w,
            None => "SUP"@,
        })
    } else {
        row.short_name@
    }
}

/// The short name a new supplier gets.
pub fn effective_short_name(row: &SupplierRow) -> (r: String)
    ensures
        r@ == supplier_short_name(row),
{
    if is_empty_text(row.short_name.as_str()) {
        let title = if is_empty_text(row.title.as_str()) {
            row.short_name.as_str()
        } else {
            row.title.as_str()
        };
        match first_word_of(title) {
            Some(w) => to_uppercase(w.as_str()),
            None => to_uppercase("SUP"),
        }
    } else {
        row.short_name.clone()
    }
}

/// The text of a new supplier file: the generated template with a primary
/// contact (when an e-mail or a phone is given), a headquarters address and
/// the tags filled in.
pub open spec fn supplier_file_text(template: Seq<char>, row: &SupplierRow) -> Seq<char> {
    let y1 = if row.contact_email is Some || row.contact_phone is Some {
        replaced(
            template,
            "contacts: []"@,
            "contacts:\n  - name: \"Primary Contact\"\n    role: \"Sales\"\n    email: \""@ + text_of(opt_view(row.contact_email))
                + "\"\n    phone: \""@ + text_of(opt_view(row.contact_phone)) + "\"\n    primary: true"@,
        )
    } else {
        template
    };
    let y2 = match row.address {
        Some(a) => if a@.len() > 0 {
            replaced(
                y1,
                "addresses: []"@,
                "addresses:\n  - type: headquarters\n    street: \""@ + escaped(a@)
                    + "\"\n    city: \"\"\n    state: \"\"\n    postal: \"\"\n    country: \"\""@,
            )
        } else {
            y1
        },
        None => y1,
    };
    with_tags(y2, opt_view(row.tags))
}

/// Fills the generated template of a supplier with the row's values.
pub fn supplier_file(template: &str, row: &SupplierRow) -> (r: String)
    ensures
        r@ == supplier_file_text(template@, row),
{
    proof {
        reveal_strlit("contacts: []");
        reveal_strlit("addresses: []");
        reveal_strlit("");
    }
    let y = if row.contact_email.is_some() || row.contact_phone.is_some() {
        let email: &str = match &row.contact_email {
            Some(e) => e.as_str(),
            None => "",
        };
        let phone: &str = match &row.contact_phone {
            Some(p) => p.as_str(),
            None => "",
        };
        let mut entry = String::new();
        append_text(&mut entry, "contacts:\n  - name: \"Primary Contact\"\n    role: \"Sales\"\n    email: \"");
        append_text(&mut entry, email);
        append_text(&mut entry, "\"\n    phone: \"");
        append_text(&mut entry, phone);
        append_text(&mut entry, "\"\n    primary: true");
        replace_all(template, "contacts: []", entry.as_str())
    } else {
        template.to_owned()
    };
    let y = match &row.address {
        Some(a) => if !is_empty_text(a.as_str()) {
            let mut entry = String::new();
            append_text(&mut entry, "addresses:\n  - type: headquarters\n    street: \"");
            let e = escape_quotes(a.as_str());
            append_text(&mut entry, e.as_str());
            append_text(&mut entry, "\"\n    city: \"\"\n    state: \"\"\n    postal: \"\"\n    country: \"\"");
            replace_all(y.as_str(), "addresses: []", entry.as_str())
        } else {
            y
        },
        None => y,
    };
    fill_tags(y, &row.tags)
}


/// A count typed by a user, as `u32::from_str` reads it.
pub open spec fn parsed_u32(s: Seq<char>) -> Option<u32> {
    match parsed_usize(s) {
        Some(n) => if n <= u32::MAX {
            Some(n as u32)
        } else {
            None
        },
        None => None,
    }
}

/// The count in a field, if present and well-formed.
pub open spec fn field_u32(record: Seq<Seq<char>>, keys: Seq<Seq<char>>, field: Seq<char>) -> Option<u32> {
    match field_value(record, keys, field) {
        Some(v) => parsed_u32(v),
        None => None,
    }
}

/// Reads a count from a field.
pub fn get_u32_field(record: &Vec<String>, keys: &Vec<String>, field: &str) -> (r: Option<u32>)
    ensures
        r == field_u32(ids_view(record@), ids_view(keys@), field@),
{
    match get_field(record, keys, field) {
        Some(v) => match parse_usize(v.as_str()) {
            Some(n) => if n <= 4294967295 {
                Some(n as u32)
            } else {
                None
            },
            None => None,
        },
        None => None,
    }
}

/// The file text with `key` + value + `suffix` put in place of a
/// placeholder, when the value is present.
pub open spec fn with_plain(y: Seq<char>, v: Option<Seq<char>>, holder: Seq<char>, key: Seq<char>, suffix: Seq<char>) -> Seq<char> {
    match v {
        Some(x) => replaced(y, holder, key + x + suffix),
        None => y,
    }
}

/// Puts a value, as given, in place of a placeholder.
fn fill_plain(y: String, v: Option<&str>, holder: &str, key: &str, suffix: &str) -> (r: String)
    requires
        holder@.len() > 0,
    ensures
        r@ == with_plain(y@, match v {
            Some(x) => Some(x@),
            None => None,
        }, holder@, key@, suffix@),
{
    match v {
        Some(x) => {
            let mut with = String::new();
            append_text(&mut with, key);
            append_text(&mut with, x);
            append_text(&mut with, suffix);
            replace_all(y.as_str(), holder, with.as_str())
        },
        None => y,
    }
}

/// The text of an optional value, borrowed.
fn opt_str(o: &Option<String>) -> (r: Option<&str>)
    ensures
        match r {
            Some(x) => opt_view(*o) == Some(x@),
            None => o is None,
        },
{
    match o {
        Some(s) => Some(s.as_str()),
        None => None,
    }
}

/// The fields of a test protocol row.
pub struct TestRow {
    pub title: String,
    pub test_type: String,
    pub test_level: String,
    pub test_method: String,
    pub category: String,
    pub priority: String,
    pub objective: Option<String>,
    pub description: Option<String>,
    pub estimated_duration: String,
    pub tags: Option<String>,
}

/// Reads a test protocol row: the title is required; type, level, method,
/// priority and duration default to verification, unit, inspection, medium
/// and one hour.
pub fn read_test_row(record: &Vec<String>, keys: &Vec<String>) -> (r: Result<TestRow, RowError>)
    ensures
        ({
            let rec = ids_view(record@);
            let ks = ids_view(keys@);
            &&& field_value(rec, ks, "title"@) is None ==> r == Err::<TestRow, RowError>(RowError::MissingTitle)
            &&& field_value(rec, ks, "title"@) is Some ==> (r matches Ok(row) && {
                &&& Some(row.title@) == field_value(rec, ks, "title"@)
                &&& row.test_type@ == value_or(field_value(rec, ks, "type"@), "verification"@)
                &&& row.test_level@ == value_or(field_value(rec, ks, "level"@), "unit"@)
                &&& row.test_method@ == value_or(field_value(rec, ks, "method"@), "inspection"@)
                &&& row.category@ == value_or(field_value(rec, ks, "category"@), Seq::empty())
                &&& row.priority@ == value_or(field_value(rec, ks, "priority"@), "medium"@)
                &&& opt_view(row.objective) == field_value(rec, ks, "objective"@)
                &&& opt_view(row.description) == field_value(rec, ks, "description"@)
                &&& row.estimated_duration@ == value_or(field_value(rec, ks, "estimated_duration"@), "1 hour"@)
                &&& opt_view(row.tags) == field_value(rec, ks, "tags"@)
            })
        }),
{
    let title = match get_field(record, keys, "title") {
        Some(t) => t,
        None => {
            return Err(RowError::MissingTitle);
        },
    };
    let category = field_or(record, keys, "category", "");
    proof {
        reveal_strlit("");
    }
    Ok(TestRow {
        title,
        test_type: field_or(record, keys, "type", "verification"),
        test_level: field_or(record, keys, "level", "unit"),
        test_method: field_or(record, keys, "method", "inspection"),
        category,
        priority: field_or(record, keys, "priority", "medium"),
        objective: get_field(record, keys, "objective"),
        description: get_field(record, keys, "description"),
        estimated_duration: field_or(record, keys, "estimated_duration", "1 hour"),
        tags: get_field(record, keys, "tags"),
    })
}

/// The text of a new test protocol file: the generated template with the
/// row's objective, description and tags filled in.
pub open spec fn test_file_text(template: Seq<char>, row: &TestRow) -> Seq<char> {
    let y1 = with_block(
        template,
        text_of(opt_view(row.objective)),
        "objective: |\n  # What does this test verify or validate?\n  # Be specific about success criteria"@,
        "objective: |\n  "@,
    );
    let y2 = with_block(
        y1,
        text_of(opt_view(row.description)),
        "description: |\n  # Detailed description of the test\n  # Include any background or context"@,
        "description: |\n  "@,
    );
    with_tags(y2, opt_view(row.tags))
}

/// Fills the generated template of a test protocol with the row's values.
pub fn test_file(template: &str, row: &TestRow) -> (r: String)
    ensures
        r@ == test_file_text(template@, row),
{
    proof {
        reveal_strlit("objective: |\n  # What does this test verify or validate?\n  # Be specific about success criteria");
        reveal_strlit("description: |\n  # Detailed description of the test\n  # Include any background or context");
        reveal_strlit("");
        assert(""@ =~= Seq::<char>::empty());
    }
    let objective: &str = match &row.objective {
        Some(o) => o.as_str(),
        None => "",
    };
    let description: &str = match &row.description {
        Some(d) => d.as_str(),
        None => "",
    };
    let y = fill_block(
        template.to_owned(),
        objective,
        "objective: |\n  # What does this test verify or validate?\n  # Be specific about success criteria",
        "objective: |\n  ",
    );
    let y = fill_block(
        y,
        description,
        "description: |\n  # Detailed description of the test\n  # Include any background or context",
        "description: |\n  ",
    );
    fill_tags(y, &row.tags)
}

/// The folder a new test protocol goes to.
pub open spec fn test_folder(test_type: Seq<char>) -> Seq<char> {
    if test_type == "validation"@ {
        "validation/protocols"@
    } else {
        "verification/protocols"@
    }
}

/// The folder a new test protocol of this type goes to.
pub fn test_dir(test_type: &str) -> (r: &'static str)
    ensures
        r@ == test_folder(test_type@),
{
    if str_eq(test_type, "validation") {
        "validation/protocols"
    } else {
        "verification/protocols"
    }
}

/// The fields of a manufacturing process row. Cycle and setup times are
/// kept as typed; they are decimal numbers read outside this library.
pub struct ProcessRow {
    pub title: String,
    pub process_type: String,
    pub operation_number: Option<String>,
    pub description: Option<String>,
    pub cycle_time: Option<String>,
    pub setup_time: Option<String>,
    pub operator_skill: Option<String>,
    pub tags: Option<String>,
}

/// Reads a process row: the title is required; the type defaults to
/// machining.
pub fn read_process_row(record: &Vec<String>, keys: &Vec<String>) -> (r: Result<ProcessRow, RowError>)
    ensures
        ({
            let rec = ids_view(record@);
            let ks = ids_view(keys@);
            &&& field_value(rec, ks, "title"@) is None ==> r == Err::<ProcessRow, RowError>(RowError::MissingTitle)
            &&& field_value(rec, ks, "title"@) is Some ==> (r matches Ok(row) && {
                &&& Some(row.title@) == field_value(rec, ks, "title"@)
                &&& row.process_type@ == value_or(field_value(rec, ks, "type"@), "machining"@)
                &&& opt_view(row.operation_number) == field_value(rec, ks, "operation_number"@)
                &&& opt_view(row.description) == field_value(rec, ks, "description"@)
                &&& opt_view(row.cycle_time) == field_value(rec, ks, "cycle_time_minutes"@)
                &&& opt_view(row.setup_time) == field_value(rec, ks, "setup_time_minutes"@)
                &&& opt_view(row.operator_skill) == field_value(rec, ks, "operator_skill"@)
                &&& opt_view(row.tags) == field_value(rec, ks, "tags"@)
            })
        }),
{
    let title = match get_field(record, keys, "title") {
        Some(t) => t,
        None => {
            return Err(RowError::MissingTitle);
        },
    };
    Ok(ProcessRow {
        title,
        process_type: field_or(record, keys, "type", "machining"),
        operation_number: get_field(record, keys, "operation_number"),
        description: get_field(record, keys, "description"),
        cycle_time: get_field(record, keys, "cycle_time_minutes"),
        setup_time: get_field(record, keys, "setup_time_minutes"),
        operator_skill: get_field(record, keys, "operator_skill"),
        tags: get_field(record, keys, "tags"),
    })
}

/// The text of a new process file: the generated template with the row's
/// description, times, operator skill and tags filled in. `cycle` and
/// `setup` are the times as written into the file.
pub open spec fn process_file_text(template: Seq<char>, row: &ProcessRow, cycle: Option<Seq<char>>, setup: Option<Seq<char>>) -> Seq<char> {
    let y1 = with_block(
        template,
        text_of(opt_view(row.description)),
        "description: |\n  # Detailed description of this manufacturing process\n  # Include key steps and requirements"@,
        "description: |\n  "@,
    );
    let y2 = with_plain(y1, cycle, "cycle_time_minutes: null"@, "cycle_time_minutes: "@, Seq::empty());
    let y3 = with_plain(y2, setup, "setup_time_minutes: null"@, "setup_time_minutes: "@, Seq::empty());
    let y4 = match opt_view(row.operator_skill) {
        Some(k) => if k.len() > 0 {
            replaced(y3, "operator_skill: intermediate"@, "operator_skill: "@ + k)
        } else {
            y3
        },
        None => y3,
    };
    with_tags(y4, opt_view(row.tags))
}

/// Fills the generated template of a process with the row's values.
pub fn process_file(template: &str, row: &ProcessRow, cycle: Option<&str>, setup: Option<&str>) -> (r: String)
    ensures
        r@ == process_file_text(template@, row, match cycle {
            Some(c) => Some(c@),
            None => None,
        }, match setup {
            Some(s) => Some(s@),
            None => None,
        }),
{
    proof {
        reveal_strlit("description: |\n  # Detailed description of this manufacturing process\n  # Include key steps and requirements");
        reveal_strlit("cycle_time_minutes: null");
        reveal_strlit("setup_time_minutes: null");
        reveal_strlit("operator_skill: intermediate");
        reveal_strlit("");
        assert(""@ =~= Seq::<char>::empty());
    }
    let description: &str = match &row.description {
        Some(d) => d.as_str(),
        None => "",
    };
    let y = fill_block(
        template.to_owned(),
        description,
        "description: |\n  # Detailed description of this manufacturing process\n  # Include key steps and requirements",
        "description: |\n  ",
    );
    let y = fill_plain(y, cycle, "cycle_time_minutes: null", "cycle_time_minutes: ", "");
    let y = fill_plain(y, setup, "setup_time_minutes: null", "setup_time_minutes: ", "");
    let y = match &row.operator_skill {
        Some(k) => if !is_empty_text(k.as_str()) {
            let with = concat_texts("operator_skill: ", k.as_str());
            replace_all(y.as_str(), "operator_skill: intermediate", with.as_str())
        } else {
            y
        },
        None => y,
    };
    fill_tags(y, &row.tags)
}

/// The fields of a control plan row. Nominal value and limits are kept as
/// typed; they are decimal numbers read outside this library.
pub struct ControlRow {
    pub title: String,
    pub control_type: String,
    pub control_category: String,
    pub description: Option<String>,
    pub characteristic_name: Option<String>,
    pub nominal: Option<String>,
    pub upper_limit: Option<String>,
    pub lower_limit: Option<String>,
    pub units: String,
    pub critical: bool,
    pub tags: Option<String>,
}

/// A critical flag as typed: `true` in any letter case, or `1`.
pub open spec fn critical_flag(v: Option<Seq<char>>) -> bool {
    match v {
        Some(x) => lowercase(x) == "true"@ || x == "1"@,
        None => false,
    }
}

/// Reads a control plan row: the title is required; type, category and
/// units default to inspection, variable and mm.
pub fn read_control_row(record: &Vec<String>, keys: &Vec<String>) -> (r: Result<ControlRow, RowError>)
    ensures
        ({
            let rec = ids_view(record@);
            let ks = ids_view(keys@);
            &&& field_value(rec, ks, "title"@) is None ==> r == Err::<ControlRow, RowError>(RowError::MissingTitle)
            &&& field_value(rec, ks, "title"@) is Some ==> (r matches Ok(row) && {
                &&& Some(row.title@) == field_value(rec, ks, "title"@)
                &&& row.control_type@ == value_or(field_value(rec, ks, "type"@), "inspection"@)
                &&& row.control_category@ == value_or(field_value(rec, ks, "category"@), "variable"@)
                &&& opt_view(row.description) == field_value(rec, ks, "description"@)
                &&& opt_view(row.characteristic_name) == field_value(rec, ks, "characteristic_name"@)
                &&& opt_view(row.nominal) == field_value(rec, ks, "nominal"@)
                &&& opt_view(row.upper_limit) == field_value(rec, ks, "upper_limit"@)
                &&& opt_view(row.lower_limit) == field_value(rec, ks, "lower_limit"@)
                &&& row.units@ == value_or(field_value(rec, ks, "units"@), "mm"@)
                &&& row.critical == critical_flag(field_value(rec, ks, "critical"@))
                &&& opt_view(row.tags) == field_value(rec, ks, "tags"@)
            })
        }),
{
    let title = match get_field(record, keys, "title") {
        Some(t) => t,
        None => {
            return Err(RowError::MissingTitle);
        },
    };
    let critical = match get_field(record, keys, "critical") {
        Some(c) => {
            let l = to_lowercase(c.as_str());
            str_eq(l.as_str(), "true") || str_eq(c.as_str(), "1")
        },
        None => false,
    };
    Ok(ControlRow {
        title,
        control_type: field_or(record, keys, "type", "inspection"),
        control_category: field_or(record, keys, "category", "variable"),
        description: get_field(record, keys, "description"),
        characteristic_name: get_field(record, keys, "characteristic_name"),
        nominal: get_field(record, keys, "nominal"),
        upper_limit: get_field(record, keys, "upper_limit"),
        lower_limit: get_field(record, keys, "lower_limit"),
        units: field_or(record, keys, "units", "mm"),
        critical,
        tags: get_field(record, keys, "tags"),
    })
}

/// The text of a new control file: the generated template with the row's
/// category, description, characteristic name, nominal value, limits,
/// units and tags filled in. `nominal`, `upper` and `lower` are the numbers
/// as written into the file.
pub open spec fn control_file_text(template: Seq<char>, row: &ControlRow, nominal: Option<Seq<char>>, upper: Option<Seq<char>>, lower: Option<Seq<char>>) -> Seq<char> {
    let y1 = replaced(template, "control_category: variable"@, "control_category: "@ + row.control_category@);
    let y2 = with_block(
        y1,
        text_of(opt_view(row.description)),
        "description: |\n  # Detailed description of this control plan item\n  # Include what is being controlled and why"@,
        "description: |\n  "@,
    );
    let y3 = with_plain(y2, opt_view(row.characteristic_name), "name: \"\""@, "name: \""@, "\""@);
    let y4 = with_plain(y3, nominal, "nominal: 0.0"@, "nominal: "@, Seq::empty());
    let y5 = with_plain(y4, upper, "upper_limit: 0.0"@, "upper_limit: "@, Seq::empty());
    let y6 = with_plain(y5, lower, "lower_limit: 0.0"@, "lower_limit: "@, Seq::empty());
    let y7 = replaced(y6, "units: \"mm\""@, "units: \""@ + row.units@ + "\""@);
    with_tags(y7, opt_view(row.tags))
}

/// Fills the generated template of a control with the row's values.
pub fn control_file(template: &str, row: &ControlRow, nominal: Option<&str>, upper: Option<&str>, lower: Option<&str>) -> (r: String)
    ensures
        r@ == control_file_text(template@, row, match nominal {
            Some(x) => Some(x@),
            None => None,
        }, match upper {
            Some(x) => Some(x@),
            None => None,
        }, match lower {
            Some(x) => Some(x@),
            None => None,
        }),
{
    proof {
        reveal_strlit("control_category: variable");
        reveal_strlit("description: |\n  # Detailed description of this control plan item\n  # Include what is being controlled and why");
        reveal_strlit("name: \"\"");
        reveal_strlit("nominal: 0.0");
        reveal_strlit("upper_limit: 0.0");
        reveal_strlit("lower_limit: 0.0");
        reveal_strlit("units: \"mm\"");
        reveal_strlit("");
        assert(""@ =~= Seq::<char>::empty());
    }
    let with = concat_texts("control_category: ", row.control_category.as_str());
    let y = replace_all(template, "control_category: variable", with.as_str());
    let description: &str = match &row.description {
        Some(d) => d.as_str(),
        None => "",
    };
    let y = fill_block(
        y,
        description,
        "description: |\n  # Detailed description of this control plan item\n  # Include what is being controlled and why",
        "description: |\n  ",
    );
    let y = fill_plain(y, opt_str(&row.characteristic_name), "name: \"\"", "name: \"", "\"");
    let y = fill_plain(y, nominal, "nominal: 0.0", "nominal: ", "");
    let y = fill_plain(y, upper, "upper_limit: 0.0", "upper_limit: ", "");
    let y = fill_plain(y, lower, "lower_limit: 0.0", "lower_limit: ", "");
    let mut units = concat_texts("units: \"", row.units.as_str());
    append_text(&mut units, "\"");
    let y = replace_all(y.as_str(), "units: \"mm\"", units.as_str());
    fill_tags(y, &row.tags)
}

/// The fields of a non-conformance row.
pub struct NcrRow {
    pub title: String,
    pub ncr_type: String,
    pub severity: String,
    pub category: String,
    pub part_number: Option<String>,
    pub quantity_affected: Option<u32>,
    pub characteristic: Option<String>,
    pub specification: Option<String>,
    pub actual: Option<String>,
    pub tags: Option<String>,
}

/// Reads a non-conformance row: the title is required; type, severity and
/// category default to internal, minor and dimensional.
pub fn read_ncr_row(record: &Vec<String>, keys: &Vec<String>) -> (r: Result<NcrRow, RowError>)
    ensures
        ({
            let rec = ids_view(record@);
            let ks = ids_view(keys@);
            &&& field_value(rec, ks, "title"@) is None ==> r == Err::<NcrRow, RowError>(RowError::MissingTitle)
            &&& field_value(rec, ks, "title"@) is Some ==> (r matches Ok(row) && {
                &&& Some(row.title@) == field_value(rec, ks, "title"@)
                &&& row.ncr_type@ == value_or(field_value(rec, ks, "type"@), "internal"@)
                &&& row.severity@ == value_or(field_value(rec, ks, "severity"@), "minor"@)
                &&& row.category@ == value_or(field_value(rec, ks, "category"@), "dimensional"@)
                &&& opt_view(row.part_number) == field_value(rec, ks, "part_number"@)
                &&& row.quantity_affected == field_u32(rec, ks, "quantity_affected"@)
                &&& opt_view(row.characteristic) == field_value(rec, ks, "characteristic"@)
                &&& opt_view(row.specification) == field_value(rec, ks, "specification"@)
                &&& opt_view(row.actual) == field_value(rec, ks, "actual"@)
                &&& opt_view(row.tags) == field_value(rec, ks, "tags"@)
            })
        }),
{
    let title = match get_field(record, keys, "title") {
        Some(t) => t,
        None => {
            return Err(RowError::MissingTitle);
        },
    };
    Ok(NcrRow {
        title,
        ncr_type: field_or(record, keys, "type", "internal"),
        severity: field_or(record, keys, "severity", "minor"),
        category: field_or(record, keys, "category", "dimensional"),
        part_number: get_field(record, keys, "part_number"),
        quantity_affected: get_u32_field(record, keys, "quantity_affected"),
        characteristic: get_field(record, keys, "characteristic"),
        specification: get_field(record, keys, "specification"),
        actual: get_field(record, keys, "actual"),
        tags: get_field(record, keys, "tags"),
    })
}

/// The text of a new NCR file: the generated template with the affected
/// part and quantity, the defect details and the tags filled in.
pub open spec fn ncr_file_text(template: Seq<char>, row: &NcrRow) -> Seq<char> {
    let y1 = with_plain(template, opt_view(row.part_number), "part_number: \"\""@, "part_number: \""@, "\""@);
    let y2 = match row.quantity_affected {
        Some(q) => replaced(y1, "quantity_affected: 1"@, "quantity_affected: "@ + decimal(q as nat)),
        None => y1,
    };
    let y3 = with_plain(y2, opt_view(row.characteristic), "characteristic: \"\""@, "characteristic: \""@, "\""@);
    let y4 = with_plain(y3, opt_view(row.specification), "specification: \"\""@, "specification: \""@, "\""@);
    let y5 = with_plain(y4, opt_view(row.actual), "actual: \"\""@, "actual: \""@, "\""@);
    with_tags(y5, opt_view(row.tags))
}

/// Fills the generated template of an NCR with the row's values.
pub fn ncr_file(template: &str, row: &NcrRow) -> (r: String)
    ensures
        r@ == ncr_file_text(template@, row),
{
    proof {
        reveal_strlit("part_number: \"\"");
        reveal_strlit("quantity_affected: 1");
        reveal_strlit("characteristic: \"\"");
        reveal_strlit("specification: \"\"");
        reveal_strlit("actual: \"\"");
    }
    let y = fill_plain(template.to_owned(), opt_str(&row.part_number), "part_number: \"\"", "part_number: \"", "\"");
    let y = match row.quantity_affected {
        Some(q) => {
            let d = decimal_text(q as usize);
            let with = concat_texts("quantity_affected: ", d.as_str());
            replace_all(y.as_str(), "quantity_affected: 1", with.as_str())
        },
        None => y,
    };
    let y = fill_plain(y, opt_str(&row.characteristic), "characteristic: \"\"", "characteristic: \"", "\"");
    let y = fill_plain(y, opt_str(&row.specification), "specification: \"\"", "specification: \"", "\"");
    let y = fill_plain(y, opt_str(&row.actual), "actual: \"\"", "actual: \"", "\"");
    fill_tags(y, &row.tags)
}

/// The fields of a CAPA row.
pub struct CapaRow {
    pub title: String,
    pub capa_type: String,
    pub source_type: String,
    pub source_ref: String,
    pub problem_statement: Option<String>,
    pub root_cause: Option<String>,
    pub tags: Option<String>,
}

/// Reads a CAPA row: the title is required; type and source type default to
/// corrective and ncr.
pub fn read_capa_row(record: &Vec<String>, keys: &Vec<String>) -> (r: Result<CapaRow, RowError>)
    ensures
        ({
            let rec = ids_view(record@);
            let ks = ids_view(keys@);
            &&& field_value(rec, ks, "title"@) is None ==> r == Err::<CapaRow, RowError>(RowError::MissingTitle)
            &&& field_value(rec, ks, "title"@) is Some ==> (r matches Ok(row) && {
                &&& Some(row.title@) == field_value(rec, ks, "title"@)
                &&& row.capa_type@ == value_or(field_value(rec, ks, "type"@), "corrective"@)
                &&& row.source_type@ == value_or(field_value(rec, ks, "source_type"@), "ncr"@)
                &&& row.source_ref@ == value_or(field_value(rec, ks, "source_ref"@), Seq::empty())
                &&& opt_view(row.problem_statement) == field_value(rec, ks, "problem_statement"@)
                &&& opt_view(row.root_cause) == field_value(rec, ks, "root_cause"@)
                &&& opt_view(row.tags) == field_value(rec, ks, "tags"@)
            })
        }),
{
    let title = match get_field(record, keys, "title") {
        Some(t) => t,
        None => {
            return Err(RowError::MissingTitle);
        },
    };
    let source_ref = field_or(record, keys, "source_ref", "");
    proof {
        reveal_strlit("");
    }
    Ok(CapaRow {
        title,
        capa_type: field_or(record, keys, "type", "corrective"),
        source_type: field_or(record, keys, "source_type", "ncr"),
        source_ref,
        problem_statement: get_field(record, keys, "problem_statement"),
        root_cause: get_field(record, keys, "root_cause"),
        tags: get_field(record, keys, "tags"),
    })
}

/// The text of a new CAPA file: the generated template with the row's
/// problem statement, root cause (indented under its parent key) and tags
/// filled in.
pub open spec fn capa_file_text(template: Seq<char>, row: &CapaRow) -> Seq<char> {
    let y1 = with_block(
        template,
        text_of(opt_view(row.problem_statement)),
        "problem_statement: |\n  # Describe the problem being addressed\n  # Include scope and impact"@,
        "problem_statement: |\n  "@,
    );
    let rc = text_of(opt_view(row.root_cause));
    let y2 = if rc.len() > 0 {
        replaced(y1, "root_cause: |\n    # Document the root cause"@, "root_cause: |\n    "@ + replaced(rc, "\n"@, "\n    "@))
    } else {
        y1
    };
    with_tags(y2, opt_view(row.tags))
}

/// Fills the generated template of a CAPA with the row's values.
pub fn capa_file(template: &str, row: &CapaRow) -> (r: String)
    ensures
        r@ == capa_file_text(template@, row),
{
    proof {
        reveal_strlit("problem_statement: |\n  # Describe the problem being addressed\n  # Include scope and impact");
        reveal_strlit("root_cause: |\n    # Document the root cause");
        reveal_strlit("\n");
        reveal_strlit("");
        assert(""@ =~= Seq::<char>::empty());
    }
    let problem: &str = match &row.problem_statement {
        Some(p) => p.as_str(),
        None => "",
    };
    let y = fill_block(
        template.to_owned(),
        problem,
        "problem_statement: |\n  # Describe the problem being addressed\n  # Include scope and impact",
        "problem_statement: |\n  ",
    );
    let rc: &str = match &row.root_cause {
        Some(c) => c.as_str(),
        None => "",
    };
    let y = if !is_empty_text(rc) {
        let ind = replace_all(rc, "\n", "\n    ");
        let with = concat_texts("root_cause: |\n    ", ind.as_str());
        replace_all(y.as_str(), "root_cause: |\n    # Document the root cause", with.as_str())
    } else {
        y
    };
    fill_tags(y, &row.tags)
}

/// The fields of a quotation row. The unit price is kept as typed; it is a
/// decimal number read outside this library.
pub struct QuoteRow {
    pub title: String,
    pub supplier: String,
    pub component: String,
    pub currency: String,
    pub unit_price: Option<String>,
    pub lead_time_days: Option<u32>,
    pub moq: Option<u32>,
    pub description: Option<String>,
    pub tags: Option<String>,
}

/// Reads a quotation row: the title is required; the currency defaults to
/// USD.
pub fn read_quote_row(record: &Vec<String>, keys: &Vec<String>) -> (r: Result<QuoteRow, RowError>)
    ensures
        ({
            let rec = ids_view(record@);
            let ks = ids_view(keys@);
            &&& field_value(rec, ks, "title"@) is None ==> r == Err::<QuoteRow, RowError>(RowError::MissingTitle)
            &&& field_value(rec, ks, "title"@) is Some ==> (r matches Ok(row) && {
                &&& Some(row.title@) == field_value(rec, ks, "title"@)
                &&& row.supplier@ == value_or(field_value(rec, ks, "supplier"@), Seq::empty())
                &&& row.component@ == value_or(field_value(rec, ks, "component"@), Seq::empty())
                &&& row.currency@ == value_or(field_value(rec, ks, "currency"@), "USD"@)
                &&& opt_view(row.unit_price) == field_value(rec, ks, "unit_price"@)
                &&& row.lead_time_days == field_u32(rec, ks, "lead_time_days"@)
                &&& row.moq == field_u32(rec, ks, "moq"@)
                &&& opt_view(row.description) == field_value(rec, ks, "description"@)
                &&& opt_view(row.tags) == field_value(rec, ks, "tags"@)
            })
        }),
{
    let title = match get_field(record, keys, "title") {
        Some(t) => t,
        None => {
            return Err(RowError::MissingTitle);
        },
    };
    let supplier = field_or(record, keys, "supplier", "");
    let component = field_or(record, keys, "component", "");
    proof {
        reveal_strlit("");
    }
    Ok(QuoteRow {
        title,
        supplier,
        component,
        currency: field_or(record, keys, "currency", "USD"),
        unit_price: get_field(record, keys, "unit_price"),
        lead_time_days: get_u32_field(record, keys, "lead_time_days"),
        moq: get_u32_field(record, keys, "moq"),
        description: get_field(record, keys, "description"),
        tags: get_field(record, keys, "tags"),
    })
}

/// The text of a new quotation file: the generated template with the row's
/// currency, unit price (`price`, as written into the file), lead time (in
/// the first two places it appears), minimum order quantity, description
/// and tags filled in.
pub open spec fn quote_file_text(template: Seq<char>, row: &QuoteRow, price: Option<Seq<char>>) -> Seq<char> {
    let y1 = replaced(template, "currency: USD"@, "currency: "@ + row.currency@);
    let y2 = with_plain(y1, price, "unit_price: 0.00"@, "unit_price: "@, Seq::empty());
    let y3 = match row.lead_time_days {
        Some(lt) => replaced_first(
            replaced_first(y2, "lead_time_days: 14"@, "lead_time_days: "@ + decimal(lt as nat)),
            "lead_time_days: 14"@,
            "lead_time_days: "@ + decimal(lt as nat),
        ),
        None => y2,
    };
    let y4 = match row.moq {
        Some(m) => replaced(y3, "moq: null"@, "moq: "@ + decimal(m as nat)),
        None => y3,
    };
    let y5 = with_block(
        y4,
        text_of(opt_view(row.description)),
        "description: |\n  # Notes about this quote\n  # Include any special terms or conditions"@,
        "description: |\n  "@,
    );
    with_tags(y5, opt_view(row.tags))
}

/// Fills the generated template of a quotation with the row's values.
pub fn quote_file(template: &str, row: &QuoteRow, price: Option<&str>) -> (r: String)
    ensures
        r@ == quote_file_text(template@, row, match price {
            Some(p) => Some(p@),
            None => None,
        }),
{
    proof {
        reveal_strlit("currency: USD");
        reveal_strlit("unit_price: 0.00");
        reveal_strlit("lead_time_days: 14");
        reveal_strlit("moq: null");
        reveal_strlit("description: |\n  # Notes about this quote\n  # Include any special terms or conditions");
        reveal_strlit("");
        assert(""@ =~= Seq::<char>::empty());
    }
    let with = concat_texts("currency: ", row.currency.as_str());
    let y = replace_all(template, "currency: USD", with.as_str());
    let y = fill_plain(y, price, "unit_price: 0.00", "unit_price: ", "");
    let y = match row.lead_time_days {
        Some(lt) => {
            let d = decimal_text(lt as usize);
            let with = concat_texts("lead_time_days: ", d.as_str());
            let once = replace_first(y.as_str(), "lead_time_days: 14", with.as_str());
            replace_first(once.as_str(), "lead_time_days: 14", with.as_str())
        },
        None => y,
    };
    let y = match row.moq {
        Some(m) => {
            let d = decimal_text(m as usize);
            let with = concat_texts("moq: ", d.as_str());
            replace_all(y.as_str(), "moq: null", with.as_str())
        },
        None => y,
    };
    let description: &str = match &row.description {
        Some(d) => d.as_str(),
        None => "",
    };
    let y = fill_block(
        y,
        description,
        "description: |\n  # Notes about this quote\n  # Include any special terms or conditions",
        "description: |\n  ",
    );
    fill_tags(y, &row.tags)
}


/// The cells of a CSV text as the `csv` crate reads it with a header row,
/// rows of any length and every cell trimmed: the header cells and, for each
/// record, its cells or the message of the error that stopped it; or the
/// message of the error that stopped the header row.
pub uninterp spec fn csv_cells(bytes: Seq<u8>) -> Result<(Seq<Seq<char>>, Seq<Result<Seq<Seq<char>>, Seq<char>>>), Seq<char>>;

/// The records of a CSV text: each one's cells, or the message of the error
/// that stopped it.
pub type CsvRecords = Vec<Result<Vec<String>, String>>;

/// The records, each taken by its view.
pub open spec fn records_view(records: Seq<Result<Vec<String>, String>>) -> Seq<Result<Seq<Seq<char>>, Seq<char>>> {
    records.map_values(|r: Result<Vec<String>, String>| match r {
        Ok(cells) => Ok(ids_view(cells@)),
        Err(m) => Err(m@),
    })
}

/// Reads a CSV text with `csv::ReaderBuilder` (header row, flexible row
/// lengths, cells trimmed): the result is named [`csv_cells`] of the bytes.
#[verifier::external_body]
fn read_csv_cells(bytes: &[u8]) -> (r: Result<(Vec<String>, CsvRecords), String>)
    ensures
        match r {
            Ok((h, recs)) => csv_cells(bytes@) == Ok::<(Seq<Seq<char>>, Seq<Result<Seq<Seq<char>>, Seq<char>>>), Seq<char>>((ids_view(h@), records_view(recs@))),
            Err(m) => csv_cells(bytes@) == Err::<(Seq<Seq<char>>, Seq<Result<Seq<Seq<char>>, Seq<char>>>), Seq<char>>(m@),
        },
{
    let mut rdr = csv::ReaderBuilder::new().has_headers(true).flexible(true).trim(csv::Trim::All).from_reader(bytes);
    let headers = rdr.headers().map_err(|e| e.to_string())?.iter().map(|h| h.to_string()).collect();
    let records = rdr.records().map(|r| r.map(|rec| rec.iter().map(|c| c.to_string()).collect()).map_err(|e| e.to_string())).collect();
    Ok((headers, records))
}

/// An import's CSV file, read: the lookup keys of its columns and its
/// records.
pub struct ImportTable {
    pub keys: Vec<String>,
    pub records: CsvRecords,
}

/// Reads an import's CSV file (its bytes): the header row gives the lookup
/// keys, lower-cased and trimmed; the error is the reader's message when the
/// header row cannot be read.
pub fn read_import_table(bytes: &[u8]) -> (r: Result<ImportTable, String>)
    ensures
        match csv_cells(bytes@) {
            Ok((h, recs)) => r matches Ok(t) && ids_view(t.keys@) == h.map_values(|x: Seq<char>| header_key(x))
                && records_view(t.records@) == recs,
            Err(m) => r matches Err(e) && e@ == m,
        },
{
    match read_csv_cells(bytes) {
        Ok((headers, records)) => {
            let keys = header_keys(&headers);
            assert(headers@.map_values(|h: String| header_key(h@)) =~= ids_view(headers@).map_values(|x: Seq<char>| header_key(x)));
            Ok(ImportTable { keys, records })
        },
        Err(m) => Err(m),
    }
}

} // verus!
