use tdt::identity::EntityPrefix;
use tdt::import::{
    component_file, effective_component_title, effective_short_name, finish_import, get_csv_example, get_csv_headers,
    get_field, header_keys, parse_entity_type, read_component_row, read_requirement_row, read_risk_row,
    read_supplier_row, record_row, requirement_file, risk_file, risk_subdir, row_number, supplier_file, tags_text,
    template_lines, ImportStats, RowError, RowOutcome,
};

fn strings(v: &[&str]) -> Vec<String> {
    v.iter().map(|s| s.to_string()).collect()
}

#[test]
fn entity_types_are_read_in_any_case() {
    assert_eq!(parse_entity_type("REQ"), Ok(EntityPrefix::Req));
    assert_eq!(parse_entity_type("Risk"), Ok(EntityPrefix::Risk));
    assert_eq!(parse_entity_type("quote"), Ok(EntityPrefix::Quot));
    assert_eq!(parse_entity_type("QUOT"), Ok(EntityPrefix::Quot));
}

#[test]
fn unsupported_entity_type_message() {
    assert_eq!(
        parse_entity_type("feat"),
        Err("Unsupported entity type: 'feat'. Supported: req, risk, cmp, sup, test, proc, ctrl, ncr, capa, quote".to_string())
    );
}

#[test]
fn templates_have_matching_example_rows() {
    for p in [EntityPrefix::Req, EntityPrefix::Risk, EntityPrefix::Cmp, EntityPrefix::Sup, EntityPrefix::Test, EntityPrefix::Proc, EntityPrefix::Ctrl, EntityPrefix::Ncr, EntityPrefix::Capa, EntityPrefix::Quot] {
        assert_eq!(get_csv_headers(p).len(), get_csv_example(p).len());
    }
    assert_eq!(get_csv_headers(EntityPrefix::Lot), vec!["title", "description", "tags"]);
    assert!(get_csv_example(EntityPrefix::Lot).is_empty());
}

#[test]
fn template_lines_for_requirements() {
    let (head, example) = template_lines(EntityPrefix::Req);
    assert_eq!(head, "title,type,priority,status,text,rationale,tags");
    assert_eq!(example.unwrap(), "\"Stroke Length\",input,critical,draft,\"The actuator shall have a minimum stroke length of 100mm\",\"Required for full range of motion\",\"mechanical,critical\"");
    let (_, none) = template_lines(EntityPrefix::Feat);
    assert_eq!(none, None);
}

#[test]
fn fields_are_looked_up_by_normalised_header() {
    let keys = header_keys(&strings(&[" Title ", "TYPE", "tags", "Title"]));
    assert_eq!(keys, strings(&["title", "type", "tags", "title"]));
    let record = strings(&["first", " design ", "   ", "  second  "]);
    assert_eq!(get_field(&record, &keys, "title"), Some("second".to_string()));
    assert_eq!(get_field(&record, &keys, "type"), Some("design".to_string()));
    assert_eq!(get_field(&record, &keys, "tags"), None);
    assert_eq!(get_field(&record, &keys, "missing"), None);
    let short = strings(&["only"]);
    assert_eq!(get_field(&short, &keys, "type"), None);
}

#[test]
fn risk_rows() {
    let keys = header_keys(&strings(&["title", "type", "severity", "occurrence", "detection", "failure_mode"]));
    let row = read_risk_row(&strings(&["Seal Failure", "", "8", "+4", "300", "Seal \"extrusion\""]), &keys).unwrap();
    assert_eq!(row.title, "Seal Failure");
    assert_eq!(row.risk_type, "design");
    assert_eq!((row.severity, row.occurrence, row.detection), (Some(8), Some(4), None));
    assert_eq!(row.description, "");
    assert!(matches!(read_risk_row(&strings(&["", "design"]), &keys), Err(RowError::MissingTitle)));
    assert_eq!(risk_subdir("process"), "process");
    assert_eq!(risk_subdir("design"), "design");
    assert_eq!(risk_subdir("other"), "design");
}

#[test]
fn risk_file_fills_the_template() {
    let keys = header_keys(&strings(&["title", "description", "failure_mode", "tags"]));
    let row = read_risk_row(&strings(&["Seal Failure", "Leaks\nunder load", "Seal \"extrusion\"", "seal, pressure"]), &keys).unwrap();
    let template = "title: x\ndescription: |\n  # Describe the risk scenario here\n  # What could go wrong? Under what conditions?\nfailure_mode: |\n  # How does this failure manifest?\ncause: |\n  # What is the root cause or mechanism?\ntags: []\n";
    let out = risk_file(template, &row);
    assert_eq!(out, "title: x\ndescription: |\n  Leaks\n  under load\nfailure_mode: \"Seal \\\"extrusion\\\"\"\ncause: |\n  # What is the root cause or mechanism?\ntags: [\"seal\", \"pressure\"]\n");
}

#[test]
fn tag_lists() {
    assert_eq!(tags_text("a, b ,c"), "tags: [\"a\", \"b\", \"c\"]");
    assert_eq!(tags_text("solo"), "tags: [\"solo\"]");
}

#[test]
fn requirement_rows_and_file() {
    let keys = header_keys(&strings(&["title", "status", "rationale", "text"]));
    let row = read_requirement_row(&strings(&["Stroke", "approved", "Needed \"now\"", ""]), &keys).unwrap();
    assert_eq!((row.req_type.as_str(), row.priority.as_str(), row.status.as_str()), ("input", "medium", "approved"));
    let out = requirement_file("status: draft\nrationale: \"\"\ntags: []", &row);
    assert_eq!(out, "status: approved\nrationale: \"Needed \\\"now\\\"\"\ntags: []");
}

#[test]
fn component_rows_and_file() {
    let keys = header_keys(&strings(&["part_number", "title", "material", "finish", "mass", "cost"]));
    let row = read_component_row(&strings(&["PN-001", "", "6061", "Anodize", "0.5", "125.00"]), &keys).unwrap();
    assert_eq!(effective_component_title(&row), "PN-001");
    assert_eq!(row.make_buy, "make");
    assert_eq!(row.category, "mechanical");
    assert_eq!(row.mass, Some("0.5".to_string()));
    let template = "material: \"6061\"\nmass_kg: null\nunit_cost: null\nother_cost: unit_cost: null\n";
    let out = component_file(template, &row, Some("0.5"), Some("125"));
    assert_eq!(out, "material: \"6061\"\nfinish: \"Anodize\"\nmass_kg: 0.5\nunit_cost: 125\nother_cost: unit_cost: null\n");
    assert!(matches!(read_component_row(&strings(&["", "", "x"]), &keys), Err(RowError::MissingTitleOrPartNumber)));
}

#[test]
fn supplier_rows_and_file() {
    let keys = header_keys(&strings(&["title", "short_name", "contact_email", "address"]));
    let row = read_supplier_row(&strings(&["acme Manufacturing Co.", "", "sales@acme.example.com", "1 \"Main\" St"]), &keys).unwrap();
    assert_eq!(effective_short_name(&row), "ACME");
    let out = supplier_file("contacts: []\naddresses: []\n", &row);
    assert_eq!(out, "contacts:\n  - name: \"Primary Contact\"\n    role: \"Sales\"\n    email: \"sales@acme.example.com\"\n    phone: \"\"\n    primary: true\naddresses:\n  - type: headquarters\n    street: \"1 \\\"Main\\\" St\"\n    city: \"\"\n    state: \"\"\n    postal: \"\"\n    country: \"\"\n");
    assert!(matches!(read_supplier_row(&strings(&["", ""]), &keys), Err(RowError::MissingTitleOrShortName)));
    let named = read_supplier_row(&strings(&["Big Co", "bc"]), &keys).unwrap();
    assert_eq!(effective_short_name(&named), "bc");
}

#[test]
fn import_statistics() {
    let mut s = ImportStats::new();
    assert!(record_row(&mut s, RowOutcome::Created, false));
    assert!(record_row(&mut s, RowOutcome::Checked, false));
    assert!(record_row(&mut s, RowOutcome::Failed, true));
    assert_eq!((s.rows_processed, s.entities_created, s.errors), (3, 1, 1));
    assert_eq!(finish_import(&s, true), Ok(()));
    assert!(!record_row(&mut s, RowOutcome::Failed, false));
    assert_eq!(finish_import(&s, false), Err(2));
    assert_eq!(row_number(0), 2);
}
