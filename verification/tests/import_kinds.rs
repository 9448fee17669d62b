use tdt::import::{
    capa_file, control_file, header_keys, ncr_file, process_file, quote_file, read_capa_row, read_control_row,
    read_import_table, read_ncr_row, read_process_row, read_quote_row, read_test_row, test_dir, test_file, RowError,
};

fn strings(v: &[&str]) -> Vec<String> {
    v.iter().map(|s| s.to_string()).collect()
}

#[test]
fn csv_bytes_are_read_with_trimmed_cells_and_lower_case_keys() {
    let table = read_import_table(b" Title ,TYPE\n  Seal  , design \nshort\n").unwrap();
    assert_eq!(table.keys, strings(&["title", "type"]));
    assert_eq!(table.records.len(), 2);
    assert_eq!(table.records[0], Ok(strings(&["Seal", "design"])));
    assert_eq!(table.records[1], Ok(strings(&["short"])));
}

#[test]
fn csv_quoted_cells_keep_commas() {
    let table = read_import_table(b"title,tags\n\"A, B\",\"x,y\"\n").unwrap();
    assert_eq!(table.records, vec![Ok(strings(&["A, B", "x,y"]))]);
}

#[test]
fn csv_record_that_is_not_text_is_an_error() {
    let table = read_import_table(b"title\n\xff\xfe\n").unwrap();
    assert_eq!(table.records.len(), 1);
    assert!(table.records[0].is_err());
}

#[test]
fn empty_csv_has_no_keys() {
    let table = read_import_table(b"").unwrap();
    assert!(table.keys.is_empty());
    assert!(table.records.is_empty());
}

#[test]
fn test_rows_take_defaults() {
    let keys = header_keys(&strings(&["title", "type", "objective", "tags"]));
    let row = read_test_row(&strings(&["Burst", "", "Holds 2x pressure", "a,b"]), &keys).unwrap();
    assert_eq!(row.test_type, "verification");
    assert_eq!(row.test_level, "unit");
    assert_eq!(row.test_method, "inspection");
    assert_eq!(row.priority, "medium");
    assert_eq!(row.estimated_duration, "1 hour");
    assert_eq!(row.category, "");
    assert_eq!(row.objective, Some("Holds 2x pressure".to_string()));
    assert!(matches!(read_test_row(&strings(&["", "x"]), &keys), Err(RowError::MissingTitle)));
    assert_eq!(test_dir("validation"), "validation/protocols");
    assert_eq!(test_dir("verification"), "verification/protocols");
    assert_eq!(test_dir("other"), "verification/protocols");
}

#[test]
fn test_file_fills_objective_and_tags() {
    let keys = header_keys(&strings(&["title", "objective", "tags"]));
    let row = read_test_row(&strings(&["Burst", "Line one\nline two", "a, b"]), &keys).unwrap();
    let template = "objective: |\n  # What does this test verify or validate?\n  # Be specific about success criteria\ndescription: |\n  # Detailed description of the test\n  # Include any background or context\ntags: []\n";
    assert_eq!(
        test_file(template, &row),
        "objective: |\n  Line one\n  line two\ndescription: |\n  # Detailed description of the test\n  # Include any background or context\ntags: [\"a\", \"b\"]\n"
    );
}

#[test]
fn process_rows_and_files() {
    let keys = header_keys(&strings(&["title", "operator_skill", "cycle_time_minutes"]));
    let row = read_process_row(&strings(&["Mill", "expert", "4.5"]), &keys).unwrap();
    assert_eq!(row.process_type, "machining");
    assert_eq!(row.cycle_time, Some("4.5".to_string()));
    let template = "cycle_time_minutes: null\nsetup_time_minutes: null\noperator_skill: intermediate\n";
    assert_eq!(
        process_file(template, &row, Some("4.5"), None),
        "cycle_time_minutes: 4.5\nsetup_time_minutes: null\noperator_skill: expert\n"
    );
}

#[test]
fn control_rows_read_the_critical_flag() {
    let keys = header_keys(&strings(&["title", "critical", "units"]));
    let yes = read_control_row(&strings(&["Bore", "TRUE", "in"]), &keys).unwrap();
    assert!(yes.critical);
    assert_eq!(yes.control_type, "inspection");
    assert_eq!(yes.control_category, "variable");
    assert_eq!(yes.units, "in");
    let one = read_control_row(&strings(&["Bore", "1", ""]), &keys).unwrap();
    assert!(one.critical);
    assert_eq!(one.units, "mm");
    let no = read_control_row(&strings(&["Bore", "yes", ""]), &keys).unwrap();
    assert!(!no.critical);
}

#[test]
fn control_file_fills_limits_and_units() {
    let keys = header_keys(&strings(&["title", "characteristic_name", "units"]));
    let row = read_control_row(&strings(&["Bore", "Diameter", "in"]), &keys).unwrap();
    let template = "control_category: variable\nname: \"\"\nnominal: 0.0\nupper_limit: 0.0\nlower_limit: 0.0\nunits: \"mm\"\n";
    assert_eq!(
        control_file(template, &row, Some("10"), Some("10.1"), None),
        "control_category: variable\nname: \"Diameter\"\nnominal: 10\nupper_limit: 10.1\nlower_limit: 0.0\nunits: \"in\"\n"
    );
}

#[test]
fn ncr_rows_and_files() {
    let keys = header_keys(&strings(&["title", "part_number", "quantity_affected"]));
    let row = read_ncr_row(&strings(&["Burr", "PN-7", "12"]), &keys).unwrap();
    assert_eq!((row.ncr_type.as_str(), row.severity.as_str(), row.category.as_str()), ("internal", "minor", "dimensional"));
    assert_eq!(row.quantity_affected, Some(12));
    let template = "part_number: \"\"\nquantity_affected: 1\ncharacteristic: \"\"\n";
    assert_eq!(ncr_file(template, &row), "part_number: \"PN-7\"\nquantity_affected: 12\ncharacteristic: \"\"\n");
    let bad = read_ncr_row(&strings(&["Burr", "", "many"]), &keys).unwrap();
    assert_eq!(bad.quantity_affected, None);
}

#[test]
fn capa_rows_and_files() {
    let keys = header_keys(&strings(&["title", "root_cause"]));
    let row = read_capa_row(&strings(&["Fix seal", "Wrong\nmaterial"]), &keys).unwrap();
    assert_eq!(row.capa_type, "corrective");
    assert_eq!(row.source_type, "ncr");
    let template = "root_cause: |\n    # Document the root cause\n";
    assert_eq!(capa_file(template, &row), "root_cause: |\n    Wrong\n    material\n");
    assert!(matches!(read_capa_row(&strings(&["", "x"]), &keys), Err(RowError::MissingTitle)));
}

#[test]
fn quote_rows_and_files() {
    let keys = header_keys(&strings(&["title", "currency", "lead_time_days", "moq"]));
    let row = read_quote_row(&strings(&["Seals", "", "21", "500"]), &keys).unwrap();
    assert_eq!(row.currency, "USD");
    assert_eq!((row.lead_time_days, row.moq), (Some(21), Some(500)));
    let template = "currency: USD\nunit_price: 0.00\nlead_time_days: 14\nmoq: null\n";
    assert_eq!(
        quote_file(template, &row, Some("1.25")),
        "currency: USD\nunit_price: 1.25\nlead_time_days: 21\nmoq: 500\n"
    );
}
