use tdt::capa::new_capa_file;
use tdt::cmp::new_component_file;
use tdt::feat::{new_feature_file, FeatureDimension};
use tdt::lot::new_lot_file;
use tdt::text::{indent_lines, lines_of};

#[test]
fn lines_follow_str_lines() {
    for text in ["", "a", "a\n", "a\nb", "a\r\nb\r\n", "\n", "\n\nx", "foo\r\nbar\n\nbaz\r", "x\r"] {
        let expected: Vec<String> = text.lines().map(String::from).collect();
        assert_eq!(lines_of(text), expected, "lines of {:?}", text);
    }
}

#[test]
fn blocks_are_indented_line_by_line() {
    assert_eq!(indent_lines("one\ntwo\n"), "  one\n  two");
    assert_eq!(indent_lines("solo"), "  solo");
    assert_eq!(indent_lines(""), "");
}

#[test]
fn new_capa_takes_the_problem_statement() {
    let template = "title: T\nproblem_statement: |\n  # Describe the problem being addressed\n  # Include scope and impact\nroot_cause: x\n";
    assert_eq!(
        new_capa_file(template, &Some("Seals leak\nat low temperature".to_string())),
        "title: T\nproblem_statement: |\n  Seals leak\n  at low temperature\nroot_cause: x\n"
    );
    assert_eq!(new_capa_file(template, &Some(String::new())), template);
    assert_eq!(new_capa_file(template, &None), template);
}

#[test]
fn new_component_takes_description_mass_and_cost() {
    let template = "description: |\n  # Detailed description of this component\n  # Include key specifications and requirements\nmass_kg: null\nunit_cost: null\n";
    assert_eq!(
        new_component_file(template, &Some("O-ring".to_string()), Some("0.25"), Some("1.5")),
        "description: |\n  O-ring\nmass_kg: 0.25\nunit_cost: 1.5\n"
    );
    assert_eq!(new_component_file(template, &None, None, Some("3")), template.replace("unit_cost: null", "unit_cost: 3"));
}

#[test]
fn new_lot_links_its_product() {
    let template = "links:\n  product: null\n  processes: []\n";
    assert_eq!(new_lot_file(template, Some("ASM-01")), "links:\n  product: \"ASM-01\"\n  processes: []\n");
    assert_eq!(new_lot_file(template, None), template);
}

#[test]
fn new_feature_takes_its_dimension() {
    let template = "dimensions:\n- name: \"diameter\"\n  nominal: 10.0\n  plus_tol: 0.1\n  minus_tol: 0.05\n";
    let d = FeatureDimension { name: "bore".into(), nominal: "12.5".into(), plus_tol: "0.02".into(), minus_tol: "0.01".into() };
    assert_eq!(
        new_feature_file(template, &d),
        "dimensions:\n- name: \"bore\"\n  nominal: 12.5\n  plus_tol: 0.02\n  minus_tol: 0.01\n"
    );
}
