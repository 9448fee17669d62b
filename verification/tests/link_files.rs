use serde_yml::Value;
use tdt::link::{add_link_to_yaml, broken_link_lines, fix_broken_links, link_check_summary, entity_id_and_title, file_incoming_links, file_link_checks, links_in_yaml, remove_link_from_yaml, LinkEditError, LinkFileError, LinkValue, LinksField};

fn links(text: &str) -> Value {
    let doc: Value = serde_yml::from_str(text).unwrap();
    doc.get("links").cloned().unwrap_or(Value::Null)
}

fn texts(v: &Value) -> Vec<String> {
    v.as_sequence().unwrap().iter().map(|x| x.as_str().unwrap_or("<other>").to_string()).collect()
}

const REQ: &str = "id: REQ-1\ntitle: Stroke\nlinks:\n  verified_by:\n  - TEST-1\n  satisfied_by: []\n";

#[test]
fn links_are_read_from_entity_text() {
    match links_in_yaml(REQ).unwrap() {
        Some(LinksField::Mapping(es)) => {
            assert_eq!(es.len(), 2);
            assert_eq!(es[0].key, "verified_by");
            assert!(matches!(&es[0].value, LinkValue::List(v) if v == &vec![Some("TEST-1".to_string())]));
        }
        _ => panic!("expected a links mapping"),
    }
    assert!(matches!(links_in_yaml("id: X\n").unwrap(), Some(LinksField::Absent)));
    assert!(matches!(links_in_yaml("- a\n- b\n").unwrap(), None));
    assert!(matches!(links_in_yaml("links: 3\n").unwrap(), Some(LinksField::NotMapping)));
    assert!(links_in_yaml("a: [1, 2\n").is_err());
}

#[test]
fn adding_a_link_to_a_file_appends_the_target_once() {
    let out = add_link_to_yaml(REQ, "verified_by", "TEST-2").unwrap();
    assert_eq!(texts(&links(&out)["verified_by"]), vec!["TEST-1", "TEST-2"]);
    let again = add_link_to_yaml(&out, "verified_by", "TEST-2").unwrap();
    assert_eq!(texts(&links(&again)["verified_by"]), vec!["TEST-1", "TEST-2"]);
    let doc: Value = serde_yml::from_str(&out).unwrap();
    assert_eq!(doc.get("title").and_then(Value::as_str), Some("Stroke"));
}

#[test]
fn adding_a_link_creates_the_links_section() {
    let out = add_link_to_yaml("id: RISK-1\ntitle: Leak\n", "requirement", "REQ-1").unwrap();
    assert_eq!(links(&out).get("requirement").and_then(Value::as_str), Some("REQ-1"));
    let list = add_link_to_yaml("id: RISK-1\n", "mitigations", "CTRL-1").unwrap();
    assert_eq!(texts(&links(&list)["mitigations"]), vec!["CTRL-1"]);
}

#[test]
fn items_that_are_not_text_stay_in_the_list() {
    let text = "links:\n  verified_by:\n  - 7\n  - TEST-1\n";
    let out = add_link_to_yaml(text, "verified_by", "TEST-2").unwrap();
    assert_eq!(texts(&links(&out)["verified_by"]), vec!["<other>", "TEST-1", "TEST-2"]);
    let removed = remove_link_from_yaml(&out, "verified_by", "TEST-1").unwrap();
    assert_eq!(texts(&links(&removed)["verified_by"]), vec!["<other>", "TEST-2"]);
}

#[test]
fn removing_a_link_from_a_file() {
    let out = remove_link_from_yaml(REQ, "verified_by", "TEST-1").unwrap();
    assert!(texts(&links(&out)["verified_by"]).is_empty());
    let single = remove_link_from_yaml("links:\n  component: CMP-1\n", "component", "CMP-1").unwrap();
    assert!(links(&single).get("component").unwrap().is_null());
    let other = remove_link_from_yaml("links:\n  component: CMP-1\n", "component", "CMP-2").unwrap();
    assert_eq!(links(&other).get("component").and_then(Value::as_str), Some("CMP-1"));
}

#[test]
fn link_file_errors() {
    assert!(matches!(remove_link_from_yaml("id: X\n", "verified_by", "T"), Err(LinkFileError::Edit(LinkEditError::NoLinksSection))));
    assert!(matches!(remove_link_from_yaml(REQ, "risks", "T"), Err(LinkFileError::Edit(LinkEditError::UnknownLinkType))));
    assert!(matches!(add_link_to_yaml("links: [a]\n", "risks", "T"), Err(LinkFileError::Edit(LinkEditError::NotMapping))));
    assert!(matches!(add_link_to_yaml("links:\n  risks: {a: 1}\n", "risks", "T"), Err(LinkFileError::Edit(LinkEditError::UnexpectedFormat))));
    assert!(matches!(add_link_to_yaml("- a\n", "risks", "T"), Err(LinkFileError::NotADocumentMapping)));
    assert!(matches!(add_link_to_yaml("a: [1, 2\n", "risks", "T"), Err(LinkFileError::Yaml(_))));
}

#[test]
fn entity_files_name_their_id_and_title() {
    assert_eq!(entity_id_and_title(REQ), Some(("REQ-1".to_string(), "Stroke".to_string())));
    assert_eq!(entity_id_and_title("id: X-1\n"), Some(("X-1".to_string(), "(untitled)".to_string())));
    assert_eq!(entity_id_and_title("title: no id\n"), None);
    assert_eq!(entity_id_and_title("id: [1, 2\n"), None);
}

#[test]
fn link_checks_of_an_entity_file() {
    let ids = vec!["TEST-1ABC".to_string()];
    let (id, checks) = file_link_checks("id: REQ-1\nlinks:\n  verified_by:\n  - TEST-1\n  - 5\n  - TEST-9\n  parent: REQ-0\n", &ids).unwrap();
    assert_eq!(id, "REQ-1");
    let seen: Vec<(String, String, bool)> = checks.into_iter().map(|c| (c.link_type, c.target, c.found)).collect();
    assert_eq!(
        seen,
        vec![
            ("verified_by".to_string(), "TEST-1".to_string(), true),
            ("verified_by".to_string(), "TEST-9".to_string(), false),
            ("parent".to_string(), "REQ-0".to_string(), false),
        ]
    );
    assert!(file_link_checks("title: x\n", &ids).is_none());
    assert_eq!(file_link_checks("id: A\n", &ids).map(|(_, c)| c.len()), Some(0));
}

#[test]
fn incoming_links_of_an_entity_file() {
    let text = "id: RISK-1\nlinks:\n  requirement: REQ-1\n  affects:\n  - REQ-1\n  - FEAT-2\n";
    assert_eq!(file_incoming_links(text, "REQ-1"), Some(("RISK-1".to_string(), vec!["requirement".to_string(), "affects".to_string()])));
    assert_eq!(file_incoming_links(text, "RISK-1"), Some(("RISK-1".to_string(), vec![])));
    assert_eq!(file_incoming_links("links: {}\n", "REQ-1"), None);
}

#[test]
fn removing_a_just_added_link_restores_the_links() {
    let out = add_link_to_yaml(REQ, "verified_by", "TEST-9").unwrap();
    assert_ne!(links(&out), links(REQ));
    let back = remove_link_from_yaml(&out, "verified_by", "TEST-9").unwrap();
    assert_eq!(links(&back), links(REQ));
    let doc: Value = serde_yml::from_str(&back).unwrap();
    assert_eq!(doc, serde_yml::from_str::<Value>(REQ).unwrap());
}

#[test]
fn a_single_value_link_is_replaced() {
    let out = add_link_to_yaml("id: RISK-1\nlinks:\n  component: CMP-1\n", "component", "CMP-2").unwrap();
    assert_eq!(links(&out)["component"].as_str(), Some("CMP-2"));
}

#[test]
fn broken_links_are_listed_with_their_fix() {
    let (source, checks) = file_link_checks(REQ, &["REQ-1".to_string()]).unwrap();
    let lines = broken_link_lines(&source, &checks, true);
    assert_eq!(lines, vec![
        "\u{2717} REQ-1 \u{2192} TEST-1 (verified_by) - target not found".to_string(),
        "  fix: Would remove broken link".to_string(),
    ]);
    assert_eq!(broken_link_lines(&source, &checks, false).len(), 1);
    let long = "REQ-01HC2JB7SMQX7RS1Y0GFKBHPTD";
    let text = format!("id: {}\nlinks:\n  verified_by:\n  - TEST-01HC2JB7SMQX7RS1Y0GFKBHPTD\n", long);
    let (source, checks) = file_link_checks(&text, &[]).unwrap();
    assert_eq!(broken_link_lines(&source, &checks, false), vec!["\u{2717} REQ-01HC2JB7S... \u{2192} TEST-01HC2JB7... (verified_by) - target not found".to_string()]);
    let (_, fine) = file_link_checks(REQ, &["TEST-1".to_string()]).unwrap();
    assert!(broken_link_lines("REQ-1", &fine, true).is_empty());
}

#[test]
fn link_check_summary_counts_and_fails_on_broken_links() {
    let (lines, err) = link_check_summary(3, 1);
    assert_eq!(lines, vec![String::new(), "\u{2500}".repeat(60), "Checked 3 link(s), found 1 broken".to_string()]);
    assert_eq!(err, Some("1 broken link(s) found".to_string()));
    let (lines, err) = link_check_summary(2, 0);
    assert_eq!(lines[3], "\u{2713} All links are valid!");
    assert_eq!(err, None);
}

#[test]
fn fixing_removes_every_broken_link() {
    let text = "id: REQ-1\nlinks:\n  verified_by:\n  - TEST-1\n  - TEST-2\n  - TEST-1\n  component: CMP-9\n  risks: []\n";
    let (id, fixed) = fix_broken_links(text, &["TEST-2".to_string()]).unwrap();
    assert_eq!(id, "REQ-1");
    let fixed = fixed.unwrap();
    assert_eq!(texts(&links(&fixed)["verified_by"]), vec!["TEST-2"]);
    assert!(links(&fixed)["component"].is_null());
    let (_, checks) = file_link_checks(&fixed, &["TEST-2".to_string()]).unwrap();
    assert!(checks.iter().all(|c| c.found));
}

#[test]
fn fixing_a_sound_file_leaves_its_text() {
    let (_, fixed) = fix_broken_links(REQ, &["TEST-1".to_string()]).unwrap();
    assert_eq!(fixed.unwrap(), REQ);
    assert!(fix_broken_links("title: no id\n", &[]).is_none());
    assert!(fix_broken_links("a: [1, 2\n", &[]).is_none());
}
