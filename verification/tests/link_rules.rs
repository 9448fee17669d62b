use tdt::identity::EntityPrefix;
use tdt::link::{
    add_link_entry, check_links, entity_exists, find_entity_match, get_reciprocal_link_type, get_search_dirs_for_query,
    incoming_link_types, infer_link_type, is_array_link_type, remove_link_entry, resolve_add_link_type,
    resolve_remove_link_type, wants_reciprocal, AddLinkArgs, FindError, LinkEditError, LinkEntry, LinkTypeError,
    LinkValue, LinksField, RemoveLinkArgs,
};

fn list(items: &[&str]) -> LinkValue {
    LinkValue::List(items.iter().map(|s| Some(s.to_string())).collect())
}

fn entry(key: &str, value: LinkValue) -> LinkEntry {
    LinkEntry { key: key.to_string(), value }
}

fn targets(es: &[LinkEntry], key: &str) -> Option<Vec<String>> {
    es.iter().find(|e| e.key == key).and_then(|e| match &e.value {
        LinkValue::List(v) => Some(v.iter().flatten().cloned().collect()),
        LinkValue::Single(s) => Some(vec![s.clone()]),
        LinkValue::Null => Some(vec![]),
        LinkValue::Other => None,
    })
}

#[test]
fn link_types_are_inferred_from_entity_kinds() {
    assert_eq!(infer_link_type(EntityPrefix::Req, EntityPrefix::Test), Some("verified_by".to_string()));
    assert_eq!(infer_link_type(EntityPrefix::Risk, EntityPrefix::Proc), Some("process".to_string()));
    assert_eq!(infer_link_type(EntityPrefix::Risk, EntityPrefix::Cmp), Some("affects".to_string()));
    assert_eq!(infer_link_type(EntityPrefix::Lot, EntityPrefix::Lot), Some("related_to".to_string()));
    assert_eq!(infer_link_type(EntityPrefix::Cmp, EntityPrefix::Cmp), Some("replaces".to_string()));
    assert_eq!(infer_link_type(EntityPrefix::Lot, EntityPrefix::Req), None);
}

#[test]
fn reciprocal_link_types() {
    assert_eq!(get_reciprocal_link_type("verified_by", EntityPrefix::Test), Some("verifies".to_string()));
    assert_eq!(get_reciprocal_link_type("verifies", EntityPrefix::Req), Some("verified_by".to_string()));
    assert_eq!(get_reciprocal_link_type("tests", EntityPrefix::Test), Some("component".to_string()));
    assert_eq!(get_reciprocal_link_type("ncrs", EntityPrefix::Ncr), Some("from_result".to_string()));
    assert_eq!(get_reciprocal_link_type("supplier", EntityPrefix::Sup), None);
}

#[test]
fn single_and_list_link_types() {
    assert!(!is_array_link_type("component"));
    assert!(!is_array_link_type("test"));
    assert!(is_array_link_type("verified_by"));
}

#[test]
fn entity_exists_by_prefix() {
    let ids = vec!["REQ-ABC123".to_string(), "TEST-XYZ".to_string()];
    assert!(entity_exists(&ids, "REQ-ABC"));
    assert!(entity_exists(&ids, "TEST-XYZ"));
    assert!(!entity_exists(&ids, "REQ-X"));
}

#[test]
fn search_dirs_follow_the_query_kind() {
    assert_eq!(get_search_dirs_for_query("req-01ABC"), vec!["requirements/inputs", "requirements/outputs"]);
    assert_eq!(get_search_dirs_for_query("CMP-1"), vec!["bom/components"]);
    let all = get_search_dirs_for_query("weird");
    assert_eq!(all.len(), 20);
    assert_eq!(get_search_dirs_for_query(""), all);
    assert_eq!(get_search_dirs_for_query("-01ABC"), all);
    for kind in ["REQ", "RISK", "TEST", "RSLT", "CMP", "ASM", "FEAT", "MATE", "TOL", "QUOT", "SUP", "PROC", "CTRL", "WORK", "NCR", "CAPA", "ACT"] {
        for d in get_search_dirs_for_query(kind) {
            assert!(all.contains(&d), "{} of {} is searched for unknown kinds", d, kind);
        }
    }
}

#[test]
fn adding_to_absent_links_creates_the_type() {
    let r = add_link_entry(LinksField::Absent, "verified_by", "TEST-1").unwrap();
    assert_eq!(r.len(), 1);
    assert_eq!(targets(&r, "verified_by"), Some(vec!["TEST-1".to_string()]));
}

#[test]
fn adding_a_single_value_link_replaces_it() {
    let r = add_link_entry(LinksField::Mapping(vec![entry("component", LinkValue::Single("CMP-1".into()))]), "component", "CMP-2").unwrap();
    assert!(matches!(&r[0].value, LinkValue::Single(s) if s == "CMP-2"));
    let fresh = add_link_entry(LinksField::Absent, "component", "CMP-9").unwrap();
    assert!(matches!(&fresh[0].value, LinkValue::Single(s) if s == "CMP-9"));
}

#[test]
fn adding_twice_is_idempotent() {
    let once = add_link_entry(LinksField::Mapping(vec![entry("verified_by", list(&["TEST-1"]))]), "verified_by", "TEST-2").unwrap();
    let twice = add_link_entry(LinksField::Mapping(once.clone()), "verified_by", "TEST-2").unwrap();
    assert_eq!(targets(&once, "verified_by"), targets(&twice, "verified_by"));
    assert_eq!(targets(&twice, "verified_by"), Some(vec!["TEST-1".to_string(), "TEST-2".to_string()]));
}

#[test]
fn link_edit_errors() {
    assert!(matches!(add_link_entry(LinksField::NotMapping, "verified_by", "T"), Err(LinkEditError::NotMapping)));
    assert!(matches!(add_link_entry(LinksField::Mapping(vec![entry("verified_by", LinkValue::Other)]), "verified_by", "T"), Err(LinkEditError::UnexpectedFormat)));
    assert!(matches!(remove_link_entry(LinksField::Absent, "verified_by", "T"), Err(LinkEditError::NoLinksSection)));
    assert!(matches!(remove_link_entry(LinksField::Mapping(vec![]), "verified_by", "T"), Err(LinkEditError::UnknownLinkType)));
    assert!(matches!(remove_link_entry(LinksField::NotMapping, "verified_by", "T"), Err(LinkEditError::UnknownLinkType)));
}

#[test]
fn removing_after_adding_drops_the_target() {
    let start = vec![entry("verified_by", list(&["TEST-1"]))];
    let added = add_link_entry(LinksField::Mapping(start), "verified_by", "TEST-2").unwrap();
    let removed = remove_link_entry(LinksField::Mapping(added), "verified_by", "TEST-2").unwrap();
    assert_eq!(targets(&removed, "verified_by"), Some(vec!["TEST-1".to_string()]));
    let single = remove_link_entry(LinksField::Mapping(vec![entry("component", LinkValue::Single("CMP-1".into()))]), "component", "CMP-1").unwrap();
    assert!(matches!(single[0].value, LinkValue::Null));
}

#[test]
fn incoming_links_name_their_types() {
    let links = LinksField::Mapping(vec![entry("verified_by", list(&["TEST-1", "TEST-1"])), entry("risks", list(&["RISK-1"]))]);
    assert_eq!(incoming_link_types("REQ-1", &links, "TEST-1"), vec!["verified_by".to_string(), "verified_by".to_string()]);
    assert!(incoming_link_types("TEST-1", &links, "TEST-1").is_empty());
}

#[test]
fn broken_links_are_found() {
    let links = LinksField::Mapping(vec![entry("verified_by", list(&["TEST-1", "TEST-9"]))]);
    let ids = vec!["TEST-1ABC".to_string()];
    let checks = check_links(&links, &ids);
    assert_eq!(checks.len(), 2);
    assert!(checks[0].found);
    assert!(!checks[1].found);
    assert_eq!(checks[1].target, "TEST-9");
}

#[test]
fn entity_queries_resolve_to_one_match() {
    let ids = vec!["REQ-A1".to_string(), "REQ-A2".to_string(), "RISK-B".to_string()];
    assert_eq!(find_entity_match(&ids, "RISK"), Ok(2));
    assert_eq!(find_entity_match(&ids, "X"), Err(FindError::NotFound));
    assert_eq!(find_entity_match(&ids, "REQ-A"), Err(FindError::Ambiguous(vec![0, 1])));
}

#[test]
fn link_type_resolution() {
    let add = AddLinkArgs { source: "REQ-1".into(), target: "TEST-1".into(), link_type_pos: None, link_type_flag: Some("Verified_By".into()), reciprocal: true, no_reciprocal: false };
    assert_eq!(resolve_add_link_type(&add, EntityPrefix::Req, EntityPrefix::Test), Ok(("verified_by".to_string(), false)));
    let inferred = AddLinkArgs { link_type_flag: None, ..add };
    assert_eq!(resolve_add_link_type(&inferred, EntityPrefix::Req, EntityPrefix::Test), Ok(("verified_by".to_string(), true)));
    assert_eq!(resolve_add_link_type(&inferred, EntityPrefix::Lot, EntityPrefix::Req), Err(LinkTypeError::CannotInfer));
    assert!(wants_reciprocal(&inferred));
    let rm = RemoveLinkArgs { source: "A".into(), target: "B".into(), link_type_pos: None, link_type_flag: None, reciprocal: false };
    assert_eq!(resolve_remove_link_type(&rm), Err(LinkTypeError::Required));
    let rm2 = RemoveLinkArgs { link_type_pos: Some("RISKS".into()), ..rm };
    assert_eq!(resolve_remove_link_type(&rm2), Ok("risks".to_string()));
}
