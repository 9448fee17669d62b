use tdt::cmp::{component_matches, component_sort_key, CategoryFilter, ComponentFilters, ComponentSummary, ListColumn, MakeBuyFilter, StatusFilter};
use tdt::common::Timestamp;
use tdt::entities::{ComponentCategory, MakeBuy, Status};
use tdt::listing::{optional_text_sort_key, stable_sort_order, SortKey};

const DAY: i64 = 86_400;

fn at(secs: i64) -> Timestamp {
    Timestamp { secs, nanos: 0 }
}

fn no_filters() -> ComponentFilters {
    ComponentFilters {
        make_buy: MakeBuyFilter::All,
        category: CategoryFilter::All,
        status: StatusFilter::All,
        search: None,
        author: None,
        recent: None,
        long_lead: None,
        single_source: false,
        no_quote: false,
    }
}

fn component(id: &str, revision: Option<&str>, lead_times: Vec<Option<u32>>, created: i64) -> ComponentSummary {
    ComponentSummary {
        id: id.to_string(),
        part_number: format!("PN-{}", id),
        revision: revision.map(|r| r.to_string()),
        title: "Hydraulic Seal".to_string(),
        description: Some("Nitrile o-ring".to_string()),
        author: "Dana Smith".to_string(),
        make_buy: MakeBuy::Buy,
        category: ComponentCategory::Mechanical,
        status: Status::Draft,
        supplier_lead_times: lead_times,
        created: at(created),
    }
}

#[test]
fn component_filters_by_choice_and_text() {
    let c = component("CMP@1", None, vec![Some(30)], 0);
    let quoted: Vec<String> = vec![];
    let now = at(0);
    assert!(component_matches(&no_filters(), &c, &quoted, now));
    assert!(!component_matches(&ComponentFilters { make_buy: MakeBuyFilter::Make, ..no_filters() }, &c, &quoted, now));
    assert!(!component_matches(&ComponentFilters { category: CategoryFilter::Electrical, ..no_filters() }, &c, &quoted, now));
    assert!(component_matches(&ComponentFilters { status: StatusFilter::Draft, ..no_filters() }, &c, &quoted, now));
    assert!(component_matches(&ComponentFilters { search: Some("O-RING".to_string()), ..no_filters() }, &c, &quoted, now));
    assert!(component_matches(&ComponentFilters { search: Some("pn-cmp".to_string()), ..no_filters() }, &c, &quoted, now));
    assert!(!component_matches(&ComponentFilters { search: Some("gasket".to_string()), ..no_filters() }, &c, &quoted, now));
    assert!(component_matches(&ComponentFilters { author: Some("smith".to_string()), ..no_filters() }, &c, &quoted, now));
}

#[test]
fn component_filters_by_supply_and_age() {
    let single = component("CMP@1", None, vec![Some(30)], 0);
    let dual = component("CMP@2", None, vec![None, Some(5)], 0);
    let none: Vec<String> = vec![];
    let now = at(10 * DAY);
    let long = ComponentFilters { long_lead: Some(14), ..no_filters() };
    assert!(component_matches(&long, &single, &none, now));
    assert!(!component_matches(&long, &dual, &none, now));
    let one = ComponentFilters { single_source: true, ..no_filters() };
    assert!(component_matches(&one, &single, &none, now));
    assert!(!component_matches(&one, &dual, &none, now));
    let recent = ComponentFilters { recent: Some(7), ..no_filters() };
    assert!(!component_matches(&recent, &single, &none, now));
    assert!(component_matches(&ComponentFilters { recent: Some(10), ..no_filters() }, &single, &none, now));
    let quoted = vec!["CMP@1".to_string()];
    let unquoted = ComponentFilters { no_quote: true, ..no_filters() };
    assert!(!component_matches(&unquoted, &single, &quoted, now));
    assert!(component_matches(&unquoted, &dual, &quoted, now));
}

#[test]
fn missing_revisions_sort_first() {
    let cs = vec![
        component("CMP@1", Some("B"), vec![], 0),
        component("CMP@2", None, vec![], 0),
        component("CMP@3", Some("A"), vec![], 0),
        component("CMP@4", Some(""), vec![], 0),
    ];
    let keys: Vec<SortKey> = cs.iter().map(|c| component_sort_key(ListColumn::Revision, c)).collect();
    assert_eq!(stable_sort_order(&keys, false), vec![1, 3, 2, 0]);
    assert_eq!(stable_sort_order(&keys, true), vec![0, 2, 3, 1]);
    assert!(matches!(optional_text_sort_key(&None), SortKey::Text(v) if v.is_empty()));
    assert!(matches!(optional_text_sort_key(&Some("A".to_string())), SortKey::Text(v) if v == vec!['\0', 'A']));
}

#[test]
fn components_sort_by_creation_time() {
    let cs = vec![component("CMP@1", None, vec![], 20), component("CMP@2", None, vec![], 10), component("CMP@3", None, vec![], 20)];
    let keys: Vec<SortKey> = cs.iter().map(|c| component_sort_key(ListColumn::Created, c)).collect();
    assert_eq!(stable_sort_order(&keys, false), vec![1, 0, 2]);
    assert_eq!(stable_sort_order(&keys, true), vec![0, 2, 1]);
}
