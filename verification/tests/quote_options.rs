use tdt::quote::{lead_time_days, parse_u32, price_break_parts, PriceBreakError};
use tdt::args::OutputFormat;
use tdt::quote::{
    new_quote_from_answers, new_quote_from_options, quote_can_use_cache, quote_opens_editor, ListArgs, ListColumn,
    NewQuoteError, QuoteStatusFilter, QuotedItem, StatusFilter,
};

fn some(s: &str) -> Option<String> {
    Some(s.to_string())
}

#[test]
fn quote_needs_one_item_and_a_supplier() {
    assert!(matches!(new_quote_from_options(some("CMP@1"), some("ASM@1"), some("SUP@1"), None), Err(NewQuoteError::BothItems)));
    assert!(matches!(new_quote_from_options(None, None, some("SUP@1"), None), Err(NewQuoteError::NoItem)));
    assert!(matches!(new_quote_from_options(some("CMP@1"), None, None, None), Err(NewQuoteError::NoSupplier)));
    let (item, supplier, title) = new_quote_from_options(None, some("ASM@2"), some("SUP@1"), None).unwrap();
    assert!(matches!(item, QuotedItem::Assembly(a) if a == "ASM@2"));
    assert_eq!((supplier.as_str(), title.as_str()), ("SUP@1", "Quote"));
    let (item, _, title) = new_quote_from_options(some("CMP@1"), None, some("SUP@1"), some("Seals 2025")).unwrap();
    assert!(matches!(item, QuotedItem::Component(c) if c == "CMP@1"));
    assert_eq!(title, "Seals 2025");
}

#[test]
fn wizard_answers_prefer_a_named_component() {
    let (item, supplier, title) = new_quote_from_answers(some(""), some("ASM@3"), None, None);
    assert!(matches!(item, QuotedItem::Assembly(a) if a == "ASM@3"));
    assert_eq!((supplier.as_str(), title.as_str()), ("", "New Quote"));
    let (item, _, _) = new_quote_from_answers(some("CMP@9"), some("ASM@3"), some("SUP@2"), some("T"));
    assert!(matches!(item, QuotedItem::Component(c) if c == "CMP@9"));
}

#[test]
fn editor_opens_only_for_bare_quotes() {
    assert!(quote_opens_editor(false, false, false, false, false));
    assert!(!quote_opens_editor(false, false, false, true, false));
    assert!(!quote_opens_editor(false, false, false, false, true));
    assert!(!quote_opens_editor(false, true, false, false, false));
    assert!(!quote_opens_editor(false, false, true, false, false));
    assert!(quote_opens_editor(true, true, true, true, true));
}

fn list_args() -> ListArgs {
    ListArgs {
        quote_status: QuoteStatusFilter::All,
        status: StatusFilter::All,
        component: None,
        assembly: None,
        supplier: None,
        search: None,
        author: None,
        recent: None,
        columns: vec![ListColumn::Title],
        sort: ListColumn::Created,
        reverse: false,
        limit: None,
        count: false,
    }
}

#[test]
fn quote_cache_is_skipped_for_assemblies_age_and_whole_records() {
    assert!(quote_can_use_cache(&list_args(), OutputFormat::Tsv));
    assert!(!quote_can_use_cache(&list_args(), OutputFormat::Json));
    assert!(!quote_can_use_cache(&list_args(), OutputFormat::Yaml));
    assert!(!quote_can_use_cache(&ListArgs { assembly: some("ASM@1"), ..list_args() }, OutputFormat::Csv));
    assert!(!quote_can_use_cache(&ListArgs { recent: Some(3), ..list_args() }, OutputFormat::Csv));
    assert!(quote_can_use_cache(&ListArgs { supplier: some("SUP@1"), ..list_args() }, OutputFormat::Md));
}

#[test]
fn price_breaks_are_read_field_by_field() {
    assert_eq!(price_break_parts("100:5.00:14"), Ok((100, "5.00".to_string(), Some("14".to_string()))));
    assert_eq!(price_break_parts("500:4.50"), Ok((500, "4.50".to_string(), None)));
    assert_eq!(price_break_parts("+7:x"), Ok((7, "x".to_string(), None)));
    assert_eq!(price_break_parts("100"), Err(PriceBreakError::Format("100".to_string())));
    assert_eq!(price_break_parts("1:2:3:4"), Err(PriceBreakError::Format("1:2:3:4".to_string())));
    assert_eq!(price_break_parts("ten:5.00"), Err(PriceBreakError::Quantity("ten".to_string())));
    assert_eq!(price_break_parts("4294967296:1"), Err(PriceBreakError::Quantity("4294967296".to_string())));
    assert_eq!(price_break_parts(":1"), Err(PriceBreakError::Quantity(String::new())));
    assert_eq!(lead_time_days(&Some("14".to_string())), Ok(Some(14)));
    assert_eq!(lead_time_days(&None), Ok(None));
    assert_eq!(lead_time_days(&Some("2w".to_string())), Err(PriceBreakError::LeadTime("2w".to_string())));
    assert_eq!(parse_u32("4294967295"), Some(u32::MAX));
    assert_eq!(parse_u32("-1"), None);
}
