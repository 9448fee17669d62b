use tdt::args::OutputFormat;
use tdt::assembly::{assembly_list_lines, cuts_at, AssemblyListRow, ListColumn as AssemblyColumn};
use tdt::lot::{lot_list_lines, ListColumn as LotColumn, LotListRow};
use tdt::ctrl::{control_list_lines, ControlListRow};
use tdt::mate::{mate_list_lines, MateListRow};
use tdt::capa::{capa_list_lines, CapaListRow, ListColumn as CapaColumn};
use tdt::cmp::{component_list_lines, ComponentListRow, ListColumn as ComponentColumn};
use tdt::proc::{process_list_lines, ListColumn as ProcessColumn, ProcessListRow};
use tdt::ncr::{ncr_list_lines, ListColumn as NcrColumn, NcrListRow};
use tdt::feat::{feature_list_lines, FeatureListRow, ListColumn as FeatureColumn};
use tdt::quote::{compare_lines, quote_compared, quote_list_lines, CompareRow, ListColumn as QuoteColumn, QuoteListRow};

fn some(s: &str) -> Option<String> {
    Some(s.to_string())
}

fn quote_row() -> QuoteListRow {
    QuoteListRow {
        id: "QUOT-01ABCDEFGHJKMNPQRS".to_string(),
        short_id: some("QUOT@1"),
        title: "Seals, 2025".to_string(),
        supplier: some("SUP-0001"),
        supplier_short: some("SUP@1"),
        component: some("CMP-0001"),
        component_short: some("CMP@1"),
        price: some("1.25"),
        lead_time_days: Some(14),
        quote_status: some("received"),
        status: "draft".to_string(),
        author: "Jane Doe".to_string(),
        created_day: "2025-01-02".to_string(),
    }
}

fn bare_quote() -> QuoteListRow {
    QuoteListRow {
        id: "QUOT-2".to_string(),
        short_id: None,
        title: "Bolts".to_string(),
        supplier: None,
        supplier_short: None,
        component: None,
        component_short: None,
        price: None,
        lead_time_days: None,
        quote_status: None,
        status: "review".to_string(),
        author: "Al".to_string(),
        created_day: "2025-02-03".to_string(),
    }
}

fn feature_row() -> FeatureListRow {
    FeatureListRow {
        id: "FEAT-01ABCDEFGHJKMNPQRS".to_string(),
        short_id: some("FEAT@1"),
        title: "Bore diameter".to_string(),
        feature_type: "internal".to_string(),
        status: "draft".to_string(),
        author: "Jane Doe".to_string(),
        created_day: "2025-01-02".to_string(),
        component_id: "CMP-01ABCDEFGHJKMNPQRS".to_string(),
        component_short: some("CMP@1"),
        part_number: "PN-100".to_string(),
        component_title: "Housing, main".to_string(),
    }
}

fn bare_feature() -> FeatureListRow {
    FeatureListRow {
        id: "FEAT-2".to_string(),
        short_id: None,
        title: "Shaft".to_string(),
        feature_type: "external".to_string(),
        status: "review".to_string(),
        author: "Al".to_string(),
        created_day: "2025-02-03".to_string(),
        component_id: "CMP-2".to_string(),
        component_short: None,
        part_number: String::new(),
        component_title: "A very long component title here".to_string(),
    }
}

#[test]
fn quote_list_without_quotes_says_so() {
    let r = quote_list_lines(&vec![], &vec![QuoteColumn::Id], false, OutputFormat::Csv);
    assert_eq!(r, vec!["No quotes found.".to_string()]);
    assert_eq!(quote_list_lines(&vec![], &vec![], true, OutputFormat::Csv), vec!["0".to_string()]);
}

#[test]
fn quote_list_count_gives_the_number() {
    let r = quote_list_lines(&vec![quote_row(), bare_quote()], &vec![QuoteColumn::Id], true, OutputFormat::Tsv);
    assert_eq!(r, vec!["2".to_string()]);
}

#[test]
fn quote_list_csv_quotes_the_title() {
    let r = quote_list_lines(&vec![quote_row(), bare_quote()], &vec![], false, OutputFormat::Csv);
    assert_eq!(r.len(), 3);
    assert_eq!(r[0], "short_id,id,title,supplier,linked_item,unit_price,lead_time,quote_status,status");
    assert_eq!(r[1], "QUOT@1,QUOT-01ABCDEFGHJKMNPQRS,\"Seals, 2025\",SUP@1,CMP-0001,1.25,14,received,draft");
    assert_eq!(r[2], ",QUOT-2,Bolts,-,-,,,-,review");
}

#[test]
fn quote_list_markdown_cuts_the_id() {
    let r = quote_list_lines(&vec![quote_row(), bare_quote()], &vec![], false, OutputFormat::Md);
    assert_eq!(r[0], "| Short | ID | Title | Supplier | For | Price | Lead | Q-Status |");
    assert_eq!(r[1], "|---|---|---|---|---|---|---|---|");
    assert_eq!(r[2], "| QUOT@1 | QUOT-01ABCDE... | Seals, 2025 | SUP@1 | CMP-0001 | 1.25 | 14d | received |");
    assert_eq!(r[3], "|  | QUOT-2 | Bolts | - | - | - | - | - |");
}

#[test]
fn quote_list_ids_and_short_ids() {
    let qs = vec![quote_row(), bare_quote()];
    assert_eq!(quote_list_lines(&qs, &vec![], false, OutputFormat::Id), vec!["QUOT-01ABCDEFGHJKMNPQRS".to_string(), "QUOT-2".to_string()]);
    assert_eq!(quote_list_lines(&qs, &vec![], false, OutputFormat::ShortId), vec!["QUOT@1".to_string(), String::new()]);
}

#[test]
fn quote_list_table_pads_each_column() {
    let cols = vec![QuoteColumn::Id, QuoteColumn::Supplier, QuoteColumn::Price];
    let r = quote_list_lines(&vec![quote_row(), bare_quote()], &cols, false, OutputFormat::Tsv);
    assert_eq!(r.len(), 6);
    assert_eq!(r[0], format!("{:<8} {:<17} {:<15} {:<10}", "SHORT", "ID", "SUPPLIER", "PRICE"));
    assert_eq!(r[1], "-".repeat(110));
    assert_eq!(r[2], format!("{:<8} {:<17} {:<15} {:<10}", "QUOT@1", "QUOT-01ABCDE...", "SUP@1", "1.25"));
    assert_eq!(r[3], format!("{:<8} {:<17} {:<15} {:<10}", "", "QUOT-2", "-", "-"));
    assert_eq!(r[4], "");
    assert_eq!(r[5], "2 quote(s) found. Use QUOT@N to reference by short ID.");
}

#[test]
fn feature_list_without_features_says_so() {
    let r = feature_list_lines(&vec![], &vec![FeatureColumn::Id], false, OutputFormat::Md);
    assert_eq!(r, vec!["No features found.".to_string()]);
    assert_eq!(feature_list_lines(&vec![], &vec![], true, OutputFormat::Md), vec!["0".to_string()]);
}

#[test]
fn feature_list_count_gives_the_number() {
    let r = feature_list_lines(&vec![feature_row(), bare_feature()], &vec![], true, OutputFormat::Csv);
    assert_eq!(r, vec!["2".to_string()]);
}

#[test]
fn feature_list_csv_quotes_fields() {
    let r = feature_list_lines(&vec![feature_row(), bare_feature()], &vec![], false, OutputFormat::Csv);
    assert_eq!(r.len(), 3);
    assert_eq!(r[0], "short_id,id,component,part_number,component_title,feature_type,title,status");
    assert_eq!(r[1], "FEAT@1,FEAT-01ABCDEFGHJKMNPQRS,CMP@1,PN-100,\"Housing, main\",internal,Bore diameter,draft");
    assert_eq!(r[2], ",FEAT-2,,,A very long component title here,external,Shaft,review");
}

#[test]
fn feature_list_markdown_cuts_ids() {
    let r = feature_list_lines(&vec![feature_row()], &vec![], false, OutputFormat::Md);
    assert_eq!(r, vec![
        "| Short | ID | Component | Type | Title | Status |".to_string(),
        "|---|---|---|---|---|---|".to_string(),
        "| FEAT@1 | FEAT-01ABCDE... | CMP-01ABCD... | internal | Bore diameter | draft |".to_string(),
    ]);
}

#[test]
fn feature_list_ids_and_short_ids() {
    let fs = vec![feature_row(), bare_feature()];
    assert_eq!(feature_list_lines(&fs, &vec![], false, OutputFormat::Id), vec!["FEAT-01ABCDEFGHJKMNPQRS".to_string(), "FEAT-2".to_string()]);
    assert_eq!(feature_list_lines(&fs, &vec![], false, OutputFormat::ShortId), vec!["FEAT@1".to_string(), String::new()]);
}

#[test]
fn feature_list_table_names_the_component() {
    let cols = vec![FeatureColumn::Id, FeatureColumn::Component, FeatureColumn::Description];
    let r = feature_list_lines(&vec![feature_row(), bare_feature()], &cols, false, OutputFormat::Tsv);
    assert_eq!(r.len(), 6);
    assert_eq!(r[0], format!("{:<8} {:<17} {:<40} {:<30}", "SHORT", "ID", "COMPONENT", "DESCRIPTION"));
    assert_eq!(r[1], "-".repeat(98));
    assert_eq!(r[2], format!("{:<8} {:<17} {:<40} {:<30}", "FEAT@1", "FEAT-01ABCDE...", "CMP@1 (PN-100) Housing, main", "-"));
    assert_eq!(r[3], format!("{:<8} {:<17} {:<40} {:<30}", "", "FEAT-2", "? A very long component ...", "-"));
    assert_eq!(r[4], "");
    assert_eq!(r[5], "2 feature(s) found. Use FEAT@N to reference by short ID.");
}

#[test]
fn rows_fit_unless_a_cut_splits_a_character() {
    assert!(cuts_at("short", 10));
    assert!(cuts_at("abcdefghijkl", 10));
    assert!(!cuts_at("abcdefé-long", 10));
    assert!(!cuts_at("abcdef", 2));
    assert!(quote_row().fits());
    let mut q = quote_row();
    q.title = "éééééééééééé".to_string();
    assert!(!q.fits());
    assert!(feature_row().fits());
    let mut f = bare_feature();
    f.component_title = format!("x{}", "ä".repeat(15));
    assert!(f.fits() == cuts_at(&f.component_title, 25) && !f.fits());
}

fn compare_row(title: &str, supplier: &str, price: Option<&str>) -> CompareRow {
    CompareRow {
        short_id: some("QUOT@2"),
        title: title.to_string(),
        supplier: supplier.to_string(),
        supplier_short: None,
        price: price.map(|p| p.to_string()),
        moq: Some(100),
        lead_time_days: Some(21),
        tooling: None,
        quote_status: "received".to_string(),
    }
}

#[test]
fn quotes_are_compared_by_component_or_assembly() {
    assert!(quote_compared(&some("CMP-01ABC"), &None, "CMP-01"));
    assert!(quote_compared(&None, &some("ASM-7"), "ASM-7"));
    assert!(!quote_compared(&some("CMP-2"), &some("ASM-2"), "CMP-3"));
    assert!(!quote_compared(&None, &None, "CMP-3"));
}

#[test]
fn comparison_without_quotes_says_so() {
    assert_eq!(compare_lines(&vec![], "CMP@1"), vec!["No quotes found for 'CMP@1'".to_string()]);
}

#[test]
fn comparison_table_names_the_lowest_price() {
    let rows = vec![compare_row("Seals", "SUP-ACME-INDUSTRIES", Some("1.25")), compare_row("Seals b", "SUP-2", None)];
    let r = compare_lines(&rows, "CMP@1");
    assert_eq!(r.len(), 8);
    assert_eq!(r[0], "Comparing 2 quotes for CMP@1");
    assert_eq!(r[1], "");
    assert_eq!(r[2], format!("{:<8} {:<20} {:<15} {:<10} {:<8} {:<10} {:<10} {:<10}", "SHORT", "TITLE", "SUPPLIER", "PRICE", "MOQ", "LEAD", "TOOLING", "STATUS"));
    assert_eq!(r[3], "-".repeat(100));
    assert_eq!(r[4], format!("{:<8} {:<20} {:<15} {:<10} {:<8} {:<10} {:<10} {:<10}", "QUOT@2", "Seals", "SUP-ACME-I...", "1.25", "100", "21d", "-", "received"));
    assert_eq!(r[5], format!("{:<8} {:<20} {:<15} {:<10} {:<8} {:<10} {:<10} {:<10}", "QUOT@2", "Seals b", "SUP-2", "-", "100", "21d", "-", "received"));
    assert_eq!(r[6], "");
    assert_eq!(r[7], "\u{2605} Lowest price: 1.25 from SUP-ACME-INDUSTRIES");
    let unpriced = compare_lines(&vec![compare_row("Bolts", "SUP-3", None)], "ASM@1");
    assert_eq!(unpriced[5], "");
    assert_eq!(unpriced[6], "\u{2605} Lowest price: 0.00 from SUP-3");
}

fn ncr_row() -> NcrListRow {
    NcrListRow {
        id: "NCR-01HC2JB7SMQX7RS1Y0GFKBHPTD".to_string(),
        short_id: some("NCR@1"),
        title: "Bore out of tolerance, lot 7".to_string(),
        ncr_type: some("internal"),
        severity: some("major"),
        category: some("dimensional"),
        ncr_status: some("open"),
        author: "Jane Doe".to_string(),
        created: "2025-01-02 10:30".to_string(),
    }
}

#[test]
fn ncr_list_count_comes_before_the_empty_notice() {
    assert_eq!(ncr_list_lines(&vec![], &vec![], true, OutputFormat::Tsv), vec!["0".to_string()]);
    assert_eq!(ncr_list_lines(&vec![], &vec![], false, OutputFormat::Tsv), vec!["No NCRs found.".to_string()]);
}

#[test]
fn ncr_list_csv_markdown_and_ids() {
    let ns = vec![ncr_row()];
    assert_eq!(ncr_list_lines(&ns, &vec![], false, OutputFormat::Csv), vec![
        "short_id,id,title,type,severity,category,ncr_status".to_string(),
        "NCR@1,NCR-01HC2JB7SMQX7RS1Y0GFKBHPTD,\"Bore out of tolerance, lot 7\",internal,major,dimensional,open".to_string(),
    ]);
    assert_eq!(ncr_list_lines(&ns, &vec![], false, OutputFormat::Md)[2],
        "| NCR@1 | NCR-01HC2JB7S... | Bore out of tolerance, lot 7 | internal | major | dimensional | open |");
    assert_eq!(ncr_list_lines(&ns, &vec![], false, OutputFormat::Id), vec!["NCR-01HC2JB7SMQX7RS1Y0GFKBHPTD".to_string()]);
}

#[test]
fn ncr_list_table_ends_each_cell_with_a_space() {
    let cols = vec![NcrColumn::Id, NcrColumn::Title, NcrColumn::Severity];
    let r = ncr_list_lines(&vec![ncr_row()], &cols, false, OutputFormat::Tsv);
    assert_eq!(r.len(), 5);
    assert_eq!(r[0], format!("{:<8} {:<17} {:<26} {:<10} ", "SHORT", "ID", "TITLE", "SEVERITY"));
    assert_eq!(r[1], "-".repeat(8 + 17 + 26 + 10 + 3));
    assert_eq!(r[2], format!("{:<8} {:<17} {:<26} {:<10} ", "NCR@1", "NCR-01HC2JB7...", "Bore out of tolerance...", "major"));
    assert_eq!(r[4], "1 NCR(s) found. Use NCR@N to reference by short ID.");
}

fn capa_row() -> CapaListRow {
    CapaListRow {
        id: "CAPA-01HC2JB7SMQX7RS1Y0GFKBHPTD".to_string(),
        short_id: some("CAPA@1"),
        title: "Seal supplier, corrective".to_string(),
        capa_type: some("corrective"),
        capa_status: some("initiation"),
        author: "Jane Doe".to_string(),
        created: "2025-01-02 10:30".to_string(),
    }
}

#[test]
fn capa_list_outputs() {
    let cs = vec![capa_row()];
    assert_eq!(capa_list_lines(&cs, &vec![], true, OutputFormat::Md), vec!["1".to_string()]);
    assert_eq!(capa_list_lines(&vec![], &vec![], false, OutputFormat::Md), vec!["No CAPAs found.".to_string()]);
    assert_eq!(capa_list_lines(&cs, &vec![], false, OutputFormat::Csv), vec![
        "short_id,id,title,type,capa_status".to_string(),
        "CAPA@1,CAPA-01HC2JB7SMQX7RS1Y0GFKBHPTD,\"Seal supplier, corrective\",corrective,initiation".to_string(),
    ]);
    assert_eq!(capa_list_lines(&cs, &vec![], false, OutputFormat::Md)[2],
        "| CAPA@1 | CAPA-01HC2JB7... | Seal supplier, corrective | corrective | initiation |");
    assert_eq!(capa_list_lines(&cs, &vec![], false, OutputFormat::ShortId), vec!["CAPA@1".to_string()]);
    let cols = vec![CapaColumn::Title, CapaColumn::Status];
    let r = capa_list_lines(&cs, &cols, false, OutputFormat::Tsv);
    assert_eq!(r[0], format!("{:<8} {:<30} {:<14} ", "SHORT", "TITLE", "STATUS"));
    assert_eq!(r[1], "-".repeat(8 + 30 + 14 + 2));
    assert_eq!(r[2], format!("{:<8} {:<30} {:<14} ", "CAPA@1", "Seal supplier, corrective", "initiation"));
    assert_eq!(r[4], "1 CAPA(s) found. Use CAPA@N to reference by short ID.");
}

#[test]
fn process_list_outputs() {
    let p = ProcessListRow {
        id: "PROC-1".to_string(),
        short_id: None,
        title: "Machining".to_string(),
        process_type: None,
        status: "draft".to_string(),
        author: "Al".to_string(),
        created: "2025-02-03 08:00".to_string(),
    };
    let ps = vec![p];
    assert_eq!(process_list_lines(&ps, &vec![], false, OutputFormat::Csv)[1], ",PROC-1,Machining,,draft");
    assert_eq!(process_list_lines(&ps, &vec![], false, OutputFormat::Md)[2], "|  | PROC-1 | Machining |  | draft |");
    let r = process_list_lines(&ps, &vec![ProcessColumn::Operation, ProcessColumn::Status], false, OutputFormat::Tsv);
    assert_eq!(r[0], format!("{:<8} {:<10} {:<10} ", "SHORT", "OPERATION", "STATUS"));
    assert_eq!(r[2], format!("{:<8} {:<10} {:<10} ", "", "-", "draft"));
    assert_eq!(r[4], "1 process(es) found. Use PROC@N to reference by short ID.");
    assert_eq!(process_list_lines(&vec![], &vec![], false, OutputFormat::Csv), vec!["No processes found.".to_string()]);
}

#[test]
fn component_list_outputs() {
    let c = ComponentListRow {
        id: "CMP-01HC2JB7SMQX7RS1Y0GFKBHPTD".to_string(),
        short_id: some("CMP@1"),
        part_number: some("PN-1000-ABCDEF"),
        revision: None,
        title: "Housing".to_string(),
        make_buy: None,
        category: some("mechanical"),
        status: "draft".to_string(),
        author: "Jane Doe".to_string(),
        created_day: "2025-01-02".to_string(),
    };
    let cs = vec![c];
    assert_eq!(component_list_lines(&cs, &vec![], OutputFormat::Csv), vec![
        "short_id,id,part_number,revision,title,make_buy,category,status".to_string(),
        "CMP@1,CMP-01HC2JB7SMQX7RS1Y0GFKBHPTD,PN-1000-ABCDEF,,Housing,buy,mechanical,draft".to_string(),
    ]);
    assert_eq!(component_list_lines(&cs, &vec![], OutputFormat::Md)[2],
        "| CMP@1 | CMP-01HC2JB7... | PN-1000-ABCDEF | Housing | buy | mechanical | draft |");
    let cols = vec![ComponentColumn::PartNumber, ComponentColumn::Revision, ComponentColumn::MakeBuy];
    let r = component_list_lines(&cs, &cols, OutputFormat::Auto);
    assert_eq!(r[0], format!("{:<8} {:<12} {:<8} {:<6}", "SHORT", "PART #", "REV", "M/B"));
    assert_eq!(r[1], "-".repeat(100));
    assert_eq!(r[2], format!("{:<8} {:<12} {:<8} {:<6}", "CMP@1", "PN-1000...", "-", "buy"));
    assert_eq!(r[4], "1 component(s) found. Use CMP@N to reference by short ID.");
    assert_eq!(component_list_lines(&vec![], &vec![], OutputFormat::Id), Vec::<String>::new());
}

#[test]
fn mate_list_outputs() {
    let m = MateListRow {
        id: "MATE-01HC2JB7SMQX7RS1Y0GFKBHPTD".to_string(),
        short_id: some("MATE@1"),
        title: "Pin in bore".to_string(),
        mate_type: "clearance_fit".to_string(),
        fit_result: None,
        status: "draft".to_string(),
    };
    let ms = vec![m];
    assert_eq!(mate_list_lines(&ms, true, OutputFormat::Csv), vec!["1".to_string()]);
    assert_eq!(mate_list_lines(&vec![], false, OutputFormat::Csv), vec!["No mates found.".to_string()]);
    assert_eq!(mate_list_lines(&ms, false, OutputFormat::Csv)[1], "MATE@1,MATE-01HC2JB7SMQX7RS1Y0GFKBHPTD,Pin in bore,clearance_fit,n/a,draft");
    assert_eq!(mate_list_lines(&ms, false, OutputFormat::Md)[2], "| MATE@1 | MATE-01HC2JB7... | Pin in bore | clearance_fit | n/a | draft |");
    let r = mate_list_lines(&ms, false, OutputFormat::Tsv);
    assert_eq!(r[0], format!("{:<8} {:<17} {:<25} {:<15} {:<12} {:<10}", "SHORT", "ID", "TITLE", "TYPE", "FIT", "STATUS"));
    assert_eq!(r[1], "-".repeat(90));
    assert_eq!(r[2], format!("{:<8} {:<17} {:<25} {:<15} {:<12} {:<10}", "MATE@1", "MATE-01HC2JB7...", "Pin in bore", "clearance_fit", "n/a", "draft"));
    assert_eq!(r[4], "1 mate(s) found. Use MATE@N to reference by short ID.");
}

#[test]
fn control_list_outputs() {
    let c = ControlListRow {
        id: "CTRL-1".to_string(),
        short_id: some("CTRL@1"),
        title: "Bore check".to_string(),
        control_type: "inspection".to_string(),
        characteristic: "Bore, diameter".to_string(),
        critical: true,
        status: "draft".to_string(),
    };
    let cs = vec![c];
    assert_eq!(control_list_lines(&cs, false, OutputFormat::Csv), vec![
        "short_id,id,title,type,characteristic,critical,status".to_string(),
        "CTRL@1,CTRL-1,Bore check,inspection,\"Bore, diameter\",Y,draft".to_string(),
    ]);
    assert_eq!(control_list_lines(&cs, false, OutputFormat::Md)[2], "| CTRL@1 | CTRL-1 | Bore check | inspection | Bore, diameter | Yes | draft |");
    let r = control_list_lines(&cs, false, OutputFormat::Tsv);
    assert_eq!(r[0], format!("{:<8} {:<17} {:<28} {:<14} {:<16} {:<4} {:<10}", "SHORT", "ID", "TITLE", "TYPE", "CHARACTERISTIC", "CTQ", "STATUS"));
    assert_eq!(r[1], "-".repeat(100));
    assert_eq!(r[2], format!("{:<8} {:<17} {:<28} {:<14} {:<16} {:<4} {:<10}", "CTRL@1", "CTRL-1", "Bore check", "inspection", "Bore, diameter", "*", "draft"));
    assert_eq!(r[4], "1 control(s) found. Use CTRL@N to reference by short ID.");
    assert_eq!(control_list_lines(&vec![], false, OutputFormat::Md), vec!["No controls found.".to_string()]);
    assert_eq!(control_list_lines(&cs, true, OutputFormat::Md), vec!["1".to_string()]);
}

#[test]
fn lot_list_outputs() {
    let l = LotListRow {
        id: "LOT-01HC2JB7SMQX7RS1Y0GFKBHPTD".to_string(),
        short_id: some("LOT@1"),
        title: "First article, housings".to_string(),
        lot_number: None,
        quantity: Some(25),
        lot_status: "in_progress".to_string(),
        author: "Doe, Jane".to_string(),
        created: "2025-01-02 10:30".to_string(),
    };
    let ls = vec![l];
    assert_eq!(lot_list_lines(&ls, &vec![], false, OutputFormat::Csv), vec![
        "short_id,id,title,lot_number,quantity,lot_status,author".to_string(),
        "LOT@1,LOT-01HC2JB7SMQX7RS1Y0GFKBHPTD,\"First article, housings\",,25,in_progress,\"Doe, Jane\"".to_string(),
    ]);
    assert_eq!(lot_list_lines(&ls, &vec![], false, OutputFormat::Md)[2],
        "| LOT@1 | LOT-01HC2JB7S... | First article, housings | - | 25 | in_progress | Doe, Jane |");
    let cols = vec![LotColumn::Id, LotColumn::Quantity, LotColumn::LotNumber];
    let r = lot_list_lines(&ls, &cols, false, OutputFormat::Tsv);
    assert_eq!(r[0], format!("{:<8} {:<17} {:<6} {:<14} ", "SHORT", "ID", "QTY", "LOT #"));
    assert_eq!(r[1], "-".repeat(8 + 17 + 6 + 14 + 3));
    assert_eq!(r[2], format!("{:<8} {:<17} {:<6} {:<14} ", "LOT@1", "LOT-01HC2JB7S...", "25", ""));
    assert_eq!(r[4], "1 lot(s) found. Use LOT@N to reference by short ID.");
    assert_eq!(lot_list_lines(&ls, &cols, false, OutputFormat::ShortId), vec!["LOT@1".to_string()]);
    assert_eq!(lot_list_lines(&vec![], &cols, false, OutputFormat::Tsv), vec!["No lots found.".to_string()]);
}

#[test]
fn assembly_list_outputs() {
    let a = AssemblyListRow {
        id: "ASM-01HC2JB7SMQX7RS1Y0GFKBHPTD".to_string(),
        short_id: some("ASM@1"),
        part_number: "ASM-100".to_string(),
        revision: some("B"),
        title: "Pump, main".to_string(),
        bom_items: 4,
        status: "draft".to_string(),
        author: "Jane Doe".to_string(),
        created: "2025-01-02 10:30".to_string(),
    };
    let asms = vec![a];
    assert_eq!(assembly_list_lines(&asms, &vec![], false, OutputFormat::Csv), vec![
        "short_id,id,part_number,revision,title,bom_items,status".to_string(),
        "ASM@1,ASM-01HC2JB7SMQX7RS1Y0GFKBHPTD,ASM-100,B,\"Pump, main\",4,draft".to_string(),
    ]);
    assert_eq!(assembly_list_lines(&asms, &vec![], false, OutputFormat::Md)[2], "| ASM@1 | ASM-01HC2JB7S... | ASM-100 | Pump, main | 4 | draft |");
    let cols = vec![AssemblyColumn::Id, AssemblyColumn::Title, AssemblyColumn::Status];
    let r = assembly_list_lines(&asms, &cols, false, OutputFormat::Tsv);
    assert_eq!(r[0], format!("{:<17} {:<30} {:<10}", "ID", "TITLE", "STATUS"));
    assert_eq!(r[1], "-".repeat(17 + 30 + 10 + 2));
    assert_eq!(r[2], format!("{:<17} {:<30} {:<10}", "ASM-01HC2JB7S...", "Pump, main", "draft"));
    assert_eq!(r[3], "");
    assert_eq!(r[4], "1 assembly(s) found.");
    assert_eq!(assembly_list_lines(&asms, &cols, true, OutputFormat::Tsv), vec!["1".to_string()]);
    assert_eq!(assembly_list_lines(&vec![], &cols, false, OutputFormat::Tsv), vec!["No assemblies found.".to_string()]);
}

#[test]
fn assembly_column_names_are_distinct() {
    let cols = [AssemblyColumn::Id, AssemblyColumn::PartNumber, AssemblyColumn::Title, AssemblyColumn::Status, AssemblyColumn::Author, AssemblyColumn::Created];
    let names: Vec<&str> = cols.iter().map(|c| c.as_str()).collect();
    assert_eq!(names, vec!["id", "part-number", "title", "status", "author", "created"]);
    for (i, a) in names.iter().enumerate() {
        for b in names.iter().skip(i + 1) {
            assert_ne!(a, b);
        }
    }
}
