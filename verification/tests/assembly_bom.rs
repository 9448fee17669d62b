use tdt::assembly::{bom_csv_line, bom_table_line, component_total, BomComponentInfo, BomLineItem};

fn item(id: &str, qty: u32, refs: &[&str], notes: Option<&str>) -> BomLineItem {
    BomLineItem {
        component_id: id.to_string(),
        quantity: qty,
        reference_designators: refs.iter().map(|s| s.to_string()).collect(),
        notes: notes.map(|s| s.to_string()),
    }
}

fn info(id: &str, pn: &str, title: &str) -> BomComponentInfo {
    BomComponentInfo { id: id.to_string(), part_number: pn.to_string(), title: title.to_string() }
}

#[test]
fn bom_csv_lines_quote_where_needed() {
    let comps = vec![info("CMP-1", "PN-1", "Seal, large"), info("CMP-1", "PN-2", "Seal \"v2\"")];
    assert_eq!(
        bom_csv_line(&item("CMP-1", 4, &["R1", "R2"], Some("check")), &comps),
        "4,CMP-1,PN-2,\"Seal \"\"v2\"\"\",R1;R2,check"
    );
    assert_eq!(bom_csv_line(&item("CMP-9", 1, &[], None), &comps), "1,CMP-9,,,,");
    assert_eq!(bom_csv_line(&item("CMP-1", 2, &["A,B"], None), &vec![info("CMP-1", "P", "T")]), "2,CMP-1,P,T,\"A,B\",");
}

#[test]
fn bom_table_lines_are_padded_columns() {
    let comps = vec![info("CMP-1", "PN-1", "Seal")];
    let line = bom_table_line(&item("CMP-1", 12, &["R1", "R2"], None), &comps);
    assert_eq!(line, format!("{:<6} {:<15} {:<12} {:<30} {:<20}", 12, "CMP-1", "PN-1", "Seal", "R1, R2"));
    let missing = bom_table_line(&item("CMP-01HXYZABCDEFGH", 1, &[], None), &comps);
    assert_eq!(missing, format!("{:<6} {:<15} {:<12} {:<30} {:<20}", 1, "CMP-01HXYZ...", "-", "(not found)", ""));
}

#[test]
fn component_totals_add_quantities() {
    let bom = vec![item("A", 2, &[], None), item("B", 3, &[], None), item("C", u32::MAX, &[], None)];
    assert_eq!(component_total(&bom), 5 + u32::MAX as u64);
    assert_eq!(component_total(&vec![]), 0);
}
