use tdt::lot::{lot_display_lines, LotDisplay, MaterialLine, StepLine};

fn some(s: &str) -> Option<String> {
    Some(s.to_string())
}

fn lot() -> LotDisplay {
    LotDisplay {
        id: "LOT-1".to_string(),
        title: "First article".to_string(),
        lot_number: some("2025-001"),
        quantity: Some(25),
        lot_status: "in_progress".to_string(),
        start_date: some("2025-01-02"),
        completion_date: None,
        materials: vec![
            MaterialLine { component: some("CMP@1"), supplier_lot: some("S-77"), quantity: Some(50) },
            MaterialLine { component: None, supplier_lot: None, quantity: None },
        ],
        steps: vec![
            StepLine { process: some("PROC@1"), status: "completed".to_string(), completed: some("2025-01-03"), operator: some("Al"), notes: some("ok") },
            StepLine { process: None, status: "pending".to_string(), completed: None, operator: None, notes: some("") },
        ],
        product: some("ASM@1"),
        processes: vec!["PROC@1".to_string(), "PROC@2".to_string()],
        ncrs: vec![],
        other_links: false,
        notes: some("Watch the seals."),
        author: "Jane Doe".to_string(),
        created: "2025-01-02 10:30".to_string(),
        revision: 3,
    }
}

#[test]
fn lot_display_shows_every_part() {
    let rule = "\u{2500}".repeat(60);
    let lines = lot_display_lines(&lot());
    let expected: Vec<String> = vec![
        rule.clone(),
        "ID: LOT-1".to_string(),
        "Title: First article".to_string(),
        "Lot Number: 2025-001".to_string(),
        "Quantity: 25".to_string(),
        "Status: in_progress".to_string(),
        "Start Date: 2025-01-02".to_string(),
        rule.clone(),
        String::new(),
        "Materials Used (2):".to_string(),
        "  \u{2022} CMP@1 | Lot: S-77 | Qty: 50".to_string(),
        "  \u{2022} (no CMP) | Lot: - | Qty: -".to_string(),
        String::new(),
        "Execution Steps (2):".to_string(),
        "  1. PROC@1 [completed] - 2025-01-03 by Al".to_string(),
        "     ok".to_string(),
        "  2. (unlinked) [pending]".to_string(),
        String::new(),
        "Links:".to_string(),
        "  Product: ASM@1".to_string(),
        "  Processes: PROC@1, PROC@2".to_string(),
        String::new(),
        "Notes:".to_string(),
        "Watch the seals.".to_string(),
        rule.clone(),
        "Author: Jane Doe | Created: 2025-01-02 10:30 | Revision: 3".to_string(),
    ];
    assert_eq!(lines, expected);
}

#[test]
fn lot_display_leaves_out_what_the_lot_lacks() {
    let mut l = lot();
    l.lot_number = None;
    l.quantity = None;
    l.start_date = None;
    l.materials = vec![];
    l.steps = vec![];
    l.product = None;
    l.processes = vec![];
    l.notes = some("# template comment");
    let lines = lot_display_lines(&l);
    assert_eq!(lines.len(), 7);
    assert_eq!(lines[3], "Status: in_progress");
    l.other_links = true;
    let lines = lot_display_lines(&l);
    assert_eq!(lines[5], "");
    assert_eq!(lines[6], "Links:");
    assert_eq!(lines.len(), 9);
}
