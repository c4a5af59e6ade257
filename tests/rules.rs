use data_agent::lifecycle::{cancel, csv_line, decode_purchase_order, process_order, task_from_result};
use data_agent::model::create_summary;
use data_agent::validation::{is_authorized_department, is_blank, validate_purchase_order};
use data_agent::{PartReading, PurchaseOrder, PurchaseOrderItem, PurchaseOrderWrapper, TaskState};

fn item(quantity: u32, unit_price: i64, line_total: i64) -> PurchaseOrderItem {
    PurchaseOrderItem {
        item_code: "A-1".to_string(),
        description: "Widget".to_string(),
        quantity,
        unit_price,
        line_total,
    }
}

fn order(po_number: &str, items: Vec<PurchaseOrderItem>, sub_total: i64, tax_rate: i64, tax: i64, grand_total: i64) -> PurchaseOrder {
    PurchaseOrder {
        supplier_name: "Acme".to_string(),
        supplier_address_line1: "1 Main St".to_string(),
        supplier_address_line2: None,
        supplier_city: "Springfield".to_string(),
        supplier_state: "IL".to_string(),
        supplier_postal_code: "62701".to_string(),
        supplier_country: "USA".to_string(),
        items,
        po_number: po_number.to_string(),
        created_by: "Tester".to_string(),
        buyer_department: "Finance".to_string(),
        notes: None,
        tax_rate,
        sub_total,
        tax,
        grand_total,
        is_approved: false,
        approval_reason: None,
    }
}

fn exact_order() -> PurchaseOrder {
    order("PO-1", vec![item(2, 100_000, 200_000)], 200_000, 700, 14_000, 214_000)
}

#[test]
fn exact_order_is_completed_with_csv_line() {
    let po = exact_order();
    let (errors, warnings) = validate_purchase_order(&po);
    assert!(errors.is_empty());
    assert!(warnings.is_empty());
    let result = process_order(po, 0);
    assert_eq!(csv_line(&result), "PO-1,20,1.4,21.4,Acme,Finance,\"\"");
    let task = task_from_result("t-1".to_string(), result, 0);
    assert_eq!(task.status.state, TaskState::Completed);
}

#[test]
fn missing_number_and_items_fail() {
    let po = order("", vec![], 0, 700, 0, 0);
    let (errors, _) = validate_purchase_order(&po);
    assert!(errors.contains(&"PO number is required".to_string()));
    assert!(errors.contains(&"Purchase order must contain at least one item".to_string()));
    let task = task_from_result("t-2".to_string(), process_order(po, 0), 0);
    assert_eq!(task.status.state, TaskState::Failed);
}

#[test]
fn high_value_order_only_warns() {
    let po = order("PO-9", vec![item(1, 150_000_000, 150_000_000)], 150_000_000, 0, 0, 150_000_000);
    let (errors, warnings) = validate_purchase_order(&po);
    assert!(errors.is_empty());
    assert_eq!(warnings, vec!["High value purchase order - may require additional approval".to_string()]);
    let task = task_from_result("t-3".to_string(), process_order(po, 0), 0);
    assert_eq!(task.status.state, TaskState::Completed);
}

#[test]
fn empty_order_has_item_error_and_zero_quantity() {
    let po = order("PO-2", vec![], 0, 700, 0, 0);
    let (errors, _) = validate_purchase_order(&po);
    assert!(errors.contains(&"Purchase order must contain at least one item".to_string()));
    assert_eq!(create_summary(&po).total_quantity, 0);
}

#[test]
fn line_total_within_tolerance_is_quiet() {
    // 3 x 33.3333 = 99.9999, declared 100.00: off by 0.0001.
    let po = order("PO-3", vec![item(3, 333_333, 1_000_000)], 1_000_000, 0, 0, 1_000_000);
    let (_, warnings) = validate_purchase_order(&po);
    assert!(warnings.is_empty());
}

#[test]
fn line_total_mismatch_names_its_item() {
    let po = order(
        "PO-4",
        vec![item(1, 100_000, 100_000), item(2, 100_000, 250_000)],
        350_000,
        0,
        0,
        350_000,
    );
    let (errors, warnings) = validate_purchase_order(&po);
    assert!(errors.is_empty());
    assert_eq!(warnings, vec!["Item 2 line total mismatch: expected 20.00, got 25.00".to_string()]);
}

#[test]
fn reconciliation_warnings_in_order() {
    // Subtotal 30.00 against lines of 20.00, tax 5.00 against 2.10, grand
    // total 40.00 against 35.00.
    let po = order("PO-5", vec![item(2, 100_000, 200_000)], 300_000, 700, 50_000, 400_000);
    let (errors, warnings) = validate_purchase_order(&po);
    assert!(errors.is_empty());
    assert_eq!(
        warnings,
        vec![
            "Subtotal mismatch: expected 20.00, got 30.00".to_string(),
            "Tax calculation mismatch: expected 2.10, got 5.00".to_string(),
            "Grand total mismatch: expected 35.00, got 40.00".to_string(),
        ]
    );
}

#[test]
fn tax_expected_value_is_rounded_to_cents() {
    // 194.94 x 0.07 = 13.6458; a declared tax of 13.00 is off.
    let po = order("PO-6", vec![item(1, 1_949_400, 1_949_400)], 1_949_400, 700, 130_000, 2_079_400);
    let (_, warnings) = validate_purchase_order(&po);
    assert_eq!(warnings, vec!["Tax calculation mismatch: expected 13.65, got 13.00".to_string()]);
}

#[test]
fn unusual_tax_rate_warns() {
    let po = order("PO-7", vec![item(1, 100_000, 100_000)], 100_000, 2500, 25_000, 125_000);
    let (_, warnings) = validate_purchase_order(&po);
    assert_eq!(warnings, vec!["Unusual tax rate detected".to_string()]);
    let negative = order("PO-8", vec![item(1, 100_000, 100_000)], 100_000, -100, -1_000, 99_000);
    let (_, warnings) = validate_purchase_order(&negative);
    assert_eq!(warnings, vec!["Unusual tax rate detected".to_string()]);
}

#[test]
fn department_allow_list_is_exact() {
    for d in ["Marketing", "Sales", "IT", "Finance", "Operations", "HR"] {
        assert!(is_authorized_department(&d.to_string()));
        let mut po = exact_order();
        po.buyer_department = d.to_string();
        assert!(validate_purchase_order(&po).1.is_empty());
    }
    let mut po = exact_order();
    po.buyer_department = "finance".to_string();
    let (errors, warnings) = validate_purchase_order(&po);
    assert!(errors.is_empty());
    assert_eq!(warnings, vec!["Department 'finance' may not be authorized for purchases".to_string()]);
    assert!(!is_authorized_department(&"Finance ".to_string()));
}

#[test]
fn blank_fields_and_item_errors() {
    let mut po = exact_order();
    po.supplier_name = " \t\n".to_string();
    po.created_by = "".to_string();
    po.buyer_department = "\u{3000}".to_string();
    po.items = vec![PurchaseOrderItem {
        item_code: " ".to_string(),
        description: "".to_string(),
        quantity: 0,
        unit_price: 0,
        line_total: 0,
    }];
    po.sub_total = 0;
    po.tax = 0;
    po.grand_total = 0;
    let (errors, _) = validate_purchase_order(&po);
    assert_eq!(
        errors,
        vec![
            "Supplier name is required".to_string(),
            "Created by field is required".to_string(),
            "Buyer department is required".to_string(),
            "Item 1 is missing item code".to_string(),
            "Item 1 is missing description".to_string(),
            "Item 1 has zero quantity".to_string(),
            "Item 1 has invalid unit price".to_string(),
        ]
    );
    assert!(is_blank(&"\u{a0}\u{2028}".to_string()));
    assert!(!is_blank(&" x ".to_string()));
}

#[test]
fn summary_counts_items_and_quantities() {
    let po = order(
        "PO-10",
        vec![item(3, 10_000, 30_000), item(4, 10_000, 40_000)],
        70_000,
        0,
        0,
        70_000,
    );
    let s = create_summary(&po);
    assert_eq!(s.total_items, 2);
    assert_eq!(s.total_quantity, 7);
    assert_eq!(s.sub_total, 70_000);
    assert_eq!(s.supplier, "Acme");
    assert_eq!(s.department, "Finance");
    assert!(!s.is_approved);
}

#[test]
fn processing_status_follows_errors_then_approval() {
    let mut po = exact_order();
    po.is_approved = true;
    assert_eq!(process_order(po, 5).status, "APPROVED");
    assert_eq!(process_order(exact_order(), 5).status, "PENDING_APPROVAL");
    let failed = process_order(order("", vec![], 0, 0, 0, 0), 5);
    assert_eq!(failed.status, "VALIDATION_FAILED");
    assert_eq!(failed.processed_at, 5);
}

#[test]
fn csv_line_shortens_amounts_and_escapes_notes() {
    let mut po = order("PO-11", vec![item(1, 1_234, 1_234)], 1_234, 0, 0, 1_234);
    po.notes = Some("say \"hi\"".to_string());
    po.supplier_name = "Acme".to_string();
    let r = process_order(po, 0);
    assert_eq!(csv_line(&r), "PO-11,0.1234,0,0.1234,Acme,Finance,\"say \"\"hi\"\"\"");
    let negative = process_order(order("PO-12", vec![], -35_000, 0, 0, 1_000_000_000), 0);
    assert_eq!(csv_line(&negative), "PO-12,-3.5,0,100000,Acme,Finance,\"\"");
}

#[test]
fn wrapped_and_bare_shapes_decode_alike() {
    let wrapped = decode_purchase_order(vec![PartReading {
        as_wrapper: Some(PurchaseOrderWrapper { purchase_order: exact_order() }),
        as_order: None,
    }]);
    let bare = decode_purchase_order(vec![PartReading { as_wrapper: None, as_order: Some(exact_order()) }]);
    let a = wrapped.ok().unwrap();
    let b = bare.ok().unwrap();
    assert_eq!(a.po_number, b.po_number);
    assert_eq!(a.sub_total, b.sub_total);
    assert_eq!(a.items.len(), b.items.len());
}

#[test]
fn first_readable_part_wins_and_wrapper_beats_bare() {
    let mut second = exact_order();
    second.po_number = "PO-SECOND".to_string();
    let mut bare = exact_order();
    bare.po_number = "PO-BARE".to_string();
    let mut inner = exact_order();
    inner.po_number = "PO-WRAPPED".to_string();
    let po = decode_purchase_order(vec![
        PartReading { as_wrapper: None, as_order: None },
        PartReading { as_wrapper: Some(PurchaseOrderWrapper { purchase_order: inner }), as_order: Some(bare) },
        PartReading { as_wrapper: None, as_order: Some(second) },
    ])
    .ok()
    .unwrap();
    assert_eq!(po.po_number, "PO-WRAPPED");
    assert!(decode_purchase_order(vec![]).is_err());
}

#[test]
fn cancelling_twice_keeps_failed_and_restamps() {
    let task = task_from_result("t-4".to_string(), process_order(exact_order(), 0), 100);
    assert_eq!(task.status.timestamp, "100");
    let once = cancel(task, 200);
    assert_eq!(once.status.state, TaskState::Failed);
    assert_eq!(once.status.timestamp, "200");
    let twice = cancel(once, 300);
    assert_eq!(twice.status.state, TaskState::Failed);
    assert_eq!(twice.status.timestamp, "300");
    assert_eq!(twice.id, "t-4");
}
