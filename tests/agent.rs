use data_agent::{
    AgentError, Part, PartReading, PurchaseOrder, PurchaseOrderAgent, PurchaseOrderItem,
    PurchaseOrderWrapper, TaskState,
};

fn item(code: &str, description: &str, quantity: u32, unit_price: i64, line_total: i64) -> PurchaseOrderItem {
    PurchaseOrderItem {
        item_code: code.to_string(),
        description: description.to_string(),
        quantity,
        unit_price,
        line_total,
    }
}

fn create_sample_purchase_order() -> PurchaseOrderWrapper {
    PurchaseOrderWrapper {
        purchase_order: PurchaseOrder {
            supplier_name: "Marketing Masters Supplies".to_string(),
            supplier_address_line1: "1234 Creative Avenue, Suite 567".to_string(),
            supplier_address_line2: None,
            supplier_city: "Imagination City".to_string(),
            supplier_state: "CA".to_string(),
            supplier_postal_code: "90210".to_string(),
            supplier_country: "USA".to_string(),
            items: vec![
                item("bk-2345", "Marketing Strategy Guidebook", 3, 299_900, 899_700),
                item("Bk-1311", "Promotional Materials Handbook", 3, 349_900, 1_049_700),
            ],
            po_number: "MMS-80085".to_string(),
            created_by: "J.J. Schmidt".to_string(),
            buyer_department: "Marketing".to_string(),
            notes: Some("thanks for the order! Happy learning!! :)".to_string()),
            tax_rate: 700,
            sub_total: 1_949_400,
            tax: 136_500,
            grand_total: 2_085_900,
            is_approved: true,
            approval_reason: Some("Approved: Grand Total $208.59 is below $1000, Supplier Name is provided, and Buyer Department 'Marketing' is an authorized department.".to_string()),
        },
    }
}

fn wrapped(w: PurchaseOrderWrapper) -> Vec<PartReading> {
    vec![PartReading { as_wrapper: Some(w), as_order: None }]
}

#[test]
fn test_agent_creation() {
    let agent = PurchaseOrderAgent::new();
    let card = agent.get_agent_card();

    assert_eq!(card.name, "Purchase Order Processing Agent");
    assert_eq!(card.version, "1.0.0");
    assert_eq!(card.url, "http://localhost:8080");
    assert!(card.description.is_some());
    assert!(card.description.as_ref().unwrap().contains("purchase orders"));
}

#[test]
fn test_custom_agent_creation() {
    let agent = PurchaseOrderAgent::with_config(
        "Test PO Agent",
        "Test description",
        "http://test.com",
        "2.0.0",
    );
    let card = agent.get_agent_card();

    assert_eq!(card.name, "Test PO Agent");
    assert_eq!(card.version, "2.0.0");
    assert_eq!(card.url, "http://test.com");
    assert_eq!(card.description.as_ref().unwrap(), "Test description");
}

#[test]
fn test_process_valid_purchase_order() {
    let mut agent = PurchaseOrderAgent::new();
    let result = agent.send_task(wrapped(create_sample_purchase_order()));
    assert!(result.is_ok());

    let task = result.ok().unwrap();
    assert!(!task.id.is_empty());
    assert!(matches!(task.status.state, TaskState::Completed));
    assert!(task.status.message.is_some());

    let response_msg = task.status.message.unwrap();
    assert_eq!(response_msg.role, "assistant");
    assert_eq!(response_msg.parts.len(), 2);

    if let Part::Text { text } = &response_msg.parts[0] {
        assert!(text.contains("MMS-80085"));
        assert!(text.contains("194.94"));
        assert!(text.contains("13.65"));
        assert!(text.contains("208.59"));
        assert!(text.contains("Marketing Masters Supplies"));
        assert!(text.contains("Marketing"));
    } else {
        panic!("the first part should be text");
    }
}

#[test]
fn test_process_purchase_order_from_json_text() {
    // A text part whose JSON reads in the wrapped shape.
    let mut agent = PurchaseOrderAgent::new();
    let result = agent.send_task(wrapped(create_sample_purchase_order()));
    assert!(result.is_ok());

    let task = result.ok().unwrap();
    assert!(matches!(task.status.state, TaskState::Completed));
}

#[test]
fn test_get_task() {
    let mut agent = PurchaseOrderAgent::new();
    let created_task = agent.send_task(wrapped(create_sample_purchase_order())).ok().unwrap();

    let retrieved_task = agent.get_task(&created_task.id).ok().unwrap();

    assert_eq!(created_task.id, retrieved_task.id);
    assert!(matches!(retrieved_task.status.state, TaskState::Completed));
}

#[test]
fn test_cancel_task() {
    let mut agent = PurchaseOrderAgent::new();
    let task = agent.send_task(wrapped(create_sample_purchase_order())).ok().unwrap();

    let cancelled_task = agent.cancel_task(&task.id).ok().unwrap();

    assert_eq!(task.id, cancelled_task.id);
    assert!(matches!(cancelled_task.status.state, TaskState::Failed));

    let cancel_msg = cancelled_task.status.message.unwrap();
    assert_eq!(cancel_msg.role, "system");
    if let Part::Text { text } = &cancel_msg.parts[0] {
        assert!(text.contains("cancelled"));
    } else {
        panic!("the notice should be text");
    }
}

#[test]
fn test_get_nonexistent_task() {
    let agent = PurchaseOrderAgent::new();

    let result = agent.get_task("nonexistent-task-id");
    assert!(result.is_err());

    let error_msg = result.err().unwrap().message();
    assert!(error_msg.contains("not found"));
}

#[test]
fn test_invalid_purchase_order_validation() {
    let mut agent = PurchaseOrderAgent::new();

    let invalid_po = PurchaseOrderWrapper {
        purchase_order: PurchaseOrder {
            supplier_name: "".to_string(),
            supplier_address_line1: "123 Test St".to_string(),
            supplier_address_line2: None,
            supplier_city: "Test City".to_string(),
            supplier_state: "CA".to_string(),
            supplier_postal_code: "12345".to_string(),
            supplier_country: "USA".to_string(),
            items: vec![],
            po_number: "".to_string(),
            created_by: "Tester".to_string(),
            buyer_department: "Marketing".to_string(),
            notes: None,
            tax_rate: 700,
            sub_total: 0,
            tax: 0,
            grand_total: 0,
            is_approved: false,
            approval_reason: None,
        },
    };

    let result = agent.send_task(wrapped(invalid_po));
    assert!(result.is_ok());

    let task = result.ok().unwrap();
    assert!(matches!(task.status.state, TaskState::Failed));
}

#[test]
fn test_invalid_message_format() {
    let mut agent = PurchaseOrderAgent::new();

    // A text part that reads as neither shape.
    let readings = vec![PartReading { as_wrapper: None, as_order: None }];

    let result = agent.send_task(readings);
    assert!(result.is_err());

    let error = result.err().unwrap();
    assert!(matches!(error, AgentError::NoValidPurchaseOrder));
    assert!(error.message().contains("No valid purchase order"));
}
