use data_agent::store::TaskStore;
use data_agent::lifecycle::{process_order, task_from_result};
use data_agent::responses::{cancel_response, error_response, task_response};
use data_agent::{
    A2AAgentCard, AgentError, Part, PartReading, PurchaseOrder, PurchaseOrderAgent,
    PurchaseOrderItem, TaskState, get_agent_info,
};

fn order() -> PurchaseOrder {
    PurchaseOrder {
        supplier_name: "Acme".to_string(),
        supplier_address_line1: "1 Main St".to_string(),
        supplier_address_line2: None,
        supplier_city: "Springfield".to_string(),
        supplier_state: "IL".to_string(),
        supplier_postal_code: "62701".to_string(),
        supplier_country: "USA".to_string(),
        items: vec![PurchaseOrderItem {
            item_code: "A-1".to_string(),
            description: "Widget".to_string(),
            quantity: 2,
            unit_price: 100_000,
            line_total: 200_000,
        }],
        po_number: "PO-1".to_string(),
        created_by: "Tester".to_string(),
        buyer_department: "Finance".to_string(),
        notes: None,
        tax_rate: 700,
        sub_total: 200_000,
        tax: 14_000,
        grand_total: 214_000,
        is_approved: true,
        approval_reason: None,
    }
}

fn bare(po: PurchaseOrder) -> Vec<PartReading> {
    vec![PartReading { as_wrapper: None, as_order: Some(po) }]
}

#[test]
fn store_put_get_and_overwrite() {
    let mut store = TaskStore::new();
    assert!(store.get("a").is_none());
    store.put(task_from_result("a".to_string(), process_order(order(), 1), 1));
    store.put(task_from_result("b".to_string(), process_order(order(), 2), 2));
    assert_eq!(store.get("a").unwrap().status.timestamp, "1");
    store.put(task_from_result("a".to_string(), process_order(order(), 3), 3));
    assert_eq!(store.get("a").unwrap().status.timestamp, "3");
    assert_eq!(store.get("b").unwrap().status.timestamp, "2");
}

#[test]
fn repeated_get_returns_same_record() {
    let mut agent = PurchaseOrderAgent::new();
    let t = agent.send_task_at(bare(order()), "id-1".to_string(), 42).ok().unwrap();
    let a = agent.get_task("id-1").ok().unwrap();
    let b = agent.get_task("id-1").ok().unwrap();
    assert_eq!(a.id, b.id);
    assert_eq!(a.status.state, b.status.state);
    assert_eq!(a.status.timestamp, b.status.timestamp);
    assert_eq!(format!("{:?}", a), format!("{:?}", b));
    assert_eq!(format!("{:?}", a), format!("{:?}", t));
}

#[test]
fn send_task_at_records_result() {
    let mut agent = PurchaseOrderAgent::new();
    let t = agent.send_task_at(bare(order()), "id-2".to_string(), 1_700_000_000).ok().unwrap();
    assert_eq!(t.id, "id-2");
    assert_eq!(t.status.timestamp, "1700000000");
    let m = t.status.message.unwrap();
    match &m.parts[1] {
        Part::Data { result } => {
            assert_eq!(result.status, "APPROVED");
            assert_eq!(result.processed_at, 1_700_000_000);
            assert!(result.validation_errors.is_empty());
            assert_eq!(result.summary.total_quantity, 2);
        }
        _ => panic!("the second part should carry the result"),
    }
}

#[test]
fn failed_submission_stores_nothing() {
    let mut agent = PurchaseOrderAgent::new();
    let r = agent.send_task_at(vec![], "id-3".to_string(), 1);
    assert!(matches!(r, Err(AgentError::NoValidPurchaseOrder)));
    assert!(agent.get_task("id-3").is_err());
}

#[test]
fn send_task_uses_uuid_and_clock() {
    let mut agent = PurchaseOrderAgent::new();
    let a = agent.send_task(bare(order())).ok().unwrap();
    let b = agent.send_task(bare(order())).ok().unwrap();
    assert_eq!(a.id.len(), 36);
    assert_eq!(a.id.matches('-').count(), 4);
    assert_ne!(a.id, b.id);
    let seconds: i64 = a.status.timestamp.parse().unwrap();
    assert!(seconds > 1_600_000_000);
}

#[test]
fn cancel_failed_task_again() {
    let mut agent = PurchaseOrderAgent::new();
    agent.send_task_at(bare(order()), "id-4".to_string(), 10).ok().unwrap();
    let once = agent.cancel_task_at("id-4", 20).ok().unwrap();
    assert_eq!(once.status.state, TaskState::Failed);
    let twice = agent.cancel_task_at("id-4", 30).ok().unwrap();
    assert_eq!(twice.status.state, TaskState::Failed);
    assert_eq!(twice.status.timestamp, "30");
    assert_eq!(agent.get_task("id-4").ok().unwrap().status.timestamp, "30");
    match agent.cancel_task_at("missing", 40) {
        Err(AgentError::TaskNotFound { task_id }) => assert_eq!(task_id, "missing"),
        _ => panic!("cancelling an unknown task should fail"),
    }
}

#[test]
fn error_messages() {
    assert_eq!(AgentError::NoValidPurchaseOrder.message(), "No valid purchase order found in message");
    let e = AgentError::TaskNotFound { task_id: "abc".to_string() };
    assert_eq!(e.message(), "Task abc not found");
    let r = error_response(&e);
    assert_eq!(r.status, "error");
    assert_eq!(r.task_id, "");
    assert_eq!(r.error.unwrap(), "Task abc not found");
}

#[test]
fn task_and_cancel_responses() {
    let mut agent = PurchaseOrderAgent::new();
    let t = agent.send_task_at(bare(order()), "id-5".to_string(), 1).ok().unwrap();
    let r = task_response(&t);
    assert_eq!(r.task_id, "id-5");
    assert_eq!(r.status, "completed");
    assert_eq!(r.csv_output.unwrap(), "PO-1,20,1.4,21.4,Acme,Finance,\"\"");
    assert_eq!(r.detailed_result.unwrap().po_number, "PO-1");
    let c = agent.cancel_task_at("id-5", 2).ok().unwrap();
    assert_eq!(task_response(&c).status, "failed");
    let cr = cancel_response(&c);
    assert_eq!(cr.status, "cancelled");
    assert!(cr.csv_output.is_none());
}

#[test]
fn agent_info_lists_endpoints() {
    let agent = PurchaseOrderAgent::new();
    let info = get_agent_info(agent.get_agent_card());
    assert_eq!(info.name, "Purchase Order Processing Agent");
    assert_eq!(info.endpoints.len(), 10);
    assert_eq!(info.endpoints[0].path, "/");
    assert_eq!(info.endpoints[6].method, "POST");
    assert_eq!(info.endpoints[9].path, "/health");
}

#[test]
fn agent_cards() {
    let card = A2AAgentCard::new_purchase_order_agent("http://localhost:8080");
    assert_eq!(card.documentation_url.as_deref(), Some("http://localhost:8080/docs"));
    assert_eq!(card.skills.len(), 3);
    assert_eq!(card.skills[2].output_modes.as_ref().unwrap().len(), 2);
    assert_eq!(card.authentication.schemes, vec!["none".to_string()]);
    assert_eq!(card.provider.as_ref().unwrap().url, "https://agent2agent.info");
    let custom = A2AAgentCard::new_custom("X", "Y", "http://x", "2.0", Some("Org"), None);
    assert!(custom.provider.is_none());
    assert_eq!(custom.skills.len(), 1);
    let with = A2AAgentCard::new_custom("X", "Y", "http://x", "2.0", Some("Org"), Some("http://org"));
    assert_eq!(with.provider.unwrap().organization, "Org");
    assert_eq!(custom.documentation_url.unwrap(), "http://x/docs");
}
