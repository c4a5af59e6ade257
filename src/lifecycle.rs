//! From an inbound message to a task: decoding, processing, the response
//! envelope, and the state transitions of a task.
use vstd::prelude::*;
use crate::model::{PurchaseOrder, PurchaseOrderWrapper, create_summary, total_quantity};
use crate::task::{Message, Part, ProcessingResult, Task, TaskState, TaskStatus, same_result};
use crate::text::{amount_text, escape_quotes, int_text, push_amount, push_escaped, push_int, texts};
use crate::validation::{error_texts, validate_purchase_order, warning_texts};

verus! {

/// What one part of an inbound message yields when read as a purchase
/// order: in the wrapped shape (`{"purchaseOrder": ...}`), and as a bare order.
#[derive(Debug)]
pub struct PartReading {
    pub as_wrapper: Option<PurchaseOrderWrapper>,
    pub as_order: Option<PurchaseOrder>,
}

/// A failure surfaced to the caller.
#[derive(Debug)]
pub enum AgentError {
    /// No part of the message holds a purchase order.
    NoValidPurchaseOrder,
    /// No task is stored under the id.
    TaskNotFound { task_id: String },
}

/// The order a part yields, the wrapped shape taking precedence.
pub open spec fn reading_order(r: PartReading) -> Option<PurchaseOrder> {
    match r.as_wrapper {
        Some(w) => Some(w.purchase_order),
        None => r.as_order,
    }
}

/// The order of the first part that yields one.
pub open spec fn first_order(parts: Seq<PartReading>) -> Option<PurchaseOrder>
    decreases parts.len(),
{
    if parts.len() == 0 {
        None
    } else if reading_order(parts[0]) is Some {
        reading_order(parts[0])
    } else {
        first_order(parts.drop_first())
    }
}

proof fn lemma_first_order_skip(parts: Seq<PartReading>, i: int)
    requires
        0 <= i <= parts.len(),
        forall|j: int| 0 <= j < i ==> reading_order(#[trigger] parts[j]) is None,
    ensures
        first_order(parts) == first_order(parts.subrange(i, parts.len() as int)),
    decreases i,
{
    if i > 0 {
        lemma_first_order_skip(parts.drop_first(), i - 1);
        assert(parts.drop_first().subrange(i - 1, parts.len() - 1) =~= parts.subrange(
            i,
            parts.len() as int,
        ));
    } else {
        assert(parts.subrange(0, parts.len() as int) =~= parts);
    }
}

impl AgentError {
    /// Human-readable description of the failure.
    pub fn message(&self) -> (r: String)
        ensures
            r@ == match self {
                AgentError::NoValidPurchaseOrder => "No valid purchase order found in message"@,
                AgentError::TaskNotFound { task_id } => "Task "@ + task_id@ + " not found"@,
            },
    {
        match self {
            AgentError::NoValidPurchaseOrder => String::from_str(
                "No valid purchase order found in message",
            ),
            AgentError::TaskNotFound { task_id } => {
                let mut s = String::from_str("Task ");
                s.append(task_id.as_str());
                s.append(" not found");
                s
            },
        }
    }
}

/// Takes the purchase order out of the first part that holds one; within a
/// part the wrapped shape is tried before the bare one.
pub fn decode_purchase_order(readings: Vec<PartReading>) -> (r: Result<PurchaseOrder, AgentError>)
    ensures
        match first_order(readings@) {
            Some(po) => r == Ok::<PurchaseOrder, AgentError>(po),
            None => r is Err && r->Err_0 is NoValidPurchaseOrder,
        },
{
    let mut parts = readings;
    let ghost all = parts@;
    let mut i: usize = 0;
    while i < parts.len()
        invariant
            parts@ == all,
            all == readings@,
            i <= all.len(),
            forall|j: int| 0 <= j < i ==> reading_order(#[trigger] all[j]) is None,
        decreases all.len() - i,
    {
        if parts[i].as_wrapper.is_some() || parts[i].as_order.is_some() {
            proof {
                lemma_first_order_skip(all, i as int);
                let rest = all.subrange(i as int, all.len() as int);
                assert(rest[0] == all[i as int]);
                assert(reading_order(all[i as int]) is Some);
                assert(first_order(rest) == reading_order(rest[0]));
            }
            let part = parts.remove(i);
            assert(part == all[i as int]);
            let r = match part.as_wrapper {
                Some(w) => Ok(w.purchase_order),
                None => match part.as_order {
                    Some(po) => Ok(po),
                    None => Err(AgentError::NoValidPurchaseOrder),
                },
            };
            return r;
        }
        i = i + 1;
    }
    proof {
        lemma_first_order_skip(all, i as int);
    }
    Err(AgentError::NoValidPurchaseOrder)
}

/// A purchase order decodes to itself whether it comes wrapped or bare.
pub proof fn lemma_shapes_agree(po: PurchaseOrder)
    ensures
        first_order(
            seq![PartReading { as_wrapper: Some(PurchaseOrderWrapper { purchase_order: po }), as_order: None }],
        ) == Some(po),
        first_order(seq![PartReading { as_wrapper: None, as_order: Some(po) }]) == Some(po),
{
}

/// `VALIDATION_FAILED` when the order has errors, else `APPROVED` or
/// `PENDING_APPROVAL` after its approval flag.
pub open spec fn status_text(po: PurchaseOrder) -> Seq<char> {
    if error_texts(po).len() > 0 {
        "VALIDATION_FAILED"@
    } else if po.is_approved {
        "APPROVED"@
    } else {
        "PENDING_APPROVAL"@
    }
}

/// `r` is the outcome of processing `po` at time `at`.
pub open spec fn result_of(r: ProcessingResult, po: PurchaseOrder, at: i64) -> bool {
    &&& r.status@ == status_text(po)
    &&& r.po_number@ == po.po_number@
    &&& texts(r.validation_errors@) == error_texts(po)
    &&& texts(r.warnings@) == warning_texts(po)
    &&& r.summary.total_items == po.items@.len()
    &&& r.summary.total_quantity == total_quantity(po.items@)
    &&& r.summary.sub_total == po.sub_total
    &&& r.summary.tax == po.tax
    &&& r.summary.grand_total == po.grand_total
    &&& r.summary.supplier@ == po.supplier_name@
    &&& r.summary.department@ == po.buyer_department@
    &&& r.summary.is_approved == po.is_approved
    &&& r.processed_at == at
    &&& r.supplier_name@ == po.supplier_name@
    &&& r.buyer_department@ == po.buyer_department@
    &&& crate::task::same_text(r.notes, po.notes)
    &&& r.sub_total == po.sub_total
    &&& r.tax == po.tax
    &&& r.grand_total == po.grand_total
}

/// Validates and summarises `po`, stamped with `processed_at`.
pub fn process_order(po: PurchaseOrder, processed_at: i64) -> (r: ProcessingResult)
    ensures
        result_of(r, po, processed_at),
{
    let (validation_errors, warnings) = validate_purchase_order(&po);
    let summary = create_summary(&po);
    let status = if validation_errors.len() > 0 {
        String::from_str("VALIDATION_FAILED")
    } else if po.is_approved {
        String::from_str("APPROVED")
    } else {
        String::from_str("PENDING_APPROVAL")
    };
    proof {
        assert(validation_errors@.len() == error_texts(po).len());
    }
    ProcessingResult {
        status,
        po_number: po.po_number,
        validation_errors,
        warnings,
        summary,
        processed_at,
        supplier_name: po.supplier_name,
        buyer_department: po.buyer_department,
        notes: po.notes,
        sub_total: po.sub_total,
        tax: po.tax,
        grand_total: po.grand_total,
    }
}

pub open spec fn notes_text(notes: Option<String>) -> Seq<char> {
    match notes {
        Some(n) => n@,
        None => Seq::empty(),
    }
}

/// `poNumber,subTotal,tax,grandTotal,supplierName,buyerDepartment,"notes"`,
/// amounts in their shortest decimal form and quotes in the notes doubled.
pub open spec fn csv_text(r: ProcessingResult) -> Seq<char> {
    r.po_number@ + ","@ + amount_text(r.sub_total as int) + ","@ + amount_text(r.tax as int) + ","@
        + amount_text(r.grand_total as int) + ","@ + r.supplier_name@ + ","@ + r.buyer_department@
        + ",\""@ + escape_quotes(notes_text(r.notes)) + "\""@
}

/// The one-line CSV rendering of a processing result.
pub fn csv_line(r: &ProcessingResult) -> (s: String)
    ensures
        s@ == csv_text(*r),
{
    let mut s = String::new();
    s.append(r.po_number.as_str());
    s.append(",");
    push_amount(&mut s, r.sub_total);
    s.append(",");
    push_amount(&mut s, r.tax);
    s.append(",");
    push_amount(&mut s, r.grand_total);
    s.append(",");
    s.append(r.supplier_name.as_str());
    s.append(",");
    s.append(r.buyer_department.as_str());
    s.append(",\"");
    match &r.notes {
        Some(n) => push_escaped(&mut s, n.as_str()),
        None => push_escaped(&mut s, ""),
    }
    s.append("\"");
    proof {
        reveal_strlit("");
        assert(s@ =~= csv_text(*r));
    }
    s
}

/// `m` answers with the CSV line of `r`, then `r` itself.
pub open spec fn response_for(m: Message, r: ProcessingResult) -> bool {
    &&& m.role@ == "assistant"@
    &&& m.parts@.len() == 2
    &&& m.parts@[0] matches Part::Text { text } && text@ == csv_text(r)
    &&& m.parts@[1] matches Part::Data { result } && same_result(result, r)
}

/// `t` is the task recorded under `id` for the outcome `r` at time `now`:
/// completed when `r` has no validation errors, failed otherwise.
pub open spec fn task_for(t: Task, id: Seq<char>, r: ProcessingResult, now: i64) -> bool {
    &&& t.id@ == id
    &&& t.session_id is None
    &&& t.status.state == if r.validation_errors@.len() == 0 {
        TaskState::Completed
    } else {
        TaskState::Failed
    }
    &&& t.status.message matches Some(m) && response_for(m, r)
    &&& t.status.timestamp@ == int_text(now as int)
}

pub open spec fn cancel_notice() -> Seq<char> {
    "Purchase order processing task was cancelled by user request"@
}

/// `m` is the system notice of a cancellation.
pub open spec fn notice_for(m: Message) -> bool {
    &&& m.role@ == "system"@
    &&& m.parts@.len() == 1
    &&& m.parts@[0] matches Part::Text { text } && text@ == cancel_notice()
}

/// `t` is `before` after cancellation at time `now`: failed, with a system
/// notice, and re-stamped.
pub open spec fn cancelled_from(t: Task, before: Task, now: i64) -> bool {
    &&& t.id@ == before.id@
    &&& crate::task::same_text(t.session_id, before.session_id)
    &&& t.status.state == TaskState::Failed
    &&& t.status.message matches Some(m) && notice_for(m)
    &&& t.status.timestamp@ == int_text(now as int)
}

/// Cancelling a task that a cancellation already failed succeeds again: the
/// task stays failed under the same id and takes the later timestamp.
pub proof fn lemma_cancel_again(t: Task, once: Task, twice: Task, first: i64, second: i64)
    requires
        cancelled_from(once, t, first),
        cancelled_from(twice, once, second),
    ensures
        once.status.state == TaskState::Failed,
        twice.status.state == TaskState::Failed,
        twice.id@ == t.id@,
        twice.status.timestamp@ == int_text(second as int),
{
}

fn timestamp_text(now: i64) -> (r: String)
    ensures
        r@ == int_text(now as int),
{
    let mut s = String::new();
    push_int(&mut s, now);
    proof {
        assert(s@ =~= int_text(now as int));
    }
    s
}

/// The task that records `r` under `id`.
pub fn task_from_result(id: String, r: ProcessingResult, now: i64) -> (t: Task)
    ensures
        task_for(t, id@, r, now),
{
    let state = if r.validation_errors.len() == 0 {
        TaskState::Completed
    } else {
        TaskState::Failed
    };
    let text = csv_line(&r);
    let message = Message {
        role: String::from_str("assistant"),
        parts: vec![Part::Text { text }, Part::Data { result: r.duplicate() }],
    };
    Task {
        id,
        session_id: None,
        status: TaskStatus { state, message: Some(message), timestamp: timestamp_text(now) },
    }
}

/// `before`, cancelled at time `now`.
pub fn cancel(before: Task, now: i64) -> (t: Task)
    ensures
        cancelled_from(t, before, now),
{
    let message = Message {
        role: String::from_str("system"),
        parts: vec![
            Part::Text {
                text: String::from_str(
                    "Purchase order processing task was cancelled by user request",
                ),
            },
        ],
    };
    Task {
        id: before.id,
        session_id: before.session_id,
        status: TaskStatus {
            state: TaskState::Failed,
            message: Some(message),
            timestamp: timestamp_text(now),
        },
    }
}

} // verus!
