//! Task records, the response envelope, and deep copies of them.
use vstd::prelude::*;
use crate::model::PurchaseOrderSummary;
use crate::text::texts;

verus! {

/// Lifecycle state of a task.
#[derive(Debug, Clone, Copy, PartialEq, Eq, Structural)]
pub enum TaskState {
    Submitted,
    Working,
    InputRequired,
    Completed,
    Canceled,
    Failed,
}

/// Complete outcome of processing one purchase order.
#[derive(Debug, Clone)]
pub struct ProcessingResult {
    /// `VALIDATION_FAILED`, `APPROVED` or `PENDING_APPROVAL`.
    pub status: String,
    pub po_number: String,
    pub validation_errors: Vec<String>,
    pub warnings: Vec<String>,
    pub summary: PurchaseOrderSummary,
    /// Seconds since the Unix epoch at which the order was processed.
    pub processed_at: i64,
    pub supplier_name: String,
    pub buyer_department: String,
    pub notes: Option<String>,
    pub sub_total: i64,
    pub tax: i64,
    pub grand_total: i64,
}

/// One unit of a response: plain text, or the structured processing result.
#[derive(Debug, Clone)]
pub enum Part {
    Text { text: String },
    Data { result: ProcessingResult },
}

/// A role tag and an ordered list of parts.
#[derive(Debug, Clone)]
pub struct Message {
    pub role: String,
    pub parts: Vec<Part>,
}

/// State of a task, the message that goes with it, and when it was set.
#[derive(Debug, Clone)]
pub struct TaskStatus {
    pub state: TaskState,
    pub message: Option<Message>,
    /// Seconds since the Unix epoch, in decimal.
    pub timestamp: String,
}

/// A stored unit of work.
#[derive(Debug, Clone)]
pub struct Task {
    pub id: String,
    pub session_id: Option<String>,
    pub status: TaskStatus,
}

pub open spec fn same_text(a: Option<String>, b: Option<String>) -> bool {
    match (a, b) {
        (Some(x), Some(y)) => x@ == y@,
        (None, None) => true,
        _ => false,
    }
}

pub open spec fn same_summary(a: PurchaseOrderSummary, b: PurchaseOrderSummary) -> bool {
    &&& a.total_items == b.total_items
    &&& a.total_quantity == b.total_quantity
    &&& a.sub_total == b.sub_total
    &&& a.tax == b.tax
    &&& a.grand_total == b.grand_total
    &&& a.supplier@ == b.supplier@
    &&& a.department@ == b.department@
    &&& a.is_approved == b.is_approved
}

pub open spec fn same_result(a: ProcessingResult, b: ProcessingResult) -> bool {
    &&& a.status@ == b.status@
    &&& a.po_number@ == b.po_number@
    &&& texts(a.validation_errors@) == texts(b.validation_errors@)
    &&& texts(a.warnings@) == texts(b.warnings@)
    &&& same_summary(a.summary, b.summary)
    &&& a.processed_at == b.processed_at
    &&& a.supplier_name@ == b.supplier_name@
    &&& a.buyer_department@ == b.buyer_department@
    &&& same_text(a.notes, b.notes)
    &&& a.sub_total == b.sub_total
    &&& a.tax == b.tax
    &&& a.grand_total == b.grand_total
}

pub open spec fn same_part(a: Part, b: Part) -> bool {
    match (a, b) {
        (Part::Text { text: x }, Part::Text { text: y }) => x@ == y@,
        (Part::Data { result: x }, Part::Data { result: y }) => same_result(x, y),
        _ => false,
    }
}

pub open spec fn same_message(a: Message, b: Message) -> bool {
    &&& a.role@ == b.role@
    &&& a.parts@.len() == b.parts@.len()
    &&& forall|i: int| 0 <= i < a.parts@.len() ==> same_part(#[trigger] a.parts@[i], b.parts@[i])
}

pub open spec fn same_task(a: Task, b: Task) -> bool {
    &&& a.id@ == b.id@
    &&& same_text(a.session_id, b.session_id)
    &&& a.status.state == b.status.state
    &&& match (a.status.message, b.status.message) {
        (Some(x), Some(y)) => same_message(x, y),
        (None, None) => true,
        _ => false,
    }
    &&& a.status.timestamp@ == b.status.timestamp@
}

fn copy_text(s: &Option<String>) -> (r: Option<String>)
    ensures
        same_text(r, *s),
{
    match s {
        Some(x) => Some(x.clone()),
        None => None,
    }
}

fn copy_strings(v: &Vec<String>) -> (r: Vec<String>)
    ensures
        texts(r@) == texts(v@),
{
    let mut r: Vec<String> = Vec::new();
    let mut i: usize = 0;
    while i < v.len()
        invariant
            i <= v@.len(),
            texts(r@) == texts(v@.take(i as int)),
        decreases v@.len() - i,
    {
        let s = v[i].clone();
        let ghost before = r@;
        r.push(s);
        proof {
            assert(v@.take(i + 1) =~= v@.take(i as int).push(v@[i as int]));
            assert(texts(r@) =~= texts(before).push(s@));
            assert(texts(v@.take(i + 1)) =~= texts(v@.take(i as int)).push(v@[i as int]@));
        }
        i = i + 1;
    }
    assert(v@.take(v@.len() as int) =~= v@);
    r
}

impl PurchaseOrderSummary {
    pub fn duplicate(&self) -> (r: Self)
        ensures
            same_summary(r, *self),
    {
        PurchaseOrderSummary {
            total_items: self.total_items,
            total_quantity: self.total_quantity,
            sub_total: self.sub_total,
            tax: self.tax,
            grand_total: self.grand_total,
            supplier: self.supplier.clone(),
            department: self.department.clone(),
            is_approved: self.is_approved,
        }
    }
}

impl ProcessingResult {
    pub fn duplicate(&self) -> (r: Self)
        ensures
            same_result(r, *self),
    {
        ProcessingResult {
            status: self.status.clone(),
            po_number: self.po_number.clone(),
            validation_errors: copy_strings(&self.validation_errors),
            warnings: copy_strings(&self.warnings),
            summary: self.summary.duplicate(),
            processed_at: self.processed_at,
            supplier_name: self.supplier_name.clone(),
            buyer_department: self.buyer_department.clone(),
            notes: copy_text(&self.notes),
            sub_total: self.sub_total,
            tax: self.tax,
            grand_total: self.grand_total,
        }
    }
}

impl Part {
    pub fn duplicate(&self) -> (r: Self)
        ensures
            same_part(r, *self),
    {
        match self {
            Part::Text { text } => Part::Text { text: text.clone() },
            Part::Data { result } => Part::Data { result: result.duplicate() },
        }
    }
}

impl Message {
    pub fn duplicate(&self) -> (r: Self)
        ensures
            same_message(r, *self),
    {
        let mut parts: Vec<Part> = Vec::new();
        let mut i: usize = 0;
        while i < self.parts.len()
            invariant
                i <= self.parts@.len(),
                parts@.len() == i,
                forall|j: int| 0 <= j < i ==> same_part(#[trigger] parts@[j], self.parts@[j]),
            decreases self.parts@.len() - i,
        {
            parts.push(self.parts[i].duplicate());
            i = i + 1;
        }
        Message { role: self.role.clone(), parts }
    }
}

impl Task {
    pub fn duplicate(&self) -> (r: Self)
        ensures
            same_task(r, *self),
    {
        let message = match &self.status.message {
            Some(m) => Some(m.duplicate()),
            None => None,
        };
        Task {
            id: self.id.clone(),
            session_id: copy_text(&self.session_id),
            status: TaskStatus {
                state: self.status.state,
                message,
                timestamp: self.status.timestamp.clone(),
            },
        }
    }
}

} // verus!
