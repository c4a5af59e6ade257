//! The purchase order agent: processes submissions into tasks, and looks
//! up and cancels them.
use vstd::prelude::*;
use a2a::AgentCard;
use crate::lifecycle::{AgentError, PartReading, cancel, cancelled_from, csv_text,
    decode_purchase_order, first_order, process_order, result_of, task_from_result};
use crate::model::PurchaseOrder;
use crate::outside::{new_task_id, now_unix_seconds};
use crate::store::{TaskStore, same_lookup};
use crate::task::{Part, ProcessingResult, Task, TaskState, same_result, same_task};
use crate::text::int_text;
use crate::validation::error_texts;

verus! {

/// `t` records the processing of `po` under `id` at time `now`: completed
/// when `po` has no validation errors and failed otherwise, answered by the
/// assistant with the CSV line and the full result.
pub open spec fn processed_task(t: Task, id: Seq<char>, po: PurchaseOrder, now: i64) -> bool {
    &&& t.id@ == id
    &&& t.session_id is None
    &&& t.status.state == if error_texts(po).len() == 0 {
        TaskState::Completed
    } else {
        TaskState::Failed
    }
    &&& t.status.message matches Some(m) && m.role@ == "assistant"@ && m.parts@.len() == 2
        && result_part(m.parts@[0], m.parts@[1], po, now)
    &&& t.status.timestamp@ == int_text(now as int)
}

/// `first` is the CSV line of the result that `second` carries, which is
/// the outcome of processing `po` at time `now`.
pub open spec fn result_part(first: Part, second: Part, po: PurchaseOrder, now: i64) -> bool {
    match (first, second) {
        (Part::Text { text }, Part::Data { result }) => result_of(result, po, now) && text@
            == csv_text(result),
        _ => false,
    }
}

proof fn lemma_result_of_copy(a: ProcessingResult, b: ProcessingResult, po: PurchaseOrder, at: i64)
    requires
        result_of(a, po, at),
        same_result(b, a),
    ensures
        result_of(b, po, at),
        csv_text(b) == csv_text(a),
{
}

/// A purchase order agent with its card and its own task store.
pub struct PurchaseOrderAgent {
    agent_card: AgentCard,
    task_store: TaskStore,
}

impl PurchaseOrderAgent {
    pub closed spec fn card(&self) -> AgentCard {
        self.agent_card
    }

    /// The task stored under `id`, if any.
    pub closed spec fn stored(&self, id: Seq<char>) -> Option<Task> {
        self.task_store.lookup(id)
    }

    /// The agent with its standard card and no tasks.
    pub fn new() -> (r: Self)
        ensures
            r.card().name@ == "Purchase Order Processing Agent"@,
            r.card().description is Some,
            r.card().description->0@
                == "Specialized A2A agent for processing and validating purchase orders"@,
            r.card().url@ == "http://localhost:8080"@,
            r.card().version@ == "1.0.0"@,
            forall|id: Seq<char>| r.stored(id) is None,
    {
        let agent_card = AgentCard {
            name: String::from_str("Purchase Order Processing Agent"),
            description: Some(
                String::from_str(
                    "Specialized A2A agent for processing and validating purchase orders",
                ),
            ),
            url: String::from_str("http://localhost:8080"),
            version: String::from_str("1.0.0"),
        };
        PurchaseOrderAgent { agent_card, task_store: TaskStore::new() }
    }

    /// The agent with a card of the given identity and no tasks.
    pub fn with_config(name: &str, description: &str, url: &str, version: &str) -> (r: Self)
        ensures
            r.card().name@ == name@,
            r.card().description is Some,
            r.card().description->0@ == description@,
            r.card().url@ == url@,
            r.card().version@ == version@,
            forall|id: Seq<char>| r.stored(id) is None,
    {
        let agent_card = AgentCard {
            name: String::from_str(name),
            description: Some(String::from_str(description)),
            url: String::from_str(url),
            version: String::from_str(version),
        };
        PurchaseOrderAgent { agent_card, task_store: TaskStore::new() }
    }

    pub fn get_agent_card(&self) -> (r: &AgentCard)
        ensures
            *r == self.card(),
    {
        &self.agent_card
    }

    /// Decodes the purchase order from the message parts, then validates and
    /// summarises it.
    pub fn process_purchase_order(&self, readings: Vec<PartReading>, processed_at: i64) -> (r:
        Result<ProcessingResult, AgentError>)
        ensures
            match first_order(readings@) {
                Some(po) => r matches Ok(result) && result_of(result, po, processed_at),
                None => r matches Err(AgentError::NoValidPurchaseOrder),
            },
    {
        match decode_purchase_order(readings) {
            Ok(po) => Ok(process_order(po, processed_at)),
            Err(e) => Err(e),
        }
    }

    /// Processes a submission under `task_id` at time `now` and stores the
    /// resulting task; a submission with no purchase order changes nothing.
    pub fn send_task_at(&mut self, readings: Vec<PartReading>, task_id: String, now: i64) -> (r:
        Result<Task, AgentError>)
        ensures
            final(self).card() == old(self).card(),
            match first_order(readings@) {
                Some(po) => r matches Ok(t) && processed_task(t, task_id@, po, now) && same_lookup(
                    Some(t),
                    final(self).stored(task_id@),
                ),
                None => r matches Err(AgentError::NoValidPurchaseOrder) && final(self).stored(
                    task_id@,
                ) == old(self).stored(task_id@),
            },
            forall|id: Seq<char>|
                id != task_id@ ==> #[trigger] final(self).stored(id) == old(self).stored(id),
    {
        let ghost id = task_id@;
        let result = match self.process_purchase_order(readings, now) {
            Ok(result) => result,
            Err(e) => return Err(e),
        };
        let ghost po = first_order(readings@)->0;
        let ghost kept = result;
        let task = task_from_result(task_id, result, now);
        proof {
            let m = task.status.message->0;
            if let Part::Data { result: copy } = m.parts@[1] {
                lemma_result_of_copy(kept, copy, po, now);
            }
        }
        let stored = task.duplicate();
        let ghost s = stored;
        self.task_store.put(stored);
        proof {
            assert(self.task_store.lookup(id) == Some(s));
        }
        Ok(task)
    }

    /// Processes a submission under a fresh random id, at the current time,
    /// and stores the resulting task.
    pub fn send_task(&mut self, readings: Vec<PartReading>) -> (r: Result<Task, AgentError>)
        ensures
            final(self).card() == old(self).card(),
            match first_order(readings@) {
                Some(po) => r matches Ok(t) && t.id@.len() == 36 && (exists|now: i64|
                    processed_task(t, t.id@, po, now)) && same_lookup(
                    Some(t),
                    final(self).stored(t.id@),
                ) && forall|id: Seq<char>|
                    id != t.id@ ==> #[trigger] final(self).stored(id) == old(self).stored(id),
                None => r matches Err(AgentError::NoValidPurchaseOrder),
            },
    {
        let task_id = new_task_id();
        let now = now_unix_seconds();
        self.send_task_at(readings, task_id, now)
    }

    /// A copy of the task stored under `task_id`.
    pub fn get_task(&self, task_id: &str) -> (r: Result<Task, AgentError>)
        ensures
            match self.stored(task_id@) {
                Some(t) => r matches Ok(found) && same_task(found, t),
                None => r matches Err(AgentError::TaskNotFound { task_id: missing })
                    && missing@ == task_id@,
            },
    {
        match self.task_store.get(task_id) {
            Some(t) => Ok(t),
            None => Err(AgentError::TaskNotFound { task_id: String::from_str(task_id) }),
        }
    }

    /// Cancels the task stored under `task_id` at time `now`, whatever its
    /// state: it becomes failed, with a system notice, re-stamped.
    pub fn cancel_task_at(&mut self, task_id: &str, now: i64) -> (r: Result<Task, AgentError>)
        ensures
            final(self).card() == old(self).card(),
            match old(self).stored(task_id@) {
                Some(before) => r matches Ok(t) && cancelled_from(t, before, now) && same_lookup(
                    Some(t),
                    final(self).stored(task_id@),
                ),
                None => r matches Err(AgentError::TaskNotFound { task_id: missing })
                    && missing@ == task_id@ && final(self).stored(task_id@) is None,
            },
            forall|id: Seq<char>|
                id != task_id@ ==> #[trigger] final(self).stored(id) == old(self).stored(id),
    {
        let existing = match self.task_store.get(task_id) {
            Some(t) => t,
            None => return Err(AgentError::TaskNotFound { task_id: String::from_str(task_id) }),
        };
        let updated = cancel(existing, now);
        let stored = updated.duplicate();
        let ghost s = stored;
        self.task_store.put(stored);
        proof {
            assert(self.task_store.lookup(task_id@) == Some(s));
        }
        Ok(updated)
    }

    /// Cancels the task stored under `task_id` at the current time.
    pub fn cancel_task(&mut self, task_id: &str) -> (r: Result<Task, AgentError>)
        ensures
            final(self).card() == old(self).card(),
            match old(self).stored(task_id@) {
                Some(before) => r matches Ok(t) && (exists|now: i64| cancelled_from(t, before, now))
                    && same_lookup(Some(t), final(self).stored(task_id@)),
                None => r matches Err(AgentError::TaskNotFound { task_id: missing })
                    && missing@ == task_id@ && final(self).stored(task_id@) is None,
            },
            forall|id: Seq<char>|
                id != task_id@ ==> #[trigger] final(self).stored(id) == old(self).stored(id),
    {
        let now = now_unix_seconds();
        self.cancel_task_at(task_id, now)
    }
}

} // verus!
