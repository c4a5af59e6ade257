//! The shapes in which the agent reports itself and its tasks to clients.
use vstd::prelude::*;
use a2a::AgentCard;
use crate::lifecycle::AgentError;
use crate::task::{Part, ProcessingResult, Task, TaskState, same_result, same_text};

verus! {

/// One operation that the agent serves.
#[derive(Debug, Clone)]
pub struct EndpointInfo {
    pub path: String,
    pub method: String,
    pub description: String,
}

/// The agent's identity with the list of operations it serves.
#[derive(Debug, Clone)]
pub struct AgentInfoResponse {
    pub name: String,
    pub description: Option<String>,
    pub url: String,
    pub version: String,
    pub endpoints: Vec<EndpointInfo>,
}

/// Report of one task operation.
#[derive(Debug, Clone)]
pub struct TaskResponse {
    pub task_id: String,
    pub status: String,
    /// Text of the last text part of the task's message.
    pub csv_output: Option<String>,
    /// Result carried by the last structured part of the task's message.
    pub detailed_result: Option<ProcessingResult>,
    pub error: Option<String>,
}

pub open spec fn endpoint_is(e: EndpointInfo, path: Seq<char>, method: Seq<char>, description: Seq<
    char,
>) -> bool {
    e.path@ == path && e.method@ == method && e.description@ == description
}

/// The operations listed by `get_agent_info`, in order.
pub open spec fn served_endpoints(v: Seq<EndpointInfo>) -> bool {
    &&& v.len() == 10
    &&& endpoint_is(v[0], "/"@, "GET"@, "Get agent information and available endpoints"@)
    &&& endpoint_is(v[1], "/.well-known/agent.json"@, "GET"@, "Get A2A compliant agent card (standard A2A endpoint)"@)
    &&& endpoint_is(v[2], "/agent.json"@, "GET"@, "Get A2A compliant agent card (alternative endpoint)"@)
    &&& endpoint_is(v[3], "/a2a/agent.json"@, "GET"@, "Get A2A compliant agent card (alternative endpoint)"@)
    &&& endpoint_is(v[4], "/agent/card"@, "GET"@, "Get A2A compliant agent card (RESTful endpoint)"@)
    &&& endpoint_is(v[5], "/agent/info"@, "GET"@, "Get detailed agent information"@)
    &&& endpoint_is(v[6], "/agent/task"@, "POST"@, "Send a purchase order for processing"@)
    &&& endpoint_is(v[7], "/agent/task/{task_id}"@, "GET"@, "Get the status and result of a specific task"@)
    &&& endpoint_is(v[8], "/agent/task/{task_id}/cancel"@, "POST"@, "Cancel a specific task"@)
    &&& endpoint_is(v[9], "/health"@, "GET"@, "Health check endpoint"@)
}

fn endpoint(path: &str, method: &str, description: &str) -> (r: EndpointInfo)
    ensures
        endpoint_is(r, path@, method@, description@),
{
    EndpointInfo {
        path: String::from_str(path),
        method: String::from_str(method),
        description: String::from_str(description),
    }
}

/// The identity on `card` and the operations the agent serves.
pub fn get_agent_info(card: &AgentCard) -> (r: AgentInfoResponse)
    ensures
        r.name@ == card.name@,
        same_text(r.description, card.description),
        r.url@ == card.url@,
        r.version@ == card.version@,
        served_endpoints(r.endpoints@),
{
    let endpoints = vec![
        endpoint("/", "GET", "Get agent information and available endpoints"),
        endpoint("/.well-known/agent.json", "GET", "Get A2A compliant agent card (standard A2A endpoint)"),
        endpoint("/agent.json", "GET", "Get A2A compliant agent card (alternative endpoint)"),
        endpoint("/a2a/agent.json", "GET", "Get A2A compliant agent card (alternative endpoint)"),
        endpoint("/agent/card", "GET", "Get A2A compliant agent card (RESTful endpoint)"),
        endpoint("/agent/info", "GET", "Get detailed agent information"),
        endpoint("/agent/task", "POST", "Send a purchase order for processing"),
        endpoint("/agent/task/{task_id}", "GET", "Get the status and result of a specific task"),
        endpoint("/agent/task/{task_id}/cancel", "POST", "Cancel a specific task"),
        endpoint("/health", "GET", "Health check endpoint"),
    ];
    let description = match &card.description {
        Some(d) => Some(d.clone()),
        None => None,
    };
    AgentInfoResponse {
        name: card.name.clone(),
        description,
        url: card.url.clone(),
        version: card.version.clone(),
        endpoints,
    }
}

/// Name of a state in task reports.
pub open spec fn state_label(s: TaskState) -> Seq<char> {
    match s {
        TaskState::Completed => "completed"@,
        TaskState::Failed => "failed"@,
        TaskState::Submitted => "submitted"@,
        TaskState::Working => "working"@,
        TaskState::InputRequired => "input_required"@,
        TaskState::Canceled => "cancelled"@,
    }
}

/// Name of a state in cancellation reports, where failed reads as cancelled.
pub open spec fn cancel_label(s: TaskState) -> Seq<char> {
    match s {
        TaskState::Failed => "cancelled"@,
        _ => state_label(s),
    }
}

fn label(s: TaskState, cancelling: bool) -> (r: String)
    ensures
        r@ == if cancelling {
            cancel_label(s)
        } else {
            state_label(s)
        },
{
    let text = match s {
        TaskState::Completed => "completed",
        TaskState::Failed => if cancelling {
            "cancelled"
        } else {
            "failed"
        },
        TaskState::Submitted => "submitted",
        TaskState::Working => "working",
        TaskState::InputRequired => "input_required",
        TaskState::Canceled => "cancelled",
    };
    String::from_str(text)
}

/// Text of the last text part among the first `n` parts.
pub open spec fn last_text(parts: Seq<Part>, n: nat) -> Option<Seq<char>>
    decreases n,
{
    if n == 0 || n > parts.len() {
        None
    } else {
        match parts[n - 1] {
            Part::Text { text } => Some(text@),
            _ => last_text(parts, (n - 1) as nat),
        }
    }
}

/// Result of the last structured part among the first `n` parts.
pub open spec fn last_result(parts: Seq<Part>, n: nat) -> Option<ProcessingResult>
    decreases n,
{
    if n == 0 || n > parts.len() {
        None
    } else {
        match parts[n - 1] {
            Part::Data { result } => Some(result),
            _ => last_result(parts, (n - 1) as nat),
        }
    }
}

pub open spec fn text_is(r: Option<String>, expected: Option<Seq<char>>) -> bool {
    match (r, expected) {
        (Some(a), Some(b)) => a@ == b,
        (None, None) => true,
        _ => false,
    }
}

pub open spec fn result_is(r: Option<ProcessingResult>, expected: Option<ProcessingResult>) -> bool {
    match (r, expected) {
        (Some(a), Some(b)) => same_result(a, b),
        (None, None) => true,
        _ => false,
    }
}

/// The parts of the task's message, or none when it has no message.
pub open spec fn message_parts(t: Task) -> Seq<Part> {
    match t.status.message {
        Some(m) => m.parts@,
        None => Seq::empty(),
    }
}

/// Reports a task: its id, the name of its state, and the CSV line and
/// result that its message carries.
pub fn task_response(task: &Task) -> (r: TaskResponse)
    ensures
        r.task_id@ == task.id@,
        r.status@ == state_label(task.status.state),
        text_is(r.csv_output, last_text(message_parts(*task), message_parts(*task).len())),
        result_is(r.detailed_result, last_result(message_parts(*task), message_parts(*task).len())),
        r.error is None,
{
    let mut csv_output: Option<String> = None;
    let mut detailed_result: Option<ProcessingResult> = None;
    match &task.status.message {
        Some(message) => {
            let mut i: usize = 0;
            while i < message.parts.len()
                invariant
                    i <= message.parts@.len(),
                    message_parts(*task) == message.parts@,
                    text_is(csv_output, last_text(message.parts@, i as nat)),
                    result_is(detailed_result, last_result(message.parts@, i as nat)),
                decreases message.parts@.len() - i,
            {
                match &message.parts[i] {
                    Part::Text { text } => {
                        csv_output = Some(text.clone());
                    },
                    Part::Data { result } => {
                        detailed_result = Some(result.duplicate());
                    },
                }
                i = i + 1;
            }
        },
        None => {},
    }
    TaskResponse {
        task_id: task.id.clone(),
        status: label(task.status.state, false),
        csv_output,
        detailed_result,
        error: None,
    }
}

/// Reports a cancelled task: its id and the name of its state only.
pub fn cancel_response(task: &Task) -> (r: TaskResponse)
    ensures
        r.task_id@ == task.id@,
        r.status@ == cancel_label(task.status.state),
        r.csv_output is None,
        r.detailed_result is None,
        r.error is None,
{
    TaskResponse {
        task_id: task.id.clone(),
        status: label(task.status.state, true),
        csv_output: None,
        detailed_result: None,
        error: None,
    }
}

/// Reports a failed submission: no task id, status `error`, and the
/// description of the failure.
pub fn error_response(e: &AgentError) -> (r: TaskResponse)
    ensures
        r.task_id@ == Seq::<char>::empty(),
        r.status@ == "error"@,
        r.csv_output is None,
        r.detailed_result is None,
        r.error matches Some(m) && m@ == match e {
            AgentError::NoValidPurchaseOrder => "No valid purchase order found in message"@,
            AgentError::TaskNotFound { task_id } => "Task "@ + task_id@ + " not found"@,
        },
{
    TaskResponse {
        task_id: String::new(),
        status: String::from_str("error"),
        csv_output: None,
        detailed_result: None,
        error: Some(e.message()),
    }
}

} // verus!
