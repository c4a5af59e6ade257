//! A purchase-order processing agent: decoding, validation, summaries,
//! task lifecycle and an in-memory task store, with verified contracts.
pub mod agent;
pub mod agent_card;
pub mod lifecycle;
pub mod model;
mod outside;
pub mod responses;
pub mod store;
pub mod task;
pub mod text;
pub mod validation;

pub use agent::PurchaseOrderAgent;
pub use agent_card::{A2AAgentCard, Authentication, Capabilities, ProviderInfo, Skill};
pub use lifecycle::{AgentError, PartReading};
pub use model::{PurchaseOrder, PurchaseOrderItem, PurchaseOrderSummary, PurchaseOrderWrapper};
pub use responses::{AgentInfoResponse, EndpointInfo, TaskResponse, get_agent_info};
pub use task::{Message, Part, ProcessingResult, Task, TaskState, TaskStatus};
