//! What the library takes from outside crates, with the contracts relied on.
use vstd::prelude::*;

verus! {

/// `a2a::AgentCard`, read field by field: name, optional description, URL
/// and version.
#[verifier::external_type_specification]
pub struct ExAgentCard(a2a::AgentCard);

/// Relies on `uuid::Uuid::new_v4` for a random id, rendered by its `Display`
/// impl in the hyphenated form, which is 36 characters long.
#[verifier::external_body]
pub(crate) fn new_task_id() -> (r: String)
    ensures
        r@.len() == 36,
{
    uuid::Uuid::new_v4().to_string()
}

/// Relies on `chrono::Utc::now` and `DateTime::timestamp`: the whole seconds
/// since the Unix epoch, which `now` never places before the epoch.
#[verifier::external_body]
pub(crate) fn now_unix_seconds() -> (r: i64)
    ensures
        r >= 0,
{
    chrono::Utc::now().timestamp()
}

} // verus!
