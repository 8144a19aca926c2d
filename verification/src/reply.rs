//! Replies: an HTTP status and an envelope.

use vstd::prelude::*;
use crate::models::ApiResponse;

verus! {

/// The statuses the service answers with.
#[derive(Clone, Copy, Debug, PartialEq, Eq, Structural)]
pub enum Status {
    Success,
    Created,
    BadRequest,
    Unauthorized,
    NotFound,
    ServerError,
}

/// The numeric HTTP code of a status.
pub open spec fn spec_status_code(s: Status) -> u16 {
    match s {
        Status::Success => 200,
        Status::Created => 201,
        Status::BadRequest => 400,
        Status::Unauthorized => 401,
        Status::NotFound => 404,
        Status::ServerError => 500,
    }
}

impl Status {
    /// The numeric HTTP code of this status.
    pub fn code(&self) -> (c: u16)
        ensures
            c == spec_status_code(*self),
    {
        match self {
            Status::Success => 200,
            Status::Created => 201,
            Status::BadRequest => 400,
            Status::Unauthorized => 401,
            Status::NotFound => 404,
            Status::ServerError => 500,
        }
    }
}

/// A failure of the store (the database), whatever its cause.
#[derive(Clone, Copy, Debug, PartialEq, Eq, Structural)]
pub struct StoreError;

/// A reply: its status and its envelope.
#[derive(Clone, Debug, PartialEq, Eq)]
pub struct Reply<T> {
    pub status: Status,
    pub body: ApiResponse<T>,
}

/// `r` is a successful reply (status 200) carrying `data`.
pub open spec fn is_success_reply<T>(r: Reply<T>, data: T) -> bool {
    &&& r.status == Status::Success
    &&& r.body.success
    &&& r.body.data == Some(data)
    &&& r.body.error is None
}

/// `r` answers the creation of `data` (status 201), carrying it.
pub open spec fn is_created_reply<T>(r: Reply<T>, data: T) -> bool {
    &&& r.status == Status::Created
    &&& r.body.success
    &&& r.body.data == Some(data)
    &&& r.body.error is None
}

/// `r` is a failed reply with status `status` and the message `msg`.
pub open spec fn is_error_reply<T>(r: Reply<T>, status: Status, msg: Seq<char>) -> bool {
    &&& r.status == status
    &&& !r.body.success
    &&& r.body.data is None
    &&& r.body.error matches Some(e) && e@ == msg
}

/// The successful reply carrying `data`.
pub fn reply_ok<T>(data: T) -> (r: Reply<T>)
    ensures
        is_success_reply(r, data),
{
    Reply { status: Status::Success, body: ApiResponse::success(data) }
}

/// The failed reply with status `status` and the message `msg`.
pub fn reply_error<T>(status: Status, msg: &str) -> (r: Reply<T>)
    ensures
        is_error_reply(r, status, msg@),
{
    Reply { status, body: ApiResponse::error(msg.to_string()) }
}

/// The kinds of records the service stores and answers one by one.
#[derive(Clone, Copy, Debug, PartialEq, Eq, Structural)]
pub enum Resource {
    Agent,
    Skill,
    Transaction,
}

/// What the service answers when a record of kind `r` is not found.
pub open spec fn not_found_message(r: Resource) -> Seq<char> {
    match r {
        Resource::Agent => "Agent not found"@,
        Resource::Skill => "Skill not found"@,
        Resource::Transaction => "Transaction not found"@,
    }
}

/// What the service answers when a record of kind `r` could not be stored.
pub open spec fn create_failure_message(r: Resource) -> Seq<char> {
    match r {
        Resource::Agent => "Failed to create agent"@,
        Resource::Skill => "Failed to create skill"@,
        Resource::Transaction => "Failed to create transaction"@,
    }
}

impl Resource {
    /// What the service answers when a record of this kind is not found.
    pub fn not_found_message(&self) -> (m: &'static str)
        ensures
            m@ == not_found_message(*self),
    {
        match self {
            Resource::Agent => "Agent not found",
            Resource::Skill => "Skill not found",
            Resource::Transaction => "Transaction not found",
        }
    }

    /// What the service answers when a record of this kind could not be stored.
    pub fn create_failure_message(&self) -> (m: &'static str)
        ensures
            m@ == create_failure_message(*self),
    {
        match self {
            Resource::Agent => "Failed to create agent",
            Resource::Skill => "Failed to create skill",
            Resource::Transaction => "Failed to create transaction",
        }
    }
}

/// The reply to a lookup of one record of kind `kind`: the record, "… not
/// found" (404) when the store has none, or the store's failure (500).
pub fn found_reply<T>(lookup: Result<Option<T>, StoreError>, kind: Resource) -> (r: Reply<T>)
    ensures
        match lookup {
            Err(_) => is_error_reply(r, Status::ServerError, "Database error"@),
            Ok(None) => is_error_reply(r, Status::NotFound, not_found_message(kind)),
            Ok(Some(x)) => is_success_reply(r, x),
        },
{
    match lookup {
        Err(_) => reply_error(Status::ServerError, "Database error"),
        Ok(None) => reply_error(Status::NotFound, kind.not_found_message()),
        Ok(Some(x)) => reply_ok(x),
    }
}

/// The reply to a listing: the records, in the order the store gave them, or
/// the store's failure (500).
pub fn list_reply<T>(rows: Result<Vec<T>, StoreError>) -> (r: Reply<Vec<T>>)
    ensures
        match rows {
            Err(_) => is_error_reply(r, Status::ServerError, "Database error"@),
            Ok(v) => is_success_reply(r, v),
        },
{
    match rows {
        Err(_) => reply_error(Status::ServerError, "Database error"),
        Ok(v) => reply_ok(v),
    }
}

/// The reply to the creation of `record`, of kind `kind`: the record, with
/// status 201 (Created), once the store has kept it, or "Failed to create …"
/// (500) when it could not.
pub fn stored_reply<T>(record: T, stored: Result<(), StoreError>, kind: Resource) -> (r: Reply<T>)
    ensures
        match stored {
            Err(_) => is_error_reply(r, Status::ServerError, create_failure_message(kind)),
            Ok(_) => is_created_reply(r, record),
        },
{
    match stored {
        Err(_) => reply_error(Status::ServerError, kind.create_failure_message()),
        Ok(_) => Reply { status: Status::Created, body: ApiResponse::success(record) },
    }
}

/// Why a request looks for the agent of the authenticated user.
#[derive(Clone, Copy, Debug, PartialEq, Eq, Structural)]
pub enum AgentUse {
    /// To publish a skill under it: a user without an agent made a bad request.
    Publishing,
    /// To show its dashboard, transactions or skills: there is nothing to show.
    Viewing,
}

/// The status answered when the authenticated user has no agent.
pub open spec fn missing_agent_status(u: AgentUse) -> Status {
    match u {
        AgentUse::Publishing => Status::BadRequest,
        AgentUse::Viewing => Status::NotFound,
    }
}

/// The agent of the authenticated user, from the store's lookup of the user's
/// first agent; when there is none, "Agent not found for user" (400 to publish,
/// 404 to view), and on the store's failure, 500.
pub fn user_agent<T>(lookup: Result<Option<String>, StoreError>, purpose: AgentUse) -> (r: Result<String, Reply<T>>)
    ensures
        match lookup {
            Err(_) => r matches Err(e) && is_error_reply(e, Status::ServerError, "Database error"@),
            Ok(None) => r matches Err(e) && is_error_reply(
                e,
                missing_agent_status(purpose),
                "Agent not found for user"@,
            ),
            Ok(Some(id)) => r == Ok::<String, Reply<T>>(id),
        },
{
    match lookup {
        Err(_) => Err(reply_error(Status::ServerError, "Database error")),
        Ok(None) => {
            let status = match purpose {
                AgentUse::Publishing => Status::BadRequest,
                AgentUse::Viewing => Status::NotFound,
            };
            Err(reply_error(status, "Agent not found for user"))
        },
        Ok(Some(id)) => Ok(id),
    }
}

} // verus!
