//! The records of the marketplace and the bodies of requests and replies.

use vstd::prelude::*;

verus! {

/// The IEEE-754 bit pattern of a real number (a price, an amount, a score).
///
/// The library never computes with such a number: it carries it from a request
/// into a record, and from the store into a reply.
#[derive(Clone, Copy, Debug, PartialEq, Eq, Structural)]
pub struct F64Bits(pub u64);

impl F64Bits {
    /// The real number zero (`0.0`), whose bit pattern is all zeros.
    pub fn zero() -> (r: F64Bits)
        ensures
            r.0 == 0,
    {
        F64Bits(0)
    }
}

/// A registered user.
#[derive(Clone, Debug, PartialEq, Eq)]
pub struct User {
    pub id: String,
    pub username: String,
    pub email: String,
    pub password_hash: String,
    pub created_at: String,
    pub updated_at: String,
}

/// An agent: the marketplace identity of a user.
#[derive(Clone, Debug, PartialEq, Eq)]
pub struct Agent {
    pub id: String,
    pub user_id: String,
    pub name: String,
    pub description: Option<String>,
    pub capabilities: Option<String>,
    pub reputation_score: F64Bits,
    pub created_at: String,
    pub updated_at: String,
}

/// A skill an agent offers as a service.
#[derive(Clone, Debug, PartialEq, Eq)]
pub struct Skill {
    pub id: String,
    pub agent_id: String,
    pub title: String,
    pub description: Option<String>,
    pub category: String,
    pub price: F64Bits,
    pub created_at: String,
    pub updated_at: String,
}

/// An exchange of a skill between a buying and a selling agent.
#[derive(Clone, Debug, PartialEq, Eq)]
pub struct Transaction {
    pub id: String,
    pub buyer_agent_id: String,
    pub seller_agent_id: String,
    pub skill_id: String,
    pub status: String,
    pub amount: F64Bits,
    pub created_at: String,
    pub updated_at: String,
}

/// Body of a registration.
#[derive(Clone, Debug, PartialEq, Eq)]
pub struct RegisterRequest {
    pub username: String,
    pub email: String,
    pub password: String,
}

/// Body of a login.
#[derive(Clone, Debug, PartialEq, Eq)]
pub struct LoginRequest {
    pub username: String,
    pub password: String,
}

/// What a successful registration or login answers: the user's identifier, a
/// session token and the user's name.
#[derive(Clone, Debug, PartialEq, Eq)]
pub struct AuthResponse {
    pub user_id: String,
    pub token: String,
    pub username: String,
}

/// Body of an agent creation.
#[derive(Clone, Debug, PartialEq, Eq)]
pub struct CreateAgentRequest {
    pub name: String,
    pub description: Option<String>,
    pub capabilities: Option<String>,
}

/// Body of a skill creation.
#[derive(Clone, Debug, PartialEq, Eq)]
pub struct CreateSkillRequest {
    pub title: String,
    pub description: Option<String>,
    pub category: String,
    pub price: F64Bits,
}

/// Body of a transaction creation.
#[derive(Clone, Debug, PartialEq, Eq)]
pub struct CreateTransactionRequest {
    pub buyer_agent_id: String,
    pub seller_agent_id: String,
    pub skill_id: String,
    pub amount: F64Bits,
}

/// The envelope of every reply: either data, or an error message.
#[derive(Clone, Debug, PartialEq, Eq)]
pub struct ApiResponse<T> {
    pub success: bool,
    pub data: Option<T>,
    pub error: Option<String>,
}

impl<T> ApiResponse<T> {
    /// The envelope of a successful reply carrying `data`.
    pub fn success(data: T) -> (r: Self)
        ensures
            r.success,
            r.data == Some(data),
            r.error is None,
    {
        ApiResponse { success: true, data: Some(data), error: None }
    }

    /// The envelope of a failed reply carrying the message `error`.
    pub fn error(error: String) -> (r: Self)
        ensures
            !r.success,
            r.data is None,
            r.error == Some(error),
    {
        ApiResponse { success: false, data: None, error: Some(error) }
    }
}

} // verus!
