//! Building new records: agents, skills and transactions.

use vstd::prelude::*;
use crate::auth::Claims;
use crate::clock::{now_rfc3339, is_utc_rfc3339_text};
use crate::ids::{new_uuid_v4_text, is_uuid_v4_text};
use crate::models::{
    Agent, CreateAgentRequest, CreateSkillRequest, CreateTransactionRequest, F64Bits, Skill,
    Transaction,
};

verus! {

/// An owned copy of an optional text.
pub fn copy_optional_text(o: &Option<String>) -> (r: Option<String>)
    ensures
        r == *o,
{
    match o {
        Some(s) => Some(s.clone()),
        None => None,
    }
}

/// The agent record for `body`, owned by `user_id`, with identifier `id`,
/// created at `now`: its reputation starts at zero.
pub fn agent_record(id: String, user_id: String, body: &CreateAgentRequest, now: String) -> (a: Agent)
    ensures
        a.id == id,
        a.user_id == user_id,
        a.name == body.name,
        a.description == body.description,
        a.capabilities == body.capabilities,
        a.reputation_score == F64Bits(0),
        a.created_at == now,
        a.updated_at == now,
{
    let updated_at = now.clone();
    Agent {
        id,
        user_id,
        name: body.name.clone(),
        description: copy_optional_text(&body.description),
        capabilities: copy_optional_text(&body.capabilities),
        reputation_score: F64Bits::zero(),
        created_at: now,
        updated_at,
    }
}

/// A new agent for the authenticated user `claims.sub`: a fresh identifier,
/// created now.
pub fn new_agent(claims: &Claims, body: &CreateAgentRequest) -> (a: Agent)
    ensures
        is_uuid_v4_text(a.id@),
        a.user_id == claims.sub,
        a.name == body.name,
        a.description == body.description,
        a.capabilities == body.capabilities,
        a.reputation_score == F64Bits(0),
        is_utc_rfc3339_text(a.created_at@),
        a.updated_at == a.created_at,
{
    let id = new_uuid_v4_text();
    let now = now_rfc3339();
    agent_record(id, claims.sub.clone(), body, now)
}

/// The skill record for `body`, offered by the agent `agent_id`, with
/// identifier `id`, created at `now`.
pub fn skill_record(id: String, agent_id: String, body: &CreateSkillRequest, now: String) -> (s: Skill)
    ensures
        s.id == id,
        s.agent_id == agent_id,
        s.title == body.title,
        s.description == body.description,
        s.category == body.category,
        s.price == body.price,
        s.created_at == now,
        s.updated_at == now,
{
    let updated_at = now.clone();
    Skill {
        id,
        agent_id,
        title: body.title.clone(),
        description: copy_optional_text(&body.description),
        category: body.category.clone(),
        price: body.price,
        created_at: now,
        updated_at,
    }
}

/// A new skill offered by the agent `agent_id`: a fresh identifier, created now.
pub fn new_skill(agent_id: String, body: &CreateSkillRequest) -> (s: Skill)
    ensures
        is_uuid_v4_text(s.id@),
        s.agent_id == agent_id,
        s.title == body.title,
        s.description == body.description,
        s.category == body.category,
        s.price == body.price,
        is_utc_rfc3339_text(s.created_at@),
        s.updated_at == s.created_at,
{
    let id = new_uuid_v4_text();
    let now = now_rfc3339();
    skill_record(id, agent_id, body, now)
}

/// The status of a transaction that has just been recorded.
pub open spec fn pending_status() -> Seq<char> {
    seq!['p', 'e', 'n', 'd', 'i', 'n', 'g']
}

/// The transaction record for `body`, with identifier `id`, created at `now`:
/// it starts `pending`.
pub fn transaction_record(id: String, body: &CreateTransactionRequest, now: String) -> (t: Transaction)
    ensures
        t.id == id,
        t.buyer_agent_id == body.buyer_agent_id,
        t.seller_agent_id == body.seller_agent_id,
        t.skill_id == body.skill_id,
        t.status@ == pending_status(),
        t.amount == body.amount,
        t.created_at == now,
        t.updated_at == now,
{
    let updated_at = now.clone();
    let status = "pending".to_string();
    proof {
        reveal_strlit("pending");
    }
    Transaction {
        id,
        buyer_agent_id: body.buyer_agent_id.clone(),
        seller_agent_id: body.seller_agent_id.clone(),
        skill_id: body.skill_id.clone(),
        status,
        amount: body.amount,
        created_at: now,
        updated_at,
    }
}

/// A new transaction for `body`: a fresh identifier, `pending`, created now.
pub fn new_transaction(body: &CreateTransactionRequest) -> (t: Transaction)
    ensures
        is_uuid_v4_text(t.id@),
        t.buyer_agent_id == body.buyer_agent_id,
        t.seller_agent_id == body.seller_agent_id,
        t.skill_id == body.skill_id,
        t.status@ == pending_status(),
        t.amount == body.amount,
        is_utc_rfc3339_text(t.created_at@),
        t.updated_at == t.created_at,
{
    let id = new_uuid_v4_text();
    let now = now_rfc3339();
    transaction_record(id, body, now)
}

} // verus!
