//! The dashboard of an agent and its public statistics.

use vstd::prelude::*;
use crate::models::{Agent, F64Bits, Skill, Transaction};
use crate::reply::{Reply, Status, StoreError, is_error_reply, reply_error};

verus! {

/// The dashboard of the authenticated user's agent.
#[derive(Clone, Debug, PartialEq, Eq)]
pub struct Dashboard {
    pub agent_id: String,
    pub owned_skills: Vec<Skill>,
    pub active_transactions: Vec<Transaction>,
    pub total_earnings: F64Bits,
    pub reputation_score: F64Bits,
    pub skills_count: usize,
    pub transactions_count: usize,
}

/// The records a listing of the store gave, none when it failed.
pub open spec fn rows_or_none<T>(rows: Result<Vec<T>, StoreError>) -> Seq<T> {
    match rows {
        Ok(v) => v@,
        Err(_) => Seq::empty(),
    }
}

/// The sum the store computed, zero when there was nothing to sum or the
/// store failed.
pub open spec fn sum_or_zero(sum: Result<Option<F64Bits>, StoreError>) -> F64Bits {
    match sum {
        Ok(Some(x)) => x,
        _ => F64Bits(0),
    }
}

/// The value the store read, zero when it failed.
pub open spec fn value_or_zero(v: Result<F64Bits, StoreError>) -> F64Bits {
    match v {
        Ok(x) => x,
        Err(_) => F64Bits(0),
    }
}

/// The records of a listing, none when the store failed.
pub fn rows_or_empty<T>(rows: Result<Vec<T>, StoreError>) -> (v: Vec<T>)
    ensures
        v@ == rows_or_none(rows),
{
    match rows {
        Ok(v) => v,
        Err(_) => Vec::new(),
    }
}

/// The dashboard shows exactly what the store returned: every record of a
/// listing, in order and with nothing dropped (so its counts are the numbers
/// of records the store returned), the sum and the reputation as read; a
/// failed query shows nothing, or zero.
pub proof fn lemma_dashboard_shows_what_the_store_returned<T>(v: Vec<T>, x: F64Bits, e: StoreError)
    ensures
        rows_or_none(Ok::<Vec<T>, StoreError>(v)) == v@,
        rows_or_none(Err::<Vec<T>, StoreError>(e)).len() == 0,
        sum_or_zero(Ok(Some(x))) == x,
        sum_or_zero(Ok(None)) == F64Bits(0),
        sum_or_zero(Err(e)) == F64Bits(0),
        value_or_zero(Ok(x)) == x,
        value_or_zero(Err(e)) == F64Bits(0),
{
}

/// The dashboard of the agent `agent_id`, from what the store answered: its
/// skills, the transactions it takes part in, the sum of the amounts of its
/// completed sales and its reputation. A failed query counts as empty or zero.
pub fn dashboard(
    agent_id: String,
    skills: Result<Vec<Skill>, StoreError>,
    transactions: Result<Vec<Transaction>, StoreError>,
    earnings: Result<Option<F64Bits>, StoreError>,
    reputation: Result<F64Bits, StoreError>,
) -> (d: Dashboard)
    ensures
        d.agent_id == agent_id,
        d.owned_skills@ == rows_or_none(skills),
        d.active_transactions@ == rows_or_none(transactions),
        d.total_earnings == sum_or_zero(earnings),
        d.reputation_score == value_or_zero(reputation),
        d.skills_count == d.owned_skills@.len(),
        d.transactions_count == d.active_transactions@.len(),
{
    let owned_skills = rows_or_empty(skills);
    let active_transactions = rows_or_empty(transactions);
    let total_earnings = match earnings {
        Ok(Some(x)) => x,
        _ => F64Bits::zero(),
    };
    let reputation_score = match reputation {
        Ok(x) => x,
        Err(_) => F64Bits::zero(),
    };
    let skills_count = owned_skills.len();
    let transactions_count = active_transactions.len();
    Dashboard {
        agent_id,
        owned_skills,
        active_transactions,
        total_earnings,
        reputation_score,
        skills_count,
        transactions_count,
    }
}

/// The public statistics of an agent.
#[derive(Clone, Debug, PartialEq, Eq)]
pub struct AgentStats {
    pub agent: Agent,
    pub skills_count: i64,
    pub transactions_count: i64,
    pub total_earnings: F64Bits,
    pub reputation_score: F64Bits,
}

/// The agent whose statistics are asked for, from the store's lookup; when it
/// has none, or fails, the reply "Agent not found" (404).
pub fn stats_agent(lookup: Result<Option<Agent>, StoreError>) -> (r: Result<Agent, Reply<AgentStats>>)
    ensures
        match lookup {
            Ok(Some(a)) => r == Ok::<Agent, Reply<AgentStats>>(a),
            _ => r matches Err(e) && is_error_reply(e, Status::NotFound, "Agent not found"@),
        },
{
    match lookup {
        Ok(Some(a)) => Ok(a),
        _ => Err(reply_error(Status::NotFound, "Agent not found")),
    }
}

/// The count the store made, zero when it failed.
pub open spec fn count_or_zero(c: Result<i64, StoreError>) -> i64 {
    match c {
        Ok(n) => n,
        Err(_) => 0,
    }
}

/// The statistics of `agent` from what the store answered: how many skills it
/// offers, how many sales it made, the sum of the amounts of its completed
/// sales. A failed query counts as zero; the reputation is the agent's own.
pub fn agent_stats(
    agent: Agent,
    skills_count: Result<i64, StoreError>,
    transactions_count: Result<i64, StoreError>,
    earnings: Result<Option<F64Bits>, StoreError>,
) -> (s: AgentStats)
    ensures
        s.agent == agent,
        s.skills_count == count_or_zero(skills_count),
        s.transactions_count == count_or_zero(transactions_count),
        s.total_earnings == sum_or_zero(earnings),
        s.reputation_score == agent.reputation_score,
{
    let skills_count = match skills_count {
        Ok(n) => n,
        Err(_) => 0,
    };
    let transactions_count = match transactions_count {
        Ok(n) => n,
        Err(_) => 0,
    };
    let total_earnings = match earnings {
        Ok(Some(x)) => x,
        _ => F64Bits::zero(),
    };
    let reputation_score = agent.reputation_score;
    AgentStats { agent, skills_count, transactions_count, total_earnings, reputation_score }
}

} // verus!
