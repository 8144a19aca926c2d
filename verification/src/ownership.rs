//! What belongs to a user: the agents it owns, and the skills and
//! transactions of those agents.

use vstd::prelude::*;
use crate::models::{Skill, Transaction};
use crate::reply::{AgentUse, Reply, Status, StoreError, is_error_reply, missing_agent_status, reply_error};

verus! {

/// The agents of the authenticated user, from the store's list of the
/// identifiers of the agents it owns; when it owns none, "Agent not found for
/// user" (400 to publish, 404 to view), and on the store's failure, 500.
pub fn user_agents<T>(lookup: Result<Vec<String>, StoreError>, purpose: AgentUse) -> (r: Result<Vec<String>, Reply<T>>)
    ensures
        match lookup {
            Err(_) => r matches Err(e) && is_error_reply(e, Status::ServerError, "Database error"@),
            Ok(ids) => if ids.len() == 0 {
                r matches Err(e) && is_error_reply(e, missing_agent_status(purpose), "Agent not found for user"@)
            } else {
                r == Ok::<Vec<String>, Reply<T>>(ids)
            },
        },
{
    match lookup {
        Err(_) => Err(reply_error(Status::ServerError, "Database error")),
        Ok(ids) => {
            if ids.len() == 0 {
                let status = match purpose {
                    AgentUse::Publishing => Status::BadRequest,
                    AgentUse::Viewing => Status::NotFound,
                };
                Err(reply_error(status, "Agent not found for user"))
            } else {
                Ok(ids)
            }
        },
    }
}

/// `id` is one of the identifiers `ids`.
pub open spec fn is_listed(ids: Seq<String>, id: Seq<char>) -> bool {
    exists|i: int| 0 <= i < ids.len() && #[trigger] ids[i]@ == id
}

/// Whether `id` is one of the identifiers `ids`.
pub fn listed(ids: &Vec<String>, id: &String) -> (r: bool)
    ensures
        r == is_listed(ids@, id@),
{
    let mut i: usize = 0;
    while i < ids.len()
        invariant
            i <= ids.len(),
            forall|j: int| 0 <= j < i ==> #[trigger] ids@[j]@ != id@,
        decreases ids.len() - i,
    {
        if ids[i] == *id {
            assert(ids@[i as int]@ == id@);
            return true;
        }
        i += 1;
    }
    false
}

/// The skill `s` belongs to one of the agents `agent_ids`.
pub open spec fn skill_of_agents(agent_ids: Seq<String>, s: Skill) -> bool {
    is_listed(agent_ids, s.agent_id@)
}

/// The test of `skill_of_agents`, as a predicate on skills.
pub open spec fn owned_skill(agent_ids: Seq<String>) -> spec_fn(Skill) -> bool {
    |s: Skill| skill_of_agents(agent_ids, s)
}

/// The transaction `t` has one of the agents `agent_ids` as its buyer or its
/// seller.
pub open spec fn transaction_of_agents(agent_ids: Seq<String>, t: Transaction) -> bool {
    is_listed(agent_ids, t.buyer_agent_id@) || is_listed(agent_ids, t.seller_agent_id@)
}

/// The test of `transaction_of_agents`, as a predicate on transactions.
pub open spec fn involving(agent_ids: Seq<String>) -> spec_fn(Transaction) -> bool {
    |t: Transaction| transaction_of_agents(agent_ids, t)
}

/// The skills of `skills` that belong to one of the agents `agent_ids`, in the
/// order of `skills`.
pub fn skills_of_agents(agent_ids: &Vec<String>, skills: Vec<Skill>) -> (r: Vec<Skill>)
    ensures
        r@ == skills@.filter(owned_skill(agent_ids@)),
{
    let ghost all = skills@;
    let mut kept: Vec<Skill> = Vec::new();
    for s in it: skills.into_iter()
        invariant
            it.seq() == all,
            kept@ == all.take(it.index() as int).filter(owned_skill(agent_ids@)),
    {
        let ghost k = it.index() as int;
        proof {
            assert(s == all[k]);
            assert(all.take(k + 1).drop_last() =~= all.take(k));
            assert(all.take(k + 1).last() == s);
        }
        if listed(agent_ids, &s.agent_id) {
            kept.push(s);
        }
        assert(kept@ == all.take(k + 1).filter(owned_skill(agent_ids@))) by {
            reveal(Seq::filter);
        }
    }
    proof {
        assert(all.take(all.len() as int) =~= all);
    }
    kept
}

/// The most transactions a listing of a user's transactions holds.
pub const USER_TRANSACTIONS_LIMIT: usize = 100;

/// The first `limit` records of `s`, or all of them when there are fewer.
pub open spec fn first_at_most<T>(s: Seq<T>, limit: nat) -> Seq<T> {
    if s.len() <= limit {
        s
    } else {
        s.take(limit as int)
    }
}

/// The transactions of `transactions` in which one of the agents `agent_ids`
/// buys or sells, in the order of `transactions`, and at most the first 100
/// of them.
pub fn transactions_of_agents(agent_ids: &Vec<String>, transactions: Vec<Transaction>) -> (r: Vec<Transaction>)
    ensures
        r@ == first_at_most(
            transactions@.filter(involving(agent_ids@)),
            USER_TRANSACTIONS_LIMIT as nat,
        ),
{
    let ghost all = transactions@;
    let mut kept: Vec<Transaction> = Vec::new();
    for t in it: transactions.into_iter()
        invariant
            it.seq() == all,
            kept@ == all.take(it.index() as int).filter(involving(agent_ids@)),
    {
        let ghost k = it.index() as int;
        proof {
            assert(t == all[k]);
            assert(all.take(k + 1).drop_last() =~= all.take(k));
            assert(all.take(k + 1).last() == t);
        }
        if listed(agent_ids, &t.buyer_agent_id) || listed(agent_ids, &t.seller_agent_id) {
            kept.push(t);
        }
        assert(kept@ == all.take(k + 1).filter(involving(agent_ids@))) by {
            reveal(Seq::filter);
        }
    }
    proof {
        assert(all.take(all.len() as int) =~= all);
    }
    kept.truncate(USER_TRANSACTIONS_LIMIT);
    proof {
        let f = all.filter(involving(agent_ids@));
        if f.len() > USER_TRANSACTIONS_LIMIT {
            assert(kept@ =~= f.take(USER_TRANSACTIONS_LIMIT as int));
        }
    }
    kept
}

/// An identifier is listed exactly when one of the identifiers is equal to it.
pub proof fn lemma_listed_means_equal_to_one(ids: Seq<String>, id: Seq<char>)
    ensures
        is_listed(ids, id) <==> exists|i: int| 0 <= i < ids.len() && ids[i]@ == id,
        ids.len() == 0 ==> !is_listed(ids, id),
{
}

/// A transaction is one of a user's exactly when its buyer or its seller is
/// one of the user's agents, whatever the number of agents; a skill is one of
/// a user's exactly when its agent is.
pub proof fn lemma_ownership_is_by_agent(ids: Seq<String>, t: Transaction, s: Skill)
    ensures
        involving(ids)(t) <==> (exists|i: int| 0 <= i < ids.len() && ids[i]@ == t.buyer_agent_id@)
            || (exists|i: int| 0 <= i < ids.len() && ids[i]@ == t.seller_agent_id@),
        owned_skill(ids)(s) <==> exists|i: int| 0 <= i < ids.len() && ids[i]@ == s.agent_id@,
{
}

/// The listing of a user's transactions holds only transactions its agents
/// buy or sell, every one of those when there are at most 100, and never more
/// than 100.
pub proof fn lemma_user_transactions(ids: Seq<String>, all: Seq<Transaction>)
    ensures
        first_at_most(all.filter(involving(ids)), USER_TRANSACTIONS_LIMIT as nat).len() == if all.filter(
            involving(ids),
        ).len() <= 100 {
            all.filter(involving(ids)).len()
        } else {
            100
        },
        forall|k: int|
            0 <= k < first_at_most(all.filter(involving(ids)), USER_TRANSACTIONS_LIMIT as nat).len()
                ==> {
                ||| is_listed(
                    ids,
                    (#[trigger] first_at_most(all.filter(involving(ids)), USER_TRANSACTIONS_LIMIT as nat)[k]).buyer_agent_id@,
                )
                ||| is_listed(
                    ids,
                    first_at_most(all.filter(involving(ids)), USER_TRANSACTIONS_LIMIT as nat)[k].seller_agent_id@,
                )
            },
        all.filter(involving(ids)).len() <= 100 ==> forall|k: int|
            0 <= k < all.len() && ((exists|i: int|
                0 <= i < ids.len() && ids[i]@ == (#[trigger] all[k]).buyer_agent_id@) || (exists|i: int|
                0 <= i < ids.len() && ids[i]@ == all[k].seller_agent_id@)) ==> first_at_most(
                all.filter(involving(ids)),
                USER_TRANSACTIONS_LIMIT as nat,
            ).contains(all[k]),
{
    broadcast use vstd::seq_lib::group_filter_ensures;
    let mine = all.filter(involving(ids));
    let listed = first_at_most(mine, USER_TRANSACTIONS_LIMIT as nat);
    assert forall|k: int| 0 <= k < listed.len() implies {
        ||| is_listed(ids, (#[trigger] listed[k]).buyer_agent_id@)
        ||| is_listed(ids, listed[k].seller_agent_id@)
    } by {
        assert(listed[k] == mine[k]);
        assert(involving(ids)(mine[k]));
    }
    if mine.len() <= 100 {
        assert forall|k: int|
            0 <= k < all.len() && ((exists|i: int|
                0 <= i < ids.len() && ids[i]@ == (#[trigger] all[k]).buyer_agent_id@) || (exists|i: int|
                0 <= i < ids.len() && ids[i]@ == all[k].seller_agent_id@)) implies listed.contains(all[k]) by {
            assert(involving(ids)(all[k]));
        }
    }
}

/// The listing of a user's skills holds exactly the skills of its agents:
/// each skill it holds belongs to one of them, and each skill of one of them
/// is in it.
pub proof fn lemma_user_skills(ids: Seq<String>, skills: Seq<Skill>)
    ensures
        forall|k: int|
            0 <= k < skills.filter(owned_skill(ids)).len() ==> is_listed(
                ids,
                (#[trigger] skills.filter(owned_skill(ids))[k]).agent_id@,
            ),
        forall|k: int|
            0 <= k < skills.len() && (exists|i: int|
                0 <= i < ids.len() && ids[i]@ == (#[trigger] skills[k]).agent_id@) ==> skills.filter(
                owned_skill(ids),
            ).contains(skills[k]),
{
    broadcast use vstd::seq_lib::group_filter_ensures;
    let sl = skills.filter(owned_skill(ids));
    assert forall|k: int| 0 <= k < sl.len() implies is_listed(ids, (#[trigger] sl[k]).agent_id@) by {
        assert(owned_skill(ids)(sl[k]));
    }
    assert forall|k: int|
        0 <= k < skills.len() && (exists|i: int|
            0 <= i < ids.len() && ids[i]@ == (#[trigger] skills[k]).agent_id@) implies sl.contains(skills[k]) by {
        assert(owned_skill(ids)(skills[k]));
    }
}

} // verus!
