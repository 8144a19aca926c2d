//! Changing the status of a transaction.

use vstd::prelude::*;
use crate::clock::{now_rfc3339, is_utc_rfc3339_text};
use crate::models::Transaction;
use crate::reply::{Reply, Status, StoreError, is_error_reply, is_success_reply, reply_error, reply_ok};

verus! {

/// The status a transaction takes when the request names none.
pub open spec fn default_status() -> Seq<char> {
    seq!['c', 'o', 'm', 'p', 'l', 'e', 't', 'e', 'd']
}

/// The statuses a transaction can have: `pending`, `in_progress`,
/// `completed` and `cancelled`.
pub open spec fn is_valid_status(s: Seq<char>) -> bool {
    ||| s == seq!['p', 'e', 'n', 'd', 'i', 'n', 'g']
    ||| s == seq!['i', 'n', '_', 'p', 'r', 'o', 'g', 'r', 'e', 's', 's']
    ||| s == default_status()
    ||| s == seq!['c', 'a', 'n', 'c', 'e', 'l', 'l', 'e', 'd']
}

/// The message a status update with an unknown status is refused with.
pub open spec fn invalid_status_message() -> Seq<char> {
    "Invalid status: must be pending, in_progress, completed or cancelled"@
}

/// Whether `s` is one of the statuses a transaction can have.
pub fn is_known_status(s: &String) -> (r: bool)
    ensures
        r == is_valid_status(s@),
{
    let pending = "pending".to_string();
    let in_progress = "in_progress".to_string();
    let completed = "completed".to_string();
    let cancelled = "cancelled".to_string();
    proof {
        reveal_strlit("pending");
        reveal_strlit("in_progress");
        reveal_strlit("completed");
        reveal_strlit("cancelled");
        assert(pending@ =~= seq!['p', 'e', 'n', 'd', 'i', 'n', 'g']);
        assert(in_progress@ =~= seq!['i', 'n', '_', 'p', 'r', 'o', 'g', 'r', 'e', 's', 's']);
        assert(completed@ =~= default_status());
        assert(cancelled@ =~= seq!['c', 'a', 'n', 'c', 'e', 'l', 'l', 'e', 'd']);
    }
    *s == pending || *s == in_progress || *s == completed || *s == cancelled
}

/// The status a status change asks for: the `status` member of its body when
/// that member is a JSON string, and `completed` otherwise.
pub open spec fn spec_requested_status(status: Option<String>) -> Seq<char> {
    match status {
        Some(s) => s@,
        None => default_status(),
    }
}

/// The status a status change asks for (see `spec_requested_status`).
pub fn requested_status(status: Option<String>) -> (r: String)
    ensures
        r@ == spec_requested_status(status),
        status matches Some(s) ==> r == s,
{
    match status {
        Some(s) => s,
        None => {
            proof {
                reveal_strlit("completed");
            }
            "completed".to_string()
        },
    }
}

/// A change of the status of a transaction, to be written to the store.
#[derive(Clone, Debug, PartialEq, Eq)]
pub struct StatusChange {
    pub transaction_id: String,
    pub status: String,
    pub updated_at: String,
}

/// The change asked for by a status update of the transaction
/// `transaction_id` at the time `now`: the requested status, when it is one a
/// transaction can have; otherwise the update is refused (400) and nothing
/// changes.
pub fn status_change_at<T>(transaction_id: &str, status: Option<String>, now: String) -> (r: Result<StatusChange, Reply<T>>)
    ensures
        match r {
            Ok(c) => {
                &&& is_valid_status(spec_requested_status(status))
                &&& c.transaction_id@ == transaction_id@
                &&& c.status@ == spec_requested_status(status)
                &&& c.updated_at == now
            },
            Err(e) => {
                &&& !is_valid_status(spec_requested_status(status))
                &&& is_error_reply(e, Status::BadRequest, invalid_status_message())
            },
        },
{
    let status = requested_status(status);
    if !is_known_status(&status) {
        return Err(reply_error(
            Status::BadRequest,
            "Invalid status: must be pending, in_progress, completed or cancelled",
        ));
    }
    Ok(StatusChange { transaction_id: transaction_id.to_string(), status, updated_at: now })
}

/// The change asked for by a status update of the transaction
/// `transaction_id`, stamped now (see `status_change_at`).
pub fn status_change<T>(transaction_id: &str, status: Option<String>) -> (r: Result<StatusChange, Reply<T>>)
    ensures
        match r {
            Ok(c) => {
                &&& is_valid_status(spec_requested_status(status))
                &&& c.transaction_id@ == transaction_id@
                &&& c.status@ == spec_requested_status(status)
                &&& is_utc_rfc3339_text(c.updated_at@)
            },
            Err(e) => {
                &&& !is_valid_status(spec_requested_status(status))
                &&& is_error_reply(e, Status::BadRequest, invalid_status_message())
            },
        },
{
    let now = now_rfc3339();
    status_change_at(transaction_id, status, now)
}

/// The transaction `t` after the change `c`: its status and its time of
/// update are those of the change, every other field is unchanged.
pub open spec fn changed_transaction(t: Transaction, c: StatusChange) -> Transaction {
    Transaction { status: c.status, updated_at: c.updated_at, ..t }
}

/// A status change sets the status and the time of update of the
/// transaction to those of the change, whatever its current status, and
/// leaves every other field as it was.
pub proof fn lemma_status_change_sets_status_and_time_only(t: Transaction, c: StatusChange)
    ensures
        changed_transaction(t, c).status == c.status,
        changed_transaction(t, c).updated_at == c.updated_at,
        changed_transaction(t, c).id == t.id,
        changed_transaction(t, c).buyer_agent_id == t.buyer_agent_id,
        changed_transaction(t, c).seller_agent_id == t.seller_agent_id,
        changed_transaction(t, c).skill_id == t.skill_id,
        changed_transaction(t, c).amount == t.amount,
        changed_transaction(t, c).created_at == t.created_at,
{
}

/// Every status a transaction can have is accepted by a status update, and
/// it is the status the change carries; the default is `completed`.
pub proof fn lemma_valid_statuses_are_accepted()
    ensures
        is_valid_status("pending"@),
        is_valid_status("in_progress"@),
        is_valid_status("completed"@),
        is_valid_status("cancelled"@),
        spec_requested_status(None) == "completed"@,
        forall|s: String| #[trigger] spec_requested_status(Some(s)) == s@,
{
    reveal_strlit("pending");
    reveal_strlit("in_progress");
    reveal_strlit("completed");
    reveal_strlit("cancelled");
    assert("pending"@ =~= seq!['p', 'e', 'n', 'd', 'i', 'n', 'g']);
    assert("in_progress"@ =~= seq!['i', 'n', '_', 'p', 'r', 'o', 'g', 'r', 'e', 's', 's']);
    assert("completed"@ =~= default_status());
    assert("cancelled"@ =~= seq!['c', 'a', 'n', 'c', 'e', 'l', 'l', 'e', 'd']);
}

/// The transaction a status change produces, once the store has answered the
/// lookup of the transaction: the transaction with its new status; "Transaction
/// not found" (404) when there is no such transaction, and on the store's
/// failure, 500.
pub fn updated_transaction(change: StatusChange, current: Result<Option<Transaction>, StoreError>) -> (r: Result<Transaction, Reply<Transaction>>)
    ensures
        match current {
            Err(_) => r matches Err(e) && is_error_reply(e, Status::ServerError, "Database error"@),
            Ok(None) => r matches Err(e) && is_error_reply(e, Status::NotFound, "Transaction not found"@),
            Ok(Some(t)) => r == Ok::<Transaction, Reply<Transaction>>(changed_transaction(t, change)),
        },
{
    match current {
        Err(_) => Err(reply_error(Status::ServerError, "Database error")),
        Ok(None) => Err(reply_error(Status::NotFound, "Transaction not found")),
        Ok(Some(t)) => Ok(Transaction { status: change.status, updated_at: change.updated_at, ..t }),
    }
}

/// The reply to a status update, once the store has answered the update of
/// the transaction `updated` with the number of records it changed: the
/// updated transaction; "Transaction not found" (404) when the store changed
/// none, and on the store's failure, 500.
pub fn status_update_reply(updated: Transaction, changed: Result<u64, StoreError>) -> (r: Reply<Transaction>)
    ensures
        match changed {
            Err(_) => is_error_reply(r, Status::ServerError, "Failed to update transaction"@),
            Ok(n) => if n == 0 {
                is_error_reply(r, Status::NotFound, "Transaction not found"@)
            } else {
                is_success_reply(r, updated)
            },
        },
{
    match changed {
        Err(_) => reply_error(Status::ServerError, "Failed to update transaction"),
        Ok(n) => {
            if n == 0 {
                reply_error(Status::NotFound, "Transaction not found")
            } else {
                reply_ok(updated)
            }
        },
    }
}

} // verus!
