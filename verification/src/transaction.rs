//! Tracking a submitted transaction until it settles.
//!
//! The submitter sends the transaction, then polls `getTransaction`,
//! waiting between attempts, until the status leaves `NOT_FOUND` and
//! `PENDING` or the attempts run out. The waiting and the requests are the
//! caller's; this module decides what to do after each answer.
use vstd::prelude::*;
use crate::errors::{SdkError, SdkErrorView};
use crate::rpc::GetTransactionResult;
use crate::text::{i64_to_string, int_decimal};

verus! {

/// Statuses of a transaction that has not settled yet.
pub open spec fn is_settling(status: Seq<char>) -> bool {
    status == "NOT_FOUND"@ || status == "PENDING"@
}

/// Whether `status` says the transaction has not settled yet.
pub fn is_settling_status(status: &String) -> (res: bool)
    ensures
        res == is_settling(status@),
{
    let not_found = String::from_str("NOT_FOUND");
    let pending = String::from_str("PENDING");
    *status == not_found || *status == pending
}

/// What to do after a `getTransaction` answer.
#[derive(Debug)]
pub enum PollAction {
    /// The transaction settled: this is the outcome.
    Return(GetTransactionResult),
    /// Give up with this error.
    Fail(SdkError),
    /// Still settling: wait the poll interval, then poll again.
    WaitAndPoll,
}

/// The message of the error returned when the attempts run out.
pub open spec fn not_settled_message(max_attempts: u32) -> Seq<char> {
    "transaction did not settle after "@ + int_decimal(max_attempts as int) + " attempts"@
}

/// Sends and tracks transactions.
pub struct TransactionSubmitter;

impl TransactionSubmitter {
    /// The error returned when `max_attempts` polls all found the
    /// transaction still settling.
    pub fn not_settled_error(max_attempts: u32) -> (res: SdkError)
        ensures
            res@ == SdkErrorView::RpcError(not_settled_message(max_attempts)),
    {
        let mut msg = String::from_str("transaction did not settle after ");
        let n = i64_to_string(max_attempts as i64);
        msg.append(n.as_str());
        msg.append(" attempts");
        SdkError::RpcError(msg)
    }

    /// Whether poll number `attempt` (counting from 0) may still be made.
    pub fn may_poll(attempt: u32, max_attempts: u32) -> (res: bool)
        ensures
            res == (attempt < max_attempts),
    {
        attempt < max_attempts
    }

    /// The decision after poll number `attempt` (counting from 0) out of
    /// `max_attempts` answered `fetched`: an error is returned at once; a
    /// settled transaction is the outcome; a settling one is polled again
    /// after a wait while attempts remain, and otherwise fails with
    /// `not_settled_error`.
    pub fn after_poll(attempt: u32, max_attempts: u32, fetched: Result<GetTransactionResult, SdkError>) -> (res:
        PollAction)
        requires
            attempt < max_attempts,
        ensures
            match fetched {
                Err(e) => res == PollAction::Fail(e),
                Ok(r) => if !is_settling(r.status@) {
                    res == PollAction::Return(r)
                } else if attempt + 1 < max_attempts {
                    res is WaitAndPoll
                } else {
                    res matches PollAction::Fail(e) && e@ == SdkErrorView::RpcError(
                        not_settled_message(max_attempts),
                    )
                },
            },
    {
        match fetched {
            Err(e) => PollAction::Fail(e),
            Ok(r) => {
                if !is_settling_status(&r.status) {
                    PollAction::Return(r)
                } else if attempt + 1 < max_attempts {
                    PollAction::WaitAndPoll
                } else {
                    PollAction::Fail(Self::not_settled_error(max_attempts))
                }
            },
        }
    }
}

} // verus!
