//! The life of one request, from the call that submits it to its settlement.
//!
//! The factory keeps nothing about a request between the two calls that
//! handle it: the states below are read off the answers that the calls give.

use vstd::prelude::*;

use crate::account::AccountId;
use crate::context::PromiseResult;
use crate::error::FactoryError;
use crate::factory::is_settlement;
use crate::promise::{PromisePlan, Settlement};

verus! {

/// Where a request stands.
#[derive(Clone, Copy, Debug, PartialEq, Eq, Structural)]
pub enum RequestState {
    /// The call has come in and nothing is decided.
    Submitted,
    /// Validation failed. Nothing was issued and no value moves.
    Rejected,
    /// The batch is with the host, and the request waits for its result.
    ActionIssued,
    /// The account exists and holds the deposit.
    Confirmed,
    /// The batch failed and the deposit is on its way back to the caller.
    CompensationIssued,
}

impl RequestState {
    /// Nothing follows this state.
    pub open spec fn is_terminal(self) -> bool {
        self is Rejected || self is Confirmed || self is CompensationIssued
    }
}

/// The state of a request once `create_account` has answered.
pub open spec fn state_after_request(answer: Result<PromisePlan, FactoryError>) -> RequestState {
    match answer {
        Ok(_) => RequestState::ActionIssued,
        Err(_) => RequestState::Rejected,
    }
}

/// The state of a request once `on_account_created` has settled it.
pub open spec fn state_after_settlement(settlement: Settlement) -> RequestState {
    if settlement.creation_succeeded {
        RequestState::Confirmed
    } else {
        RequestState::CompensationIssued
    }
}

/// A request whose batch was issued ends in one of two terminal states, and
/// the host's report alone decides in which: `Confirmed` after a success,
/// `CompensationIssued` after anything else. Only the second sends value.
pub proof fn lemma_the_result_decides_the_terminal_state(
    settlement: Settlement,
    result: PromiseResult,
    predecessor_account_id: AccountId,
    amount: u128,
)
    requires
        is_settlement(settlement, result, predecessor_account_id, amount),
    ensures
        state_after_settlement(settlement).is_terminal(),
        state_after_settlement(settlement) == if result is Successful {
            RequestState::Confirmed
        } else {
            RequestState::CompensationIssued
        },
        state_after_settlement(settlement) is CompensationIssued <==> settlement.refund is Some,
{
}

} // verus!
