//! What the host tells the factory about the call that is running.

use vstd::prelude::*;

use crate::account::AccountId;

verus! {

/// How a promise that the running call waited for has ended.
#[derive(Clone, Copy, Debug, PartialEq, Eq, Structural)]
pub enum PromiseResult {
    /// The promise has not been resolved.
    NotReady,
    /// Every action of the promise was carried out.
    Successful,
    /// The promise failed, and none of its actions took effect.
    Failed,
}

/// The host's account of the running call.
#[derive(Debug)]
pub struct CallContext {
    /// The account that made the call.
    pub predecessor_account_id: AccountId,
    /// The account that the factory itself runs under.
    pub current_account_id: AccountId,
    /// The value that the caller attached to the call.
    pub attached_deposit: u128,
    /// The results of the promises that the call is a callback of, in order.
    pub promise_results: Vec<PromiseResult>,
}

impl CallContext {
    /// The call was made by the factory itself.
    pub open spec fn is_self_call(&self) -> bool {
        self.predecessor_account_id@ == self.current_account_id@
    }
}

} // verus!
