//! Descriptions of the work that the factory hands to the host.

use vstd::prelude::*;

use crate::account::AccountId;
use crate::context::PromiseResult;

verus! {

/// `near_sdk::PublicKey`, a public key as the host takes it. The factory
/// hands a key on as it got it; nothing is read from it or claimed of it.
#[verifier::external_type_specification]
#[verifier::external_body]
pub struct ExPublicKey(near_sdk::PublicKey);

/// Gas attached to the callback from account creation.
pub const ON_CREATE_ACCOUNT_CALLBACK_GAS: u64 = 20_000_000_000_000;

/// One action of a batch.
#[derive(Debug, PartialEq, Eq)]
pub enum PromiseAction {
    /// Create the receiving account.
    CreateAccount,
    /// Give the key full access to the receiving account.
    AddFullAccessKey(near_sdk::PublicKey),
    /// Move the amount to the receiving account.
    Transfer(u128),
}

/// The call that the host makes to the factory once a batch is resolved. It
/// carries what the factory needs to settle the request, so that nothing has
/// to be remembered between the two calls.
#[derive(Debug, PartialEq, Eq)]
pub struct CreationCallback {
    /// The account of the factory, which receives the callback.
    pub contract_id: AccountId,
    /// The caller that asked for the account and attached the deposit.
    pub predecessor_account_id: AccountId,
    /// The deposit that went into the batch.
    pub amount: u128,
    /// Gas set aside for the callback.
    pub static_gas: u64,
}

/// A batch of actions on one receiver. The host runs the batch as a unit:
/// either every action takes effect or none does.
#[derive(Debug, PartialEq, Eq)]
pub struct PromisePlan {
    /// The account that the actions apply to.
    pub receiver_id: AccountId,
    /// The actions, in the order in which they run.
    pub actions: Vec<PromiseAction>,
    /// The callback to schedule behind the batch, if any.
    pub callback: Option<CreationCallback>,
}

/// What the callback decided.
#[derive(Debug, PartialEq, Eq)]
pub struct Settlement {
    /// Whether the account was created.
    pub creation_succeeded: bool,
    /// The transfer that sends the deposit back, if the creation failed.
    pub refund: Option<PromisePlan>,
}

/// The value that one action moves.
pub open spec fn action_value(action: PromiseAction) -> nat {
    match action {
        PromiseAction::Transfer(amount) => amount as nat,
        _ => 0,
    }
}

/// The value that a batch moves to its receiver.
pub open spec fn total_transferred(actions: Seq<PromiseAction>) -> nat
    decreases actions.len(),
{
    if actions.len() == 0 {
        0
    } else {
        total_transferred(actions.drop_last()) + action_value(actions.last())
    }
}

/// The value that the receiver of a batch holds once the host has resolved
/// it: what the batch moves if it succeeded, nothing otherwise.
pub open spec fn value_delivered(plan: PromisePlan, result: PromiseResult) -> nat {
    if result is Successful {
        total_transferred(plan.actions@)
    } else {
        0
    }
}

/// The value that a settlement sends back.
pub open spec fn value_refunded(settlement: Settlement) -> nat {
    match settlement.refund {
        Some(plan) => total_transferred(plan.actions@),
        None => 0,
    }
}

} // verus!
