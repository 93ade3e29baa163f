//! What holds of the factory as a whole.

use vstd::prelude::*;

use crate::account::AccountId;
use crate::context::{CallContext, PromiseResult};
use crate::factory::{is_provisioning_plan, is_settlement, FactoryView};
use crate::promise::{
    total_transferred, value_delivered, value_refunded, PromiseAction, PromisePlan, Settlement,
};

verus! {

/// A batch that only creates an account, adds a key and makes one transfer
/// moves the amount of that transfer.
pub proof fn lemma_provisioning_moves_the_deposit(actions: Seq<PromiseAction>, amount: u128)
    requires
        actions.len() == 3,
        actions[0] is CreateAccount,
        actions[1] is AddFullAccessKey,
        actions[2] == PromiseAction::Transfer(amount),
    ensures
        total_transferred(actions) == amount,
{
    reveal_with_fuel(total_transferred, 4);
}

/// A batch of a single transfer moves the amount of that transfer.
pub proof fn lemma_refund_moves_the_amount(actions: Seq<PromiseAction>, amount: u128)
    requires
        actions.len() == 1,
        actions[0] == PromiseAction::Transfer(amount),
    ensures
        total_transferred(actions) == amount,
{
    reveal_with_fuel(total_transferred, 2);
}

/// No value is stranded. Take the batch described for a request and the
/// settlement decided for whatever result the host reports of it: what the
/// new account holds and what goes back add up to the attached deposit. After
/// a success all of it is with the new account and nothing goes back; after
/// anything else the new account holds nothing and all of it goes back to the
/// caller that attached it.
pub proof fn lemma_no_value_is_stranded(
    plan: PromisePlan,
    ctx: CallContext,
    new_account_id: AccountId,
    new_public_key: near_sdk::PublicKey,
    result: PromiseResult,
    settlement: Settlement,
)
    requires
        is_provisioning_plan(plan, ctx, new_account_id, new_public_key),
        plan.callback matches Some(callback) && is_settlement(
            settlement,
            result,
            callback.predecessor_account_id,
            callback.amount,
        ),
    ensures
        value_delivered(plan, result) + value_refunded(settlement) == ctx.attached_deposit,
        result is Successful ==> value_delivered(plan, result) == ctx.attached_deposit
            && settlement.refund is None,
        !(result is Successful) ==> value_delivered(plan, result) == 0 && (
        settlement.refund matches Some(refund) && refund.receiver_id == ctx.predecessor_account_id
            && total_transferred(refund.actions@) == ctx.attached_deposit),
{
    lemma_provisioning_moves_the_deposit(plan.actions@, ctx.attached_deposit);
    if !(result is Successful) {
        lemma_refund_moves_the_amount(settlement.refund->0.actions@, ctx.attached_deposit);
    }
}

/// Approving a creator twice leaves the registry as approving it once does.
pub proof fn lemma_add_approved_creator_is_idempotent(
    registry: FactoryView,
    caller: Seq<char>,
    account_id: Seq<char>,
)
    ensures
        registry.add_approved_creator(caller, account_id).add_approved_creator(caller, account_id)
            == registry.add_approved_creator(caller, account_id),
{
    let once = registry.add_approved_creator(caller, account_id);
    let twice = once.add_approved_creator(caller, account_id);
    assert(twice.approved_creators =~= once.approved_creators);
}

/// Withdrawing the approval of an account that is no creator changes nothing.
pub proof fn lemma_remove_absent_creator_changes_nothing(
    registry: FactoryView,
    caller: Seq<char>,
    account_id: Seq<char>,
)
    requires
        !registry.approved_creators.contains(account_id),
    ensures
        registry.remove_approved_creator(caller, account_id) == registry,
{
    let after = registry.remove_approved_creator(caller, account_id);
    assert(after.approved_creators =~= registry.approved_creators);
}

} // verus!
