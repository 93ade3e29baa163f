//! The factory: its registry of approved accounts, the validation of requests,
//! the batch that provisions an account, and the callback that settles it.

use vstd::prelude::*;

use crate::account::AccountId;
use crate::account_set::AccountSet;
use crate::args::KeypomArgs;
use crate::context::{CallContext, PromiseResult};
use crate::error::FactoryError;
use crate::promise::{
    CreationCallback, PromiseAction, PromisePlan, Settlement, ON_CREATE_ACCOUNT_CALLBACK_GAS,
};

verus! {

/// The registry as mathematics: the owner's name and the two sets of names.
#[verifier::ext_equal]
pub struct FactoryView {
    pub owner_id: Seq<char>,
    pub approved_creators: Set<Seq<char>>,
    pub approved_funders: Set<Seq<char>>,
}

impl FactoryView {
    /// The registry after `caller` asked to approve `account_id` as a creator:
    /// the owner is obeyed, anybody else changes nothing.
    pub open spec fn add_approved_creator(
        self,
        caller: Seq<char>,
        account_id: Seq<char>,
    ) -> FactoryView {
        if caller == self.owner_id {
            FactoryView { approved_creators: self.approved_creators.insert(account_id), ..self }
        } else {
            self
        }
    }

    /// The registry after `caller` asked to withdraw the approval of
    /// `account_id` as a creator.
    pub open spec fn remove_approved_creator(
        self,
        caller: Seq<char>,
        account_id: Seq<char>,
    ) -> FactoryView {
        if caller == self.owner_id {
            FactoryView { approved_creators: self.approved_creators.remove(account_id), ..self }
        } else {
            self
        }
    }

    /// The verdict on a request: the caller has to be an approved creator;
    /// structured arguments, where there are any, have to announce the funder
    /// under the expected field; a funder, where one is named, has to be an
    /// approved funder. The first rule that is broken decides the error.
    pub open spec fn validation(
        self,
        caller: Seq<char>,
        keypom_args: Option<KeypomArgs>,
        funder_id: Option<AccountId>,
    ) -> Result<(), FactoryError> {
        if !self.approved_creators.contains(caller) {
            Err(FactoryError::Unauthorized)
        } else if keypom_args matches Some(args) && !args.names_funder_field() {
            Err(FactoryError::MalformedArguments)
        } else if funder_id matches Some(funder) && !self.approved_funders.contains(funder@) {
            Err(FactoryError::Unauthorized)
        } else {
            Ok(())
        }
    }
}

/// The batch that provisions `new_account_id` for the call described by
/// `ctx`: create the account, give the key full access to it, move the whole
/// deposit to it, and call the factory back with the caller and the deposit.
pub open spec fn is_provisioning_plan(
    plan: PromisePlan,
    ctx: CallContext,
    new_account_id: AccountId,
    new_public_key: near_sdk::PublicKey,
) -> bool {
    &&& plan.receiver_id == new_account_id
    &&& plan.actions@ =~= seq![
        PromiseAction::CreateAccount,
        PromiseAction::AddFullAccessKey(new_public_key),
        PromiseAction::Transfer(ctx.attached_deposit),
    ]
    &&& plan.callback == Some(
        CreationCallback {
            contract_id: ctx.current_account_id,
            predecessor_account_id: ctx.predecessor_account_id,
            amount: ctx.attached_deposit,
            static_gas: ON_CREATE_ACCOUNT_CALLBACK_GAS,
        },
    )
}

/// The batch that sends `amount` to `receiver_id` and does nothing else.
pub open spec fn is_refund(plan: PromisePlan, receiver_id: AccountId, amount: u128) -> bool {
    &&& plan.receiver_id == receiver_id
    &&& plan.actions@ =~= seq![PromiseAction::Transfer(amount)]
    &&& plan.callback is None
}

/// The settlement of a request whose batch ended in `result`: a successful
/// batch is confirmed and nothing moves; after any other result the deposit
/// goes back to the caller that attached it.
pub open spec fn is_settlement(
    settlement: Settlement,
    result: PromiseResult,
    predecessor_account_id: AccountId,
    amount: u128,
) -> bool {
    &&& settlement.creation_succeeded == (result is Successful)
    &&& result is Successful ==> settlement.refund is None
    &&& !(result is Successful) ==> (settlement.refund matches Some(plan) && is_refund(
        plan,
        predecessor_account_id,
        amount,
    ))
}

/// Reads the single promise result that a callback has to find.
///
/// Fails with `ProtocolViolation` unless there is exactly one result; tells
/// otherwise whether that result is a success.
pub fn is_promise_success(ctx: &CallContext) -> (r: Result<bool, FactoryError>)
    ensures
        ctx.promise_results@.len() != 1 ==> r == Err::<bool, FactoryError>(
            FactoryError::ProtocolViolation,
        ),
        ctx.promise_results@.len() == 1 ==> r == Ok::<bool, FactoryError>(
            ctx.promise_results@[0] is Successful,
        ),
{
    if ctx.promise_results.len() != 1 {
        return Err(FactoryError::ProtocolViolation);
    }
    match ctx.promise_results[0] {
        PromiseResult::Successful => Ok(true),
        _ => Ok(false),
    }
}

/// The factory's registry: who owns it, who may ask for accounts, and who may
/// fund them.
#[derive(Debug)]
pub struct AccountFactory {
    pub owner_id: AccountId,
    pub approved_creators: AccountSet,
    pub approved_funders: AccountSet,
}

impl View for AccountFactory {
    type V = FactoryView;

    open spec fn view(&self) -> FactoryView {
        FactoryView {
            owner_id: self.owner_id@,
            approved_creators: self.approved_creators@,
            approved_funders: self.approved_funders@,
        }
    }
}

impl AccountFactory {
    /// A factory owned by the caller, with nobody approved.
    pub fn new(ctx: &CallContext) -> (factory: AccountFactory)
        ensures
            factory.owner_id == ctx.predecessor_account_id,
            factory.approved_creators@ == Set::<Seq<char>>::empty(),
            factory.approved_funders@ == Set::<Seq<char>>::empty(),
    {
        AccountFactory {
            owner_id: ctx.predecessor_account_id.clone(),
            approved_creators: AccountSet::new(),
            approved_funders: AccountSet::new(),
        }
    }

    /// Decides whether a request may go ahead. Changes nothing.
    pub fn validate(
        &self,
        caller: &AccountId,
        keypom_args: &Option<KeypomArgs>,
        funder_id: &Option<AccountId>,
    ) -> (r: Result<(), FactoryError>)
        ensures
            r == self@.validation(caller@, *keypom_args, *funder_id),
    {
        if !self.approved_creators.contains(caller) {
            return Err(FactoryError::Unauthorized);
        }
        match keypom_args {
            Some(args) => {
                if !args.has_funder_field() {
                    return Err(FactoryError::MalformedArguments);
                }
            },
            None => {},
        }
        match funder_id {
            Some(funder) => {
                if !self.approved_funders.contains(funder) {
                    return Err(FactoryError::Unauthorized);
                }
            },
            None => {},
        }
        Ok(())
    }

    /// Handles a request for a new account.
    ///
    /// A request that does not pass validation is turned down with the
    /// validator's error and no batch is described. Otherwise the result is the
    /// batch that creates the account, gives the key full access to it and
    /// moves the attached deposit to it, followed by the callback that settles
    /// the request. The registry stays as it is either way.
    pub fn create_account(
        &mut self,
        ctx: &CallContext,
        new_account_id: AccountId,
        new_public_key: near_sdk::PublicKey,
        funder_id: Option<AccountId>,
        keypom_args: Option<KeypomArgs>,
    ) -> (r: Result<PromisePlan, FactoryError>)
        ensures
            *final(self) == *old(self),
            // Nobody but an approved creator gets a batch.
            !old(self)@.approved_creators.contains(ctx.predecessor_account_id@)
                ==> r == Err::<PromisePlan, FactoryError>(FactoryError::Unauthorized),
            // An approved creator with mislabelled arguments is told so.
            old(self)@.approved_creators.contains(ctx.predecessor_account_id@)
                && (keypom_args matches Some(args) && !args.names_funder_field())
                ==> r == Err::<PromisePlan, FactoryError>(FactoryError::MalformedArguments),
            // A funder that is not approved is turned down, unless the
            // arguments of an approved creator were found mislabelled first.
            (funder_id matches Some(funder) && !old(self)@.approved_funders.contains(funder@))
                && !(old(self)@.approved_creators.contains(ctx.predecessor_account_id@)
                && (keypom_args matches Some(args) && !args.names_funder_field()))
                ==> r == Err::<PromisePlan, FactoryError>(FactoryError::Unauthorized),
            // In full: the validator's error, or the batch.
            match old(self)@.validation(ctx.predecessor_account_id@, keypom_args, funder_id) {
                Ok(_) => r matches Ok(plan) && is_provisioning_plan(
                    plan,
                    *ctx,
                    new_account_id,
                    new_public_key,
                ),
                Err(error) => r == Err::<PromisePlan, FactoryError>(error),
            },
    {
        match self.validate(&ctx.predecessor_account_id, &keypom_args, &funder_id) {
            Err(error) => {
                return Err(error);
            },
            Ok(_) => {},
        }
        let amount: u128 = ctx.attached_deposit;
        let mut actions: Vec<PromiseAction> = Vec::new();
        actions.push(PromiseAction::CreateAccount);
        actions.push(PromiseAction::AddFullAccessKey(new_public_key));
        actions.push(PromiseAction::Transfer(amount));
        let callback = CreationCallback {
            contract_id: ctx.current_account_id.clone(),
            predecessor_account_id: ctx.predecessor_account_id.clone(),
            amount,
            static_gas: ON_CREATE_ACCOUNT_CALLBACK_GAS,
        };
        Ok(PromisePlan { receiver_id: new_account_id, actions, callback: Some(callback) })
    }

    /// Callback after executing `create_account`.
    ///
    /// Only the factory itself may call it, as the continuation of a batch:
    /// any other caller is turned down with `Forbidden`. The call has to find
    /// exactly one promise result, or it fails with `ProtocolViolation`. After
    /// a successful batch nothing more happens; after any other result the
    /// amount is sent back to `predecessor_account_id`. The registry stays as
    /// it is.
    pub fn on_account_created(
        &mut self,
        ctx: &CallContext,
        predecessor_account_id: AccountId,
        amount: u128,
    ) -> (r: Result<Settlement, FactoryError>)
        ensures
            *final(self) == *old(self),
            !ctx.is_self_call()
                ==> r == Err::<Settlement, FactoryError>(FactoryError::Forbidden),
            ctx.is_self_call() && ctx.promise_results@.len() != 1
                ==> r == Err::<Settlement, FactoryError>(FactoryError::ProtocolViolation),
            ctx.is_self_call() && ctx.promise_results@.len() == 1
                ==> (r matches Ok(settlement) && is_settlement(
                settlement,
                ctx.promise_results@[0],
                predecessor_account_id,
                amount,
            )),
    {
        if !ctx.predecessor_account_id.same_as(&ctx.current_account_id) {
            return Err(FactoryError::Forbidden);
        }
        let creation_succeeded = match is_promise_success(ctx) {
            Ok(succeeded) => succeeded,
            Err(error) => {
                return Err(error);
            },
        };
        if creation_succeeded {
            Ok(Settlement { creation_succeeded, refund: None })
        } else {
            let mut actions: Vec<PromiseAction> = Vec::new();
            actions.push(PromiseAction::Transfer(amount));
            let refund = PromisePlan { receiver_id: predecessor_account_id, actions, callback: None };
            Ok(Settlement { creation_succeeded, refund: Some(refund) })
        }
    }

    /// Approves an account as a creator. Only the owner may do so; approving
    /// an account that is approved already changes nothing.
    pub fn add_approved_creator(&mut self, ctx: &CallContext, account_id: AccountId) -> (r: Result<
        (),
        FactoryError,
    >)
        ensures
            final(self)@ == old(self)@.add_approved_creator(
                ctx.predecessor_account_id@,
                account_id@,
            ),
            final(self).owner_id == old(self).owner_id,
            final(self).approved_funders == old(self).approved_funders,
            ctx.predecessor_account_id@ == old(self).owner_id@ ==> r == Ok::<(), FactoryError>(()),
            ctx.predecessor_account_id@ != old(self).owner_id@ ==> r == Err::<(), FactoryError>(
                FactoryError::Unauthorized,
            ) && *final(self) == *old(self),
    {
        match self.assert_contract_owner(ctx) {
            Err(error) => {
                return Err(error);
            },
            Ok(_) => {},
        }
        self.approved_creators.insert(&account_id);
        Ok(())
    }

    /// Withdraws the approval of an account as a creator. Only the owner may
    /// do so; withdrawing an approval that was never given changes nothing.
    pub fn remove_approved_creator(
        &mut self,
        ctx: &CallContext,
        account_id: AccountId,
    ) -> (r: Result<(), FactoryError>)
        ensures
            final(self)@ == old(self)@.remove_approved_creator(
                ctx.predecessor_account_id@,
                account_id@,
            ),
            final(self).owner_id == old(self).owner_id,
            final(self).approved_funders == old(self).approved_funders,
            ctx.predecessor_account_id@ == old(self).owner_id@ ==> r == Ok::<(), FactoryError>(()),
            ctx.predecessor_account_id@ != old(self).owner_id@ ==> r == Err::<(), FactoryError>(
                FactoryError::Unauthorized,
            ) && *final(self) == *old(self),
    {
        match self.assert_contract_owner(ctx) {
            Err(error) => {
                return Err(error);
            },
            Ok(_) => {},
        }
        self.approved_creators.remove(&account_id);
        Ok(())
    }

    /// Whether the account is an approved creator. Anybody may ask.
    pub fn is_approved_creator(&self, account_id: AccountId) -> (approved: bool)
        ensures
            approved == self@.approved_creators.contains(account_id@),
    {
        self.approved_creators.contains(&account_id)
    }

    /// Passes only for the owner: any other caller gets `Unauthorized`.
    pub fn assert_contract_owner(&self, ctx: &CallContext) -> (r: Result<(), FactoryError>)
        ensures
            ctx.predecessor_account_id@ == self.owner_id@ ==> r == Ok::<(), FactoryError>(()),
            ctx.predecessor_account_id@ != self.owner_id@ ==> r == Err::<(), FactoryError>(
                FactoryError::Unauthorized,
            ),
    {
        if self.owner_id.same_as(&ctx.predecessor_account_id) {
            Ok(())
        } else {
            Err(FactoryError::Unauthorized)
        }
    }
}

} // verus!
