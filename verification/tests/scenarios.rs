use std::collections::HashMap;

use account_factory::{
    AccountFactory, AccountId, CallContext, FactoryError, PromiseAction, PromisePlan,
    PromiseResult,
};
use near_sdk::PublicKey;

fn id(name: &str) -> AccountId {
    AccountId::new(name.to_string()).unwrap()
}

fn key() -> PublicKey {
    "ed25519:6E8sCci9badyRkXb3JoRpBj5p8C6Tw41ELDZoiihKEtp".parse().unwrap()
}

/// A host small enough to read: balances and keys by account name. A batch
/// either takes effect as a whole or not at all.
struct Host {
    balances: HashMap<String, u128>,
    keys: HashMap<String, Vec<PublicKey>>,
}

impl Host {
    fn new() -> Host {
        let mut balances = HashMap::new();
        balances.insert("alice.near".to_string(), 100);
        balances.insert("factory.near".to_string(), 0);
        Host { balances, keys: HashMap::new() }
    }

    fn balance(&self, name: &str) -> u128 {
        self.balances.get(name).copied().unwrap_or(0)
    }

    fn has_account(&self, name: &str) -> bool {
        self.balances.contains_key(name)
    }

    /// The caller attaches the deposit to a call of the factory.
    fn attach(&mut self, caller: &str, deposit: u128) -> CallContext {
        *self.balances.get_mut(caller).unwrap() -= deposit;
        *self.balances.get_mut("factory.near").unwrap() += deposit;
        CallContext {
            predecessor_account_id: id(caller),
            current_account_id: id("factory.near"),
            attached_deposit: deposit,
            promise_results: Vec::new(),
        }
    }

    /// Runs a batch for the factory, or fails it without any effect.
    fn run(&mut self, plan: &PromisePlan, works: bool) -> PromiseResult {
        if !works {
            return PromiseResult::Failed;
        }
        let receiver = plan.receiver_id.as_str().to_string();
        for action in plan.actions.iter() {
            match action {
                PromiseAction::CreateAccount => {
                    self.balances.insert(receiver.clone(), 0);
                }
                PromiseAction::AddFullAccessKey(key) => {
                    self.keys.entry(receiver.clone()).or_default().push(key.clone());
                }
                PromiseAction::Transfer(amount) => {
                    *self.balances.get_mut("factory.near").unwrap() -= amount;
                    *self.balances.get_mut(&receiver).unwrap() += amount;
                }
            }
        }
        PromiseResult::Successful
    }
}

/// The owner approves alice, alice asks for `bob.near` with 5 attached, the
/// host runs the batch with the given luck and calls the factory back.
fn provision(host: &mut Host, works: bool) -> bool {
    let owner = CallContext {
        predecessor_account_id: id("owner.near"),
        current_account_id: id("factory.near"),
        attached_deposit: 0,
        promise_results: Vec::new(),
    };
    let mut factory = AccountFactory::new(&owner);
    factory.add_approved_creator(&owner, id("alice.near")).unwrap();

    let request = host.attach("alice.near", 5);
    let plan = factory.create_account(&request, id("bob.near"), key(), None, None).unwrap();
    let result = host.run(&plan, works);

    let continuation = plan.callback.unwrap();
    let callback = CallContext {
        predecessor_account_id: continuation.contract_id.clone(),
        current_account_id: id("factory.near"),
        attached_deposit: 0,
        promise_results: vec![result],
    };
    let settlement = factory
        .on_account_created(&callback, continuation.predecessor_account_id, continuation.amount)
        .unwrap();
    if let Some(refund) = &settlement.refund {
        assert_eq!(host.run(refund, true), PromiseResult::Successful);
    }
    settlement.creation_succeeded
}

#[test]
fn a_creation_that_succeeds_leaves_the_deposit_with_the_new_account() {
    let mut host = Host::new();
    assert!(provision(&mut host, true));
    assert!(host.has_account("bob.near"));
    assert_eq!(host.balance("bob.near"), 5);
    assert_eq!(host.keys.get("bob.near"), Some(&vec![key()]));
    assert_eq!(host.balance("alice.near"), 95);
    assert_eq!(host.balance("factory.near"), 0);
}

#[test]
fn a_creation_that_fails_sends_the_deposit_back() {
    let mut host = Host::new();
    assert!(!provision(&mut host, false));
    assert!(!host.has_account("bob.near"));
    assert_eq!(host.keys.get("bob.near"), None);
    assert_eq!(host.balance("alice.near"), 100);
    assert_eq!(host.balance("factory.near"), 0);
}

#[test]
fn the_deposit_is_with_the_new_account_or_back_with_the_caller() {
    for works in [true, false] {
        let mut host = Host::new();
        provision(&mut host, works);
        let refunded = host.balance("alice.near") - 95;
        assert_eq!(host.balance("bob.near") + refunded, 5);
        assert_eq!(host.balance("factory.near"), 0);
    }
}

#[test]
fn somebody_else_than_the_owner_cannot_approve_a_creator() {
    let owner = CallContext {
        predecessor_account_id: id("owner.near"),
        current_account_id: id("factory.near"),
        attached_deposit: 0,
        promise_results: Vec::new(),
    };
    let mut factory = AccountFactory::new(&owner);
    let mut host = Host::new();
    let stranger = host.attach("alice.near", 0);
    assert_eq!(
        factory.add_approved_creator(&stranger, id("alice.near")),
        Err(FactoryError::Unauthorized)
    );
    assert!(!factory.is_approved_creator(id("alice.near")));
    assert!(factory.approved_creators.to_vec().is_empty());
    assert!(factory.approved_funders.to_vec().is_empty());
    assert_eq!(factory.owner_id, id("owner.near"));
}

#[test]
fn requests_in_flight_do_not_touch_each_other() {
    let owner = CallContext {
        predecessor_account_id: id("owner.near"),
        current_account_id: id("factory.near"),
        attached_deposit: 0,
        promise_results: Vec::new(),
    };
    let mut factory = AccountFactory::new(&owner);
    factory.add_approved_creator(&owner, id("alice.near")).unwrap();
    factory.add_approved_creator(&owner, id("carol.near")).unwrap();

    let first = CallContext {
        predecessor_account_id: id("alice.near"),
        current_account_id: id("factory.near"),
        attached_deposit: 5,
        promise_results: Vec::new(),
    };
    let second = CallContext {
        predecessor_account_id: id("carol.near"),
        current_account_id: id("factory.near"),
        attached_deposit: 9,
        promise_results: Vec::new(),
    };
    let for_alice =
        factory.create_account(&first, id("bob.near"), key(), None, None).unwrap().callback.unwrap();
    let for_carol =
        factory.create_account(&second, id("dave.near"), key(), None, None).unwrap().callback.unwrap();

    // The second request is settled first, and fails; the first succeeds.
    let failed = CallContext {
        predecessor_account_id: id("factory.near"),
        current_account_id: id("factory.near"),
        attached_deposit: 0,
        promise_results: vec![PromiseResult::Failed],
    };
    let settled = factory
        .on_account_created(&failed, for_carol.predecessor_account_id, for_carol.amount)
        .unwrap();
    let refund = settled.refund.unwrap();
    assert_eq!(refund.receiver_id, id("carol.near"));
    assert_eq!(refund.actions, vec![PromiseAction::Transfer(9)]);

    let succeeded = CallContext {
        predecessor_account_id: id("factory.near"),
        current_account_id: id("factory.near"),
        attached_deposit: 0,
        promise_results: vec![PromiseResult::Successful],
    };
    let settled = factory
        .on_account_created(&succeeded, for_alice.predecessor_account_id, for_alice.amount)
        .unwrap();
    assert!(settled.creation_succeeded);
    assert_eq!(settled.refund, None);
}
