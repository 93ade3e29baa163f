//! An authorization-gated account factory.
//!
//! Approved creators ask for a new named account to be provisioned with a
//! full-access key and a deposit. The factory validates the request, describes
//! the batch of actions that the host has to run, and, once the host reports
//! how the batch ended, either confirms the creation or sends the deposit back
//! to the caller that attached it.
//!
//! Nothing here talks to the host: every entry point takes a [`CallContext`]
//! that holds what the host says of the running call, and answers with a
//! description of what the host has to do next.

pub mod account;
pub mod account_set;
pub mod args;
pub mod context;
pub mod error;
pub mod factory;
pub mod laws;
pub mod promise;
pub mod workflow;

pub use account::AccountId;
pub use account_set::AccountSet;
pub use args::KeypomArgs;
pub use context::{CallContext, PromiseResult};
pub use error::FactoryError;
pub use factory::{is_promise_success, AccountFactory};
pub use promise::{
    CreationCallback, PromiseAction, PromisePlan, Settlement, ON_CREATE_ACCOUNT_CALLBACK_GAS,
};
pub use workflow::RequestState;
