//! The ways in which a request to the factory fails.

use vstd::prelude::*;

verus! {

/// Why the factory turned a call down.
#[derive(Clone, Copy, Debug, PartialEq, Eq, Structural)]
pub enum FactoryError {
    /// The caller is not an approved creator, the funder is not an approved
    /// funder, or an owner-only operation was called by somebody else.
    Unauthorized,
    /// The structured arguments do not carry the funder in the expected field.
    MalformedArguments,
    /// The name does not follow the rules for account names.
    InvalidResourceName,
    /// The callback was invoked by somebody other than the factory itself.
    Forbidden,
    /// The callback did not find exactly one promise result.
    ProtocolViolation,
}

} // verus!
