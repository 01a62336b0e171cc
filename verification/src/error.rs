//! The conditions that end a block replay.

use vstd::prelude::*;
use vstd::string::StringExecFns;

verus! {

/// A condition that is fatal to the whole replay. A transaction that fails
/// while it executes is none of these: the replay records it and goes on.
#[derive(Clone, Debug, PartialEq, Eq)]
pub enum ReplayError {
    /// The chain-data provider failed; the text is its detail.
    Provider(String),
    /// The provider holds no block at the requested height.
    BlockNotFound,
    /// The block came without its transactions in full.
    MalformedBlockPayload,
    /// The creating account could not be read while a creation was traced.
    AccountLookup,
}

impl ReplayError {
    /// The text of the error, as a caller is shown it.
    pub open spec fn message_spec(&self) -> Seq<char> {
        match self {
            ReplayError::Provider(detail) => "Error: "@ + detail@,
            ReplayError::BlockNotFound => "Block not found"@,
            ReplayError::MalformedBlockPayload => "Wrong transaction type"@,
            ReplayError::AccountLookup => "Account lookup failed"@,
        }
    }

    pub fn message(&self) -> (text: String)
        ensures
            text@ == self.message_spec(),
    {
        match self {
            ReplayError::Provider(detail) => String::from_str("Error: ").concat(detail.as_str()),
            ReplayError::BlockNotFound => String::from_str("Block not found"),
            ReplayError::MalformedBlockPayload => String::from_str("Wrong transaction type"),
            ReplayError::AccountLookup => String::from_str("Account lookup failed"),
        }
    }
}

} // verus!
