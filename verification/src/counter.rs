//! The messages and the state of a counter contract.
use vstd::prelude::*;

verus! {

/// Instantiates the contract.
#[derive(Clone, Copy, Debug, PartialEq, Eq, Structural)]
pub struct InstantiateMsg {}

/// Counts one more call for `address`.
#[derive(Clone, Debug, PartialEq, Eq)]
pub enum ExecuteMsg {
    Increment { address: String },
}

/// Asks for the count of `address`.
#[derive(Clone, Debug, PartialEq, Eq)]
pub enum QueryMsg {
    GetCount { address: String },
}

/// The answer to `QueryMsg::GetCount`.
#[derive(Clone, Copy, Debug, PartialEq, Eq, Structural)]
pub struct GetcountResponse {
    pub count: i32,
}

/// The stored count.
#[derive(Clone, Copy, Debug, PartialEq, Eq, Structural)]
pub struct Counter {
    pub count: i32,
}

} // verus!
