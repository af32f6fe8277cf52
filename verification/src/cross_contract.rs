//! The messages of a counter contract that forwards each call to a second
//! counter contract.
use vstd::prelude::*;

verus! {

/// Instantiates the contract.
#[derive(Clone, Copy, Debug, PartialEq, Eq, Structural)]
pub struct InstantiateMsg {}

/// Counts one more call for `address`, here and in the second contract.
#[derive(Clone, Debug, PartialEq, Eq)]
pub enum ExecuteMsg {
    Increment { address: String },
}

/// Asks for the counts of `address`.
#[derive(Clone, Debug, PartialEq, Eq)]
pub enum QueryMsg {
    GetCount { address: String },
}

/// The answer to `QueryMsg::GetCount`: the counts in both contracts.
#[derive(Clone, Copy, Debug, PartialEq, Eq, Structural)]
pub struct GetCounterResponse {
    pub count_counter1: i32,
    pub count_counter2: i32,
}

} // verus!
