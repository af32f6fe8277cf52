//! The greeting actor: its parameters and the greeting it returns.
use vstd::prelude::*;

verus! {

/// The parameters of the greeting method.
#[derive(Clone, Debug, PartialEq, Eq)]
pub struct Hello {
    pub name: String,
}

/// The greeting for `params.name`.
pub fn say_hello(params: &Hello) -> (greeting: String)
    ensures
        greeting@ == "Hello world  "@ + params.name@,
{
    let mut greeting = "Hello world  ".to_string();
    greeting.append(params.name.as_str());
    greeting
}

/// The call of the greeting method that the calling method sends: to the
/// actor at `to`, method number `method`, with the bytes `params`, carrying
/// `value` of the native token.
#[derive(Clone, Debug, PartialEq, Eq)]
pub struct HelloCall {
    pub to: String,
    pub method: u64,
    pub params: Vec<u8>,
    pub value: u128,
}

/// The greeting call that the calling method sends: to the actor
/// `f2g25mp47ixng7frzchiiwgaushvmrpylsmy5ehba`, method 2, no parameters, no value.
pub fn hello_call() -> (call: HelloCall)
    ensures
        call.to@ == "f2g25mp47ixng7frzchiiwgaushvmrpylsmy5ehba"@,
        call.method == 2,
        call.params@.len() == 0,
        call.value == 0,
{
    HelloCall {
        to: String::from_str("f2g25mp47ixng7frzchiiwgaushvmrpylsmy5ehba"),
        method: 2,
        params: Vec::new(),
        value: 0,
    }
}

/// What the calling method answers, given the debug text of what sending
/// the greeting call returned.
pub fn hello_reply(call_debug: &str) -> (reply: String)
    ensures
        reply@ == "Hello world "@ + call_debug@,
{
    let mut reply = String::from_str("Hello world ");
    reply.append(call_debug);
    reply
}

} // verus!
