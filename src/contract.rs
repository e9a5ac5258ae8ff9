//! The handlers: each takes the instance's state and the sender, and gives
//! the new state and the response, or an error that leaves the state as it was.
use crate::msg::{ExecuteMsg, InstantiateMsg, QueryMsg, ValueResp};
use crate::response::{
    add_attribute, attributes_of, decimal, decimal_text, empty_response, only_attributes,
};
use crate::state::{ContractError, State};
use cosmwasm_std::Response;
use vstd::prelude::*;

verus! {

/// The counter after an increment: one more, or unchanged at the largest `u64`.
pub open spec fn incremented(n: u64) -> u64 {
    if n == u64::MAX {
        n
    } else {
        (n + 1) as u64
    }
}

/// The counter after a decrement: one less, or unchanged at zero.
pub open spec fn decremented(n: u64) -> u64 {
    if n == 0 {
        0
    } else {
        (n - 1) as u64
    }
}

/// The attributes that a successful command reports: what was done, by
/// whom, and the counter's new value.
pub open spec fn report(
    action: Seq<char>,
    sender: Seq<char>,
    counter: u64,
) -> Seq<(Seq<char>, Seq<char>)> {
    seq![("action"@, action), ("sender"@, sender), ("counter"@, decimal(counter as nat))]
}

fn report_response(action: &str, sender: &String, counter: u64) -> (r: Response)
    ensures
        attributes_of(r) == report(action@, sender@, counter),
        only_attributes(r),
{
    proof {
        reveal_strlit("action");
        reveal_strlit("sender");
        reveal_strlit("counter");
    }
    let r = empty_response();
    let r = add_attribute(r, "action", action.to_owned());
    let r = add_attribute(r, "sender", sender.clone());
    let r = add_attribute(r, "counter", decimal_text(counter));
    assert(attributes_of(r) =~= report(action@, sender@, counter));
    r
}

/// Creates an instance: the counter starts at `msg.counter_value` and the
/// sender becomes the owner. The response holds no attributes.
pub fn instantiate(sender: &String, msg: InstantiateMsg) -> (r: (State, Response))
    ensures
        r.0.counter == msg.counter_value,
        r.0.owner@ == sender@,
        attributes_of(r.1) == Seq::<(Seq<char>, Seq<char>)>::empty(),
        only_attributes(r.1),
{
    let state = State { counter: msg.counter_value, owner: sender.clone() };
    (state, empty_response())
}

/// Adds one to the counter; at the largest `u64` the counter stays as it is.
/// Anyone may send it.
pub fn increment(state: &mut State, sender: &String) -> (r: Response)
    ensures
        final(state).counter == incremented(old(state).counter),
        final(state).owner == old(state).owner,
        attributes_of(r) == report("increment"@, sender@, final(state).counter),
        only_attributes(r),
{
    let counter = state.counter.checked_add(1u64).unwrap_or(state.counter);
    state.counter = counter;
    report_response("increment", sender, counter)
}

/// Takes one from the counter; at zero the counter stays zero.
/// Anyone may send it.
pub fn decrement(state: &mut State, sender: &String) -> (r: Response)
    ensures
        final(state).counter == decremented(old(state).counter),
        final(state).owner == old(state).owner,
        attributes_of(r) == report("decrement"@, sender@, final(state).counter),
        only_attributes(r),
{
    let counter = state.counter.checked_sub(1u64).unwrap_or(state.counter);
    state.counter = counter;
    report_response("decrement", sender, counter)
}

/// Sets the counter to `counter_value`, whatever it was, when the owner
/// sends it; from any other sender it fails with `Unauthorized` and changes
/// nothing.
pub fn reset(state: &mut State, sender: &String, counter_value: u64) -> (r: Result<
    Response,
    ContractError,
>)
    ensures
        final(state).owner == old(state).owner,
        sender@ == old(state).owner@ ==> {
            &&& r is Ok
            &&& final(state).counter == counter_value
            &&& attributes_of(r->Ok_0) == report("reset"@, sender@, counter_value)
            &&& only_attributes(r->Ok_0)
        },
        sender@ != old(state).owner@ ==> {
            &&& r == Err::<Response, ContractError>(ContractError::Unauthorized)
            &&& final(state).counter == old(state).counter
        },
{
    if state.owner != *sender {
        return Err(ContractError::Unauthorized);
    }
    state.counter = counter_value;
    Ok(report_response("reset", sender, counter_value))
}

/// The counter's current value.
pub fn value(state: &State) -> (r: ValueResp)
    ensures
        r.value == state.counter,
{
    ValueResp { value: state.counter }
}

/// Runs one command against the state, as `increment`, `decrement` or
/// `reset` does.
pub fn execute(state: &mut State, sender: &String, msg: ExecuteMsg) -> (r: Result<
    Response,
    ContractError,
>)
    ensures
        final(state).owner == old(state).owner,
        match msg {
            ExecuteMsg::Increment {  } => {
                &&& r is Ok
                &&& final(state).counter == incremented(old(state).counter)
                &&& attributes_of(r->Ok_0) == report(
                    "increment"@,
                    sender@,
                    final(state).counter,
                )
                &&& only_attributes(r->Ok_0)
            },
            ExecuteMsg::Decrement {  } => {
                &&& r is Ok
                &&& final(state).counter == decremented(old(state).counter)
                &&& attributes_of(r->Ok_0) == report(
                    "decrement"@,
                    sender@,
                    final(state).counter,
                )
                &&& only_attributes(r->Ok_0)
            },
            ExecuteMsg::Reset { value } => if sender@ == old(state).owner@ {
                &&& r is Ok
                &&& final(state).counter == value
                &&& attributes_of(r->Ok_0) == report("reset"@, sender@, value)
                &&& only_attributes(r->Ok_0)
            } else {
                &&& r == Err::<Response, ContractError>(ContractError::Unauthorized)
                &&& final(state).counter == old(state).counter
            },
        },
{
    match msg {
        ExecuteMsg::Increment {  } => Ok(increment(state, sender)),
        ExecuteMsg::Reset { value } => reset(state, sender, value),
        ExecuteMsg::Decrement {  } => Ok(decrement(state, sender)),
    }
}

/// Answers a query: the counter's current value.
pub fn query(state: &State, msg: QueryMsg) -> (r: ValueResp)
    ensures
        r.value == state.counter,
{
    match msg {
        QueryMsg::Value {  } => value(state),
    }
}

} // verus!
