use vstd::prelude::*;

verus! {

/// The message that creates an instance: the counter's first value.
#[derive(Clone, Copy, Debug, PartialEq, Eq, Structural)]
pub struct InstantiateMsg {
    pub counter_value: u64,
}

/// The commands that change the counter.
#[derive(Clone, Copy, Debug, PartialEq, Eq, Structural)]
pub enum ExecuteMsg {
    Increment {},
    Reset { value: u64 },
    Decrement {},
}

/// The questions that can be asked of an instance.
#[derive(Clone, Copy, Debug, PartialEq, Eq, Structural)]
pub enum QueryMsg {
    Value {},
}

/// The answer to `QueryMsg::Value`.
#[derive(Clone, Copy, Debug, PartialEq, Eq, Structural)]
pub struct ValueResp {
    pub value: u64,
}

} // verus!
