use vstd::prelude::*;

verus! {

/// What one contract instance keeps between messages: the counter, and the
/// address that created the instance, which alone may reset the counter.
#[derive(Debug)]
pub struct State {
    pub counter: u64,
    pub owner: String,
}

/// Why a command was rejected.
#[derive(Clone, Copy, Debug, PartialEq, Eq, Structural)]
pub enum ContractError {
    /// The sender of a reset is not the owner.
    Unauthorized,
}

} // verus!
