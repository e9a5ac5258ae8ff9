//! A counter held by one contract instance: anyone may step it up or down,
//! only the address that created it may set it to a chosen value.
pub mod contract;
pub mod msg;
pub mod response;
pub mod state;

pub use contract::{decrement, execute, increment, instantiate, query, reset, value};
pub use msg::{ExecuteMsg, InstantiateMsg, QueryMsg, ValueResp};
pub use state::{ContractError, State};
