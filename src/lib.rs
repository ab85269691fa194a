//! A swap adapter for debt markets: a funded `Swap` routes the received coin to
//! the debt market that its denom is configured for, asks it to repay, and
//! queues a `PostSwap` to itself that sweeps the adapter's balance to the
//! original sender or to a callback.
//!
//! The library is the adapter's decision logic. The host (storage, balance
//! queries, message encoding) hands it plain values and carries out the
//! instructions that it returns.

mod payment;

pub mod contract;
pub mod denom;
pub mod laws;
pub mod msg;


pub use contract::{execute, instantiate, query};
pub use msg::{
    Coin, Config, ContractError, DebtConfig, Env, ExecuteMsg, InstantiateMsg,
    Instruction, MessageInfo, QueryMsg, Response,
};
