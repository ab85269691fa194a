use vstd::prelude::*;


verus! {

/// An opaque callback descriptor: the adapter carries it from `Swap` to
/// `PostSwap` and hands it to the host, which builds the settlement message.
#[verifier::external_type_specification]
#[verifier::external_body]
pub struct ExCallbackData(kujira::CallbackData);

/// An amount of one asset.
#[derive(Clone, Debug, PartialEq, Eq)]
pub struct Coin {
    pub denom: String,
    pub amount: u128,
}

/// A routing rule: funds in `denom` repay the debt market named by the third
/// `/`-segment of `debt_denom`.
#[derive(Clone, Debug, PartialEq, Eq)]
pub struct DebtConfig {
    pub denom: String,
    pub debt_denom: String,
}

/// The adapter's stored configuration.
#[derive(Clone, Debug, PartialEq, Eq)]
pub struct Config {
    pub owner: String,
    pub debt_config: Vec<DebtConfig>,
}

#[derive(Clone, Debug, PartialEq, Eq)]
pub struct InstantiateMsg {
    pub owner: String,
    pub debt_config: Vec<DebtConfig>,
}

#[derive(Debug, PartialEq)]
pub enum ExecuteMsg {
    /// Replace the owner and/or the routing rules; only the owner may.
    UpdateConfig { owner: Option<String>, debt_config: Option<Vec<DebtConfig>> },
    /// Route the attached coin to its debt market and repay.
    Swap { callback: Option<kujira::CallbackData> },
    /// Settle a swap: send the whole balance on. Only the adapter itself may.
    PostSwap { callback: Option<kujira::CallbackData>, sender: String },
}

#[derive(Clone, Debug, PartialEq, Eq)]
pub enum QueryMsg {
    Config {},
}

/// Who called, and with which funds.
#[derive(Clone, Debug, PartialEq, Eq)]
pub struct MessageInfo {
    pub sender: String,
    pub funds: Vec<Coin>,
}

/// What the host says of the adapter's own instance.
#[derive(Clone, Debug, PartialEq, Eq)]
pub struct Env {
    pub contract_address: String,
}

/// An outbound instruction for the host to dispatch, in order.
#[derive(Debug, PartialEq)]
pub enum Instruction {
    /// A debt-market `Repay` with no position holder, carrying `funds`.
    Repay { market: String, funds: Vec<Coin> },
    /// A `PostSwap` addressed to `contract` (the adapter), with no funds.
    PostSwap { contract: String, callback: Option<kujira::CallbackData>, sender: String },
    /// A plain bank transfer.
    BankSend { to_address: String, amount: Vec<Coin> },
    /// The message that `callback` builds for `recipient`, with an empty
    /// payload and `funds` attached.
    Callback { callback: kujira::CallbackData, recipient: String, funds: Vec<Coin> },
}

/// The outcome of a successful call: a configuration to store, if any, and the
/// instructions to dispatch.
#[derive(Debug, PartialEq)]
pub struct Response {
    pub save: Option<Config>,
    pub messages: Vec<Instruction>,
}

#[derive(Clone, Debug, PartialEq, Eq)]
pub enum ContractError {
    Unauthorized,
    InvalidDenom(String),
    InvalidFunding,
    NotInitialized,
}

} // verus!
