use vstd::prelude::*;

use crate::denom::{route, route_spec};
use crate::msg::{
    Coin, Config, ContractError, DebtConfig, Env, ExecuteMsg, InstantiateMsg, Instruction,
    MessageInfo, QueryMsg, Response,
};
use crate::payment::one_coin;

verus! {

/// The configuration left by an update: each field given replaces the stored one.
pub open spec fn updated(
    c: Config,
    owner: Option<String>,
    debt_config: Option<Vec<DebtConfig>>,
) -> Config {
    Config {
        owner: match owner {
            Some(o) => o,
            None => c.owner,
        },
        debt_config: match debt_config {
            Some(d) => d,
            None => c.debt_config,
        },
    }
}

/// Whether the call carries exactly one coin, of a non-zero amount.
pub open spec fn funded_once(funds: Seq<Coin>) -> bool {
    funds.len() == 1 && funds[0].amount != 0
}

/// The settlement of a swap: the balance goes to `sender`, through the
/// callback if one was given.
pub open spec fn settlement(
    callback: Option<kujira::CallbackData>,
    sender: String,
    balance: Vec<Coin>,
) -> Instruction {
    match callback {
        Some(cb) => Instruction::Callback { callback: cb, recipient: sender, funds: balance },
        None => Instruction::BankSend { to_address: sender, amount: balance },
    }
}

/// The instructions of a routed swap: a repayment to `market` with the
/// received funds, then a `PostSwap` to the adapter itself that carries the
/// callback and the original sender.
pub open spec fn swap_instructions(
    msgs: Seq<Instruction>,
    market: Seq<char>,
    env: Env,
    info: MessageInfo,
    callback: Option<kujira::CallbackData>,
) -> bool {
    &&& msgs.len() == 2
    &&& (msgs[0] matches Instruction::Repay { market: m, funds } && m@ == market && funds
        == info.funds)
    &&& msgs[1] == (Instruction::PostSwap {
        contract: env.contract_address,
        callback,
        sender: info.sender,
    })
}

/// What `execute` returns for a configuration `stored`, the adapter's
/// environment, the caller, the adapter's current balance and a message.
pub open spec fn executes_to(
    stored: Option<Config>,
    env: Env,
    info: MessageInfo,
    balance: Vec<Coin>,
    msg: ExecuteMsg,
    r: Result<Response, ContractError>,
) -> bool {
    match stored {
        None => r == Err::<Response, ContractError>(ContractError::NotInitialized),
        Some(c) => match msg {
            ExecuteMsg::UpdateConfig { owner, debt_config } => if info.sender@ != c.owner@ {
                r == Err::<Response, ContractError>(ContractError::Unauthorized)
            } else {
                r matches Ok(resp) && resp.save == Some(updated(c, owner, debt_config))
                    && resp.messages@.len() == 0
            },
            ExecuteMsg::Swap { callback } => if !funded_once(info.funds@) {
                r == Err::<Response, ContractError>(ContractError::InvalidFunding)
            } else {
                match route_spec(c.debt_config@, info.funds@[0].denom@) {
                    None => r matches Err(ContractError::InvalidDenom(d)) && d@
                        == info.funds@[0].denom@,
                    Some(market) => r matches Ok(resp) && resp.save is None
                        && swap_instructions(resp.messages@, market, env, info, callback),
                }
            },
            ExecuteMsg::PostSwap { callback, sender } => if info.sender@
                != env.contract_address@ {
                r == Err::<Response, ContractError>(ContractError::Unauthorized)
            } else {
                r matches Ok(resp) && resp.save is None && resp.messages@.len() == 1
                    && resp.messages@[0] == settlement(callback, sender, balance)
            },
        },
    }
}

/// What `instantiate` returns: the configuration to store, and no instruction.
pub open spec fn instantiates_to(msg: InstantiateMsg, r: Response) -> bool {
    &&& r.save == Some((Config { owner: msg.owner, debt_config: msg.debt_config }))
    &&& r.messages@.len() == 0
}

/// What a configuration query returns for the stored configuration.
pub open spec fn queries_to(stored: Option<Config>, r: Result<Config, ContractError>) -> bool {
    r == match stored {
        Some(c) => Ok::<Config, ContractError>(c),
        None => Err(ContractError::NotInitialized),
    }
}

/// Creates the configuration from the instantiation message.
pub fn instantiate(msg: InstantiateMsg) -> (r: Response)
    ensures
        instantiates_to(msg, r),
{
    Response {
        save: Some(Config { owner: msg.owner, debt_config: msg.debt_config }),
        messages: Vec::new(),
    }
}

/// Handles one execute message against the stored configuration. `balance` is
/// the adapter's whole balance, which only `PostSwap` reads.
pub fn execute(
    stored: Option<Config>,
    env: &Env,
    info: MessageInfo,
    balance: Vec<Coin>,
    msg: ExecuteMsg,
) -> (r: Result<Response, ContractError>)
    ensures
        executes_to(stored, *env, info, balance, msg, r),
{
    let config = match stored {
        Some(c) => c,
        None => return Err(ContractError::NotInitialized),
    };
    match msg {
        ExecuteMsg::UpdateConfig { owner, debt_config } => {
            if info.sender != config.owner {
                return Err(ContractError::Unauthorized);
            }
            let mut config = config;
            if let Some(owner) = owner {
                config.owner = owner;
            }
            if let Some(debt_config) = debt_config {
                config.debt_config = debt_config;
            }
            Ok(Response { save: Some(config), messages: Vec::new() })
        },
        ExecuteMsg::Swap { callback } => {
            let received = match one_coin(&info) {
                Ok(c) => c,
                Err(_) => return Err(ContractError::InvalidFunding),
            };
            let market = match route(&config.debt_config, &received.denom) {
                Some(m) => m,
                None => return Err(ContractError::InvalidDenom(received.denom)),
            };
            let mut messages: Vec<Instruction> = Vec::new();
            messages.push(Instruction::Repay { market, funds: info.funds });
            messages.push(
                Instruction::PostSwap {
                    contract: env.contract_address.clone(),
                    callback,
                    sender: info.sender,
                },
            );
            Ok(Response { save: None, messages })
        },
        ExecuteMsg::PostSwap { callback, sender } => {
            if info.sender != env.contract_address {
                return Err(ContractError::Unauthorized);
            }
            let settle = match callback {
                Some(cb) => Instruction::Callback { callback: cb, recipient: sender, funds: balance },
                None => Instruction::BankSend { to_address: sender, amount: balance },
            };
            let mut messages: Vec<Instruction> = Vec::new();
            messages.push(settle);
            Ok(Response { save: None, messages })
        },
    }
}

/// Answers a query: the stored configuration.
pub fn query(stored: Option<Config>, msg: QueryMsg) -> (r: Result<Config, ContractError>)
    ensures
        queries_to(stored, r),
{
    match msg {
        QueryMsg::Config {} => match stored {
            Some(c) => Ok(c),
            None => Err(ContractError::NotInitialized),
        },
    }
}

} // verus!
