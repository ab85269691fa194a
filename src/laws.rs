//! Properties of the adapter that hold for every input, proved from the
//! contracts of `instantiate`, `execute` and `query`.
use vstd::prelude::*;

use crate::contract::{executes_to, instantiates_to, queries_to};
use crate::denom::{after_slashes, first_rule, segment_count};
use crate::msg::{
    Coin, Config, ContractError, DebtConfig, Env, ExecuteMsg, InstantiateMsg, Instruction,
    MessageInfo, Response,
};

verus! {

/// When no rule names `denom`, no rule is found for it.
pub proof fn lemma_no_rule_found(rules: Seq<DebtConfig>, denom: Seq<char>)
    requires
        forall|i: int| 0 <= i < rules.len() ==> rules[i].denom@ != denom,
    ensures
        first_rule(rules, denom) is None,
    decreases rules.len(),
{
    if rules.len() > 0 {
        assert forall|i: int| 0 <= i < rules.drop_first().len() implies rules.drop_first()[i].denom@
            != denom by {
            assert(rules.drop_first()[i] == rules[i + 1]);
        }
        lemma_no_rule_found(rules.drop_first(), denom);
    }
}

/// A swap funded with one coin whose denom is routed by a rule with a
/// three-segment debt denom dispatches exactly two instructions: a repayment
/// to the market named by that denom's third segment, with the received
/// funds, and then a `PostSwap` to the adapter that carries the callback and
/// the original sender.
pub proof fn law_swap_routes_to_market(
    c: Config,
    rule: DebtConfig,
    env: Env,
    info: MessageInfo,
    balance: Vec<Coin>,
    callback: Option<kujira::CallbackData>,
    r: Result<Response, ContractError>,
)
    requires
        first_rule(c.debt_config@, rule.denom@) == Some(rule),
        segment_count(rule.debt_denom@) == 3,
        info.funds@.len() == 1,
        info.funds@[0].amount != 0,
        info.funds@[0].denom@ == rule.denom@,
        executes_to(Some(c), env, info, balance, ExecuteMsg::Swap { callback }, r),
    ensures
        r matches Ok(resp) && resp.save is None && resp.messages@.len() == 2,
        r matches Ok(resp) && (resp.messages@[0] matches Instruction::Repay { market, funds }
            && market@ == after_slashes(rule.debt_denom@, 2) && funds == info.funds),
        r matches Ok(resp) && resp.messages@[1] == (Instruction::PostSwap {
            contract: env.contract_address,
            callback,
            sender: info.sender,
        }),
{
}

/// A funded swap whose denom no rule names fails with `InvalidDenom` for
/// that denom, and so dispatches nothing.
pub proof fn law_swap_unrouted_denom(
    c: Config,
    env: Env,
    info: MessageInfo,
    balance: Vec<Coin>,
    callback: Option<kujira::CallbackData>,
    r: Result<Response, ContractError>,
)
    requires
        info.funds@.len() == 1,
        info.funds@[0].amount != 0,
        forall|i: int|
            0 <= i < c.debt_config@.len() ==> c.debt_config@[i].denom@ != info.funds@[0].denom@,
        executes_to(Some(c), env, info, balance, ExecuteMsg::Swap { callback }, r),
    ensures
        r matches Err(ContractError::InvalidDenom(d)) && d@ == info.funds@[0].denom@,
{
    lemma_no_rule_found(c.debt_config@, info.funds@[0].denom@);
}

/// A funded swap whose rule has a debt denom of other than three segments
/// fails with `InvalidDenom`, although the rule matched.
pub proof fn law_swap_malformed_debt_denom(
    c: Config,
    rule: DebtConfig,
    env: Env,
    info: MessageInfo,
    balance: Vec<Coin>,
    callback: Option<kujira::CallbackData>,
    r: Result<Response, ContractError>,
)
    requires
        first_rule(c.debt_config@, rule.denom@) == Some(rule),
        segment_count(rule.debt_denom@) != 3,
        info.funds@.len() == 1,
        info.funds@[0].amount != 0,
        info.funds@[0].denom@ == rule.denom@,
        executes_to(Some(c), env, info, balance, ExecuteMsg::Swap { callback }, r),
    ensures
        r matches Err(ContractError::InvalidDenom(d)) && d@ == rule.denom@,
{
}

/// A `PostSwap` from any caller but the adapter itself fails with
/// `Unauthorized`, whatever its arguments, and dispatches nothing.
pub proof fn law_post_swap_only_from_self(
    c: Config,
    env: Env,
    info: MessageInfo,
    balance: Vec<Coin>,
    callback: Option<kujira::CallbackData>,
    sender: String,
    r: Result<Response, ContractError>,
)
    requires
        info.sender@ != env.contract_address@,
        executes_to(Some(c), env, info, balance, ExecuteMsg::PostSwap { callback, sender }, r),
    ensures
        r == Err::<Response, ContractError>(ContractError::Unauthorized),
{
}

/// A `PostSwap` from the adapter itself without a callback dispatches exactly
/// one instruction: a transfer of the whole balance to `sender`.
pub proof fn law_post_swap_returns_balance(
    c: Config,
    env: Env,
    info: MessageInfo,
    balance: Vec<Coin>,
    sender: String,
    r: Result<Response, ContractError>,
)
    requires
        info.sender@ == env.contract_address@,
        executes_to(
            Some(c),
            env,
            info,
            balance,
            ExecuteMsg::PostSwap { callback: None, sender },
            r,
        ),
    ensures
        r matches Ok(resp) && resp.save is None && resp.messages@.len() == 1
            && resp.messages@[0] == (Instruction::BankSend { to_address: sender, amount: balance }),
{
}

/// A `PostSwap` from the adapter itself with a callback dispatches exactly one
/// instruction: the callback's message to `sender`, with an empty payload and
/// the whole balance.
pub proof fn law_post_swap_through_callback(
    c: Config,
    env: Env,
    info: MessageInfo,
    balance: Vec<Coin>,
    cb: kujira::CallbackData,
    sender: String,
    r: Result<Response, ContractError>,
)
    requires
        info.sender@ == env.contract_address@,
        executes_to(
            Some(c),
            env,
            info,
            balance,
            ExecuteMsg::PostSwap { callback: Some(cb), sender },
            r,
        ),
    ensures
        r matches Ok(resp) && resp.save is None && resp.messages@.len() == 1
            && resp.messages@[0] == (Instruction::Callback {
            callback: cb,
            recipient: sender,
            funds: balance,
        }),
{
}

/// An update from anyone but the owner fails with `Unauthorized`: nothing is
/// stored, so the configuration stays as it was.
pub proof fn law_update_only_by_owner(
    c: Config,
    env: Env,
    info: MessageInfo,
    balance: Vec<Coin>,
    owner: Option<String>,
    debt_config: Option<Vec<DebtConfig>>,
    r: Result<Response, ContractError>,
)
    requires
        info.sender@ != c.owner@,
        executes_to(
            Some(c),
            env,
            info,
            balance,
            ExecuteMsg::UpdateConfig { owner, debt_config },
            r,
        ),
    ensures
        r == Err::<Response, ContractError>(ContractError::Unauthorized),
{
}

/// An owner's update that names only a new owner stores that owner and keeps
/// the routing rules as they were.
pub proof fn law_update_owner_keeps_rules(
    c: Config,
    env: Env,
    info: MessageInfo,
    balance: Vec<Coin>,
    x: String,
    r: Result<Response, ContractError>,
)
    requires
        info.sender@ == c.owner@,
        executes_to(
            Some(c),
            env,
            info,
            balance,
            ExecuteMsg::UpdateConfig { owner: Some(x), debt_config: None },
            r,
        ),
    ensures
        r matches Ok(resp) && resp.save == Some((Config { owner: x, debt_config: c.debt_config })),
{
}

/// The configuration queried right after instantiation is the one that the
/// instantiation gave.
pub proof fn law_instantiate_then_query(
    msg: InstantiateMsg,
    resp: Response,
    q: Result<Config, ContractError>,
)
    requires
        instantiates_to(msg, resp),
        queries_to(resp.save, q),
    ensures
        q == Ok::<Config, ContractError>(Config { owner: msg.owner, debt_config: msg.debt_config }),
{
}

} // verus!
