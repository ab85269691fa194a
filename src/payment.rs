use vstd::prelude::*;

use crate::msg::{Coin, MessageInfo};

verus! {

#[verifier::external_type_specification]
#[verifier::external_body]
pub struct ExPaymentError(cw_utils::PaymentError);

/// Relies on cw_utils::one_coin: it succeeds exactly when one coin is attached
/// and its amount is not zero, and then returns that coin.
#[verifier::external_body]
pub(crate) fn one_coin(info: &MessageInfo) -> (r: Result<Coin, cw_utils::PaymentError>)
    ensures
        r.is_ok() <==> (info.funds@.len() == 1 && info.funds@[0].amount != 0),
        r matches Ok(c) ==> c.denom@ == info.funds@[0].denom@ && c.amount == info.funds@[0].amount,
{
    let funds: Vec<cosmwasm_std::Coin> = info.funds.iter().map(
        |c| cosmwasm_std::Coin::new(c.amount, c.denom.clone()),
    ).collect();
    let info = cosmwasm_std::MessageInfo { sender: cosmwasm_std::Addr::unchecked(""), funds };
    cw_utils::one_coin(&info).map(|c| Coin { denom: c.denom, amount: c.amount.u128() })
}

} // verus!
