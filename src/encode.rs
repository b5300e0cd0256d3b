//! The JSON messages sent to the token contract, encoded by cosmwasm_std.

use vstd::prelude::*;

use cosmwasm_std::StdError;

verus! {

#[verifier::external_type_specification]
#[verifier::external_body]
pub struct ExStdError(StdError);

/// The JSON encoding of cw20-base's `InstantiateMsg` with the given name,
/// symbol, decimals, initial balances, minter and supply cap, and no
/// marketing information.
pub uninterp spec fn token_instantiate_json(
    name: Seq<char>,
    symbol: Seq<char>,
    decimals: u8,
    initial_balances: Seq<(Seq<char>, u128)>,
    minter: Seq<char>,
    cap: Option<u128>,
) -> Seq<u8>;

/// The JSON encoding of cw20's `Cw20ExecuteMsg::Mint` for `recipient` and `amount`.
pub uninterp spec fn mint_json(recipient: Seq<char>, amount: u128) -> Seq<u8>;

pub open spec fn balances_view(b: Seq<(String, u128)>) -> Seq<(Seq<char>, u128)> {
    b.map_values(|p: (String, u128)| (p.0@, p.1))
}

/// Relies on cosmwasm_std::to_json_binary applied to cw20_base::msg::InstantiateMsg:
/// the bytes depend on the fields alone, and serde_json_wasm has no error path
/// for strings, integers, sequences, options and structs.
#[verifier::external_body]
pub(crate) fn encode_token_instantiate(
    name: &String,
    symbol: &String,
    decimals: u8,
    initial_balances: &Vec<(String, u128)>,
    minter: &String,
    cap: Option<u128>,
) -> (r: Result<Vec<u8>, StdError>)
    ensures
        r is Ok,
        r matches Ok(b) ==> b@ == token_instantiate_json(
            name@,
            symbol@,
            decimals,
            balances_view(initial_balances@),
            minter@,
            cap,
        ),
{
    let msg = cw20_base::msg::InstantiateMsg {
        name: name.clone(),
        symbol: symbol.clone(),
        decimals,
        initial_balances: initial_balances
            .iter()
            .map(|(a, n)| cw20::Cw20Coin { address: a.clone(), amount: (*n).into() })
            .collect(),
        mint: Some(cw20::MinterResponse { minter: minter.clone(), cap: cap.map(Into::into) }),
        marketing: None,
    };
    cosmwasm_std::to_json_binary(&msg).map(Vec::from)
}

/// Relies on cosmwasm_std::to_json_binary applied to cw20::Cw20ExecuteMsg::Mint:
/// the bytes depend on the recipient and the amount alone, and serde_json_wasm
/// has no error path for a struct variant of a string and a `Uint128`.
#[verifier::external_body]
pub(crate) fn encode_mint(recipient: &String, amount: u128) -> (r: Result<Vec<u8>, StdError>)
    ensures
        r is Ok,
        r matches Ok(b) ==> b@ == mint_json(recipient@, amount),
{
    let msg = cw20::Cw20ExecuteMsg::Mint { recipient: recipient.clone(), amount: amount.into() };
    cosmwasm_std::to_json_binary(&msg).map(Vec::from)
}

} // verus!
