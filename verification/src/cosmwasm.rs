//! Declarations of the CosmWasm types that values of this crate carry, and
//! the trusted calls into `cosmwasm_std`.

use vstd::prelude::*;

verus! {

/// `cosmwasm_std::StdError`, carried through unchanged as an error value.
#[verifier::external_type_specification]
#[verifier::external_body]
pub struct ExStdError(cosmwasm_std::StdError);

/// `cosmwasm_std::Addr`, a validated account address.
#[verifier::external_type_specification]
#[verifier::external_body]
pub struct ExAddr(cosmwasm_std::Addr);

/// `cosmwasm_std::Uint64`.
#[verifier::external_type_specification]
#[verifier::external_body]
pub struct ExUint64(cosmwasm_std::Uint64);

/// `cw20::Cw20Coin`, an amount of a cw20 token at a token contract address.
#[verifier::external_type_specification]
#[verifier::external_body]
pub struct ExCw20Coin(cw20::Cw20Coin);

/// `cosmwasm_std::Empty`, the empty custom message extension.
#[verifier::external_type_specification]
#[verifier::external_body]
pub struct ExEmpty(cosmwasm_std::Empty);

/// `cosmwasm_std::CosmosMsg`, a message a contract hands to the chain.
#[verifier::external_type_specification]
#[verifier::external_body]
#[verifier::reject_recursive_types(T)]
pub struct ExCosmosMsg<T>(cosmwasm_std::CosmosMsg<T>);

/// `Clone` of `cosmwasm_std::Addr`, which is derived on a struct holding one
/// `String`: the copy equals the original.
pub assume_specification[ <cosmwasm_std::Addr as Clone>::clone ](addr: &cosmwasm_std::Addr) -> (r: cosmwasm_std::Addr)
    ensures
        r == *addr,
;

/// `Clone` of `cosmwasm_std::Uint64`, which is derived on a struct holding one
/// `u64`: the copy equals the original.
pub assume_specification[ <cosmwasm_std::Uint64 as Clone>::clone ](n: &cosmwasm_std::Uint64) -> (r: cosmwasm_std::Uint64)
    ensures
        r == *n,
;

/// The contents of optional bytes.
pub open spec fn optional_bytes(data: Option<Vec<u8>>) -> Option<Seq<u8>> {
    match data {
        Some(d) => Some(d@),
        None => None,
    }
}

/// The ASCII decimal digits of `n`, most significant first, with no leading zero.
pub open spec fn decimal_digits(n: nat) -> Seq<u8>
    decreases n,
{
    if n < 10 {
        seq![(48 + n) as u8]
    } else {
        decimal_digits(n / 10).push((48 + n % 10) as u8)
    }
}

/// A `Uint128` of value `amount` in JSON: its decimal digits between double quotes.
pub open spec fn amount_json(amount: u128) -> Seq<u8> {
    seq![34u8] + decimal_digits(amount as nat) + seq![34u8]
}

/// The bytes that serde-json-wasm writes for the string `s`: a double quote,
/// the string's UTF-8 bytes with JSON escapes, and a double quote.
pub uninterp spec fn json_string(s: Seq<char>) -> Seq<u8>;

/// A `cosmwasm_std::Coin` in JSON: `{"denom":<denom>,"amount":<amount>}`.
pub open spec fn coin_json(denom: Seq<char>, amount: u128) -> Seq<u8> {
    seq![123u8, 34u8, 100u8, 101u8, 110u8, 111u8, 109u8, 34u8, 58u8] + json_string(denom)
        + seq![44u8, 34u8, 97u8, 109u8, 111u8, 117u8, 110u8, 116u8, 34u8, 58u8] + amount_json(amount)
        + seq![125u8]
}

/// The bytes that `cosmwasm_std::to_binary` produces for the pair
/// `(holds, data)`, `data` taken as an optional `Binary`.
pub uninterp spec fn rule_response_json(holds: bool, data: Option<Seq<u8>>) -> Seq<u8>;

/// Calls `cosmwasm_std::to_binary` on `Uint128::new(amount)`. In the source a
/// `Uint128` serializes as `serialize_str` of its `Display` text, which is the
/// `u128`'s decimal text; serde-json-wasm writes a string as a double quote, its
/// characters (digits need no escape) and a double quote, with no error path.
/// So the call is `Ok` with the bytes `amount_json(amount)`.
#[verifier::external_body]
#[allow(deprecated)]
pub(crate) fn amount_to_binary(amount: u128) -> (r: Result<Vec<u8>, cosmwasm_std::StdError>)
    ensures
        r is Ok,
        r matches Ok(bytes) ==> bytes@ == amount_json(amount),
{
    cosmwasm_std::to_binary(&cosmwasm_std::Uint128::new(amount)).map(|b| b.0)
}

/// Calls `cosmwasm_std::to_binary` on the `cosmwasm_std::Coin` built from `denom`
/// and `amount`, keeping only a success (`.ok()`). In the source a `Coin`
/// serializes as a struct (`{`, `"denom":`, the denom string, `,"amount":`, the
/// amount as in `amount_to_binary`, `}`), with no error path, so the answer is
/// `Some` with the bytes `coin_json(denom, amount)`; the escaped denom is named.
#[verifier::external_body]
#[allow(deprecated)]
pub(crate) fn coin_to_binary(denom: &String, amount: u128) -> (r: Option<Vec<u8>>)
    ensures
        r is Some,
        r matches Some(bytes) ==> bytes@ == seq![123u8, 34u8, 100u8, 101u8, 110u8, 111u8, 109u8, 34u8, 58u8]
            + json_string(denom@) + seq![44u8, 34u8, 97u8, 109u8, 111u8, 117u8, 110u8, 116u8, 34u8, 58u8]
            + amount_json(amount) + seq![125u8],
{
    let coin = cosmwasm_std::Coin { denom: denom.clone(), amount: cosmwasm_std::Uint128::new(amount) };
    cosmwasm_std::to_binary(&coin).ok().map(|b| b.0)
}

/// Calls `cosmwasm_std::to_binary` on the pair `(holds, data)` with `data` as an
/// optional `cosmwasm_std::Binary`. A pair of a bool and an optional base64 string
/// serializes without an error path in the source, so the call is `Ok`.
#[verifier::external_body]
#[allow(deprecated)]
pub(crate) fn rule_response_to_binary(holds: bool, data: Option<Vec<u8>>) -> (r: Result<Vec<u8>, cosmwasm_std::StdError>)
    ensures
        r is Ok,
        r matches Ok(bytes) ==> bytes@ == rule_response_json(holds, optional_bytes(data)),
{
    cosmwasm_std::to_binary(&(holds, data.map(cosmwasm_std::Binary))).map(|b| b.0)
}

} // verus!
