//! Native coins and the balance coverage check.

use vstd::prelude::*;

verus! {

/// A native token amount: `amount` units of the token named `denom`.
#[derive(Clone, Debug, PartialEq)]
pub struct Coin {
    pub denom: String,
    pub amount: u128,
}

/// `i` is the position of the first coin in `coins` whose denom is `denom`.
pub open spec fn first_of_denom(coins: Seq<Coin>, denom: Seq<char>, i: int) -> bool {
    &&& 0 <= i < coins.len()
    &&& coins[i].denom@ == denom
    &&& forall|j: int| 0 <= j < i ==> coins[j].denom@ != denom
}

/// The first coin of `coins` with the denom of `required` holds at least
/// `required.amount`; false when no coin has that denom.
pub open spec fn covers(coins: Seq<Coin>, required: Coin) -> bool {
    exists|i: int| #[trigger] first_of_denom(coins, required.denom@, i) && coins[i].amount >= required.amount
}

/// Calls `cosmwasm_std::has_coins` on the coins converted one for one into
/// `cosmwasm_std::Coin`. Its source finds the first coin whose denom equals the
/// required denom and compares amounts with `>=`, and answers false when no coin
/// has that denom: this is what the contract claims.
#[verifier::external_body]
fn has_coins(coins: &Vec<Coin>, required: &Coin) -> (r: bool)
    ensures
        r == covers(coins@, *required),
{
    let held: Vec<cosmwasm_std::Coin> = coins.iter().map(|c| cosmwasm_std::Coin {
        denom: c.denom.clone(),
        amount: cosmwasm_std::Uint128::new(c.amount),
    }).collect();
    let req = cosmwasm_std::Coin {
        denom: required.denom.clone(),
        amount: cosmwasm_std::Uint128::new(required.amount),
    };
    cosmwasm_std::has_coins(&held, &req)
}

/// Every required coin with a non-zero amount is covered by `balances`;
/// required coins of amount zero are ignored.
pub open spec fn holds_all(balances: Seq<Coin>, required: Seq<Coin>) -> bool {
    forall|i: int| 0 <= i < required.len() && required[i].amount != 0 ==> #[trigger] covers(balances, required[i])
}

/// Checks whether `balances` holds every non-zero coin of `required`.
pub fn has_native_balance(balances: &Vec<Coin>, required: &Vec<Coin>) -> (r: bool)
    ensures
        r == holds_all(balances@, required@),
{
    let mut i: usize = 0;
    while i < required.len()
        invariant
            i <= required.len(),
            forall|k: int| 0 <= k < i && required@[k].amount != 0 ==> #[trigger] covers(balances@, required@[k]),
        decreases required.len() - i,
    {
        let required_coin = &required[i];
        if required_coin.amount != 0 && !has_coins(balances, required_coin) {
            return false;
        }
        i = i + 1;
    }
    true
}

/// With nothing required, the balance check holds whatever is held.
pub proof fn lemma_nothing_required_holds(balances: Seq<Coin>)
    ensures
        holds_all(balances, Seq::empty()),
{
}

/// A required coin of amount zero never changes the outcome of the balance check.
pub proof fn lemma_zero_requirement_ignored(balances: Seq<Coin>, required: Seq<Coin>, extra: Coin)
    requires
        extra.amount == 0,
    ensures
        holds_all(balances, required.push(extra)) == holds_all(balances, required),
{
    let pushed = required.push(extra);
    if holds_all(balances, required) {
        assert forall|i: int| 0 <= i < pushed.len() && pushed[i].amount != 0 implies #[trigger] covers(balances, pushed[i]) by {
            assert(i < required.len());
            assert(pushed[i] == required[i]);
        }
    }
    if holds_all(balances, pushed) {
        assert forall|i: int| 0 <= i < required.len() && required[i].amount != 0 implies #[trigger] covers(balances, required[i]) by {
            assert(pushed[i] == required[i]);
        }
    }
}

/// Two lists of requirements hold together exactly when each of them holds.
pub proof fn lemma_requirements_split(balances: Seq<Coin>, first: Seq<Coin>, second: Seq<Coin>)
    ensures
        holds_all(balances, first + second) == (holds_all(balances, first) && holds_all(balances, second)),
{
    let joined = first + second;
    if holds_all(balances, joined) {
        assert forall|i: int| 0 <= i < first.len() && first[i].amount != 0 implies #[trigger] covers(balances, first[i]) by {
            assert(joined[i] == first[i]);
        }
        assert forall|i: int| 0 <= i < second.len() && second[i].amount != 0 implies #[trigger] covers(balances, second[i]) by {
            assert(joined[first.len() + i] == second[i]);
        }
    }
    if holds_all(balances, first) && holds_all(balances, second) {
        assert forall|i: int| 0 <= i < joined.len() && joined[i].amount != 0 implies #[trigger] covers(balances, joined[i]) by {
            if i < first.len() {
                assert(joined[i] == first[i]);
            } else {
                assert(joined[i] == second[i - first.len()]);
            }
        }
    }
}

/// Only the first held coin of a denom counts: a coin placed after one of the
/// same denom never changes whether a requirement is covered.
pub proof fn lemma_later_duplicate_ignored(balances: Seq<Coin>, extra: Coin, required: Coin)
    requires
        exists|i: int| 0 <= i < balances.len() && #[trigger] balances[i].denom@ == extra.denom@,
    ensures
        covers(balances.push(extra), required) == covers(balances, required),
{
    let pushed = balances.push(extra);
    let d = required.denom@;
    if covers(balances, required) {
        let i = choose|i: int| #[trigger] first_of_denom(balances, d, i) && balances[i].amount >= required.amount;
        assert(first_of_denom(pushed, d, i));
    }
    if covers(pushed, required) {
        let i = choose|i: int| #[trigger] first_of_denom(pushed, d, i) && pushed[i].amount >= required.amount;
        if i == balances.len() {
            let k = choose|k: int| 0 <= k < balances.len() && #[trigger] balances[k].denom@ == extra.denom@;
            assert(pushed[k].denom@ == d);
            assert(false);
        }
        assert(i < balances.len());
        assert forall|j: int| 0 <= j < i implies balances[j].denom@ != d by {
            assert(pushed[j] == balances[j]);
        }
        assert(pushed[i] == balances[i]);
        assert(first_of_denom(balances, d, i));
    }
}

} // verus!
