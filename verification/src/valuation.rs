//! Fixed-point decimal scaling and USD valuation.

use vstd::prelude::*;

use crate::constants::AUM_VALUE_SCALE_DECIMALS;
use crate::error::ValuationError;

verus! {

/// `10^e` as a mathematical integer.
pub open spec fn pow10(e: nat) -> nat
    decreases e,
{
    if e == 0 {
        1
    } else {
        10 * pow10((e - 1) as nat)
    }
}

/// `10^e` as an exact `u128`, for exponents up to 30 (the widest power of
/// ten that still leaves room for a multiplication by a large balance).
pub fn ten_pow(exponent: u32) -> (r: u128)
    requires
        exponent <= 30,
    ensures
        r == pow10(exponent as nat),
{
    let mut r: u128 = 1;
    let mut i: u32 = 0;
    while i < exponent
        invariant
            i <= exponent <= 30,
            r == pow10(i as nat),
        decreases exponent - i,
    {
        proof {
            lemma_pow10_bounds(exponent as nat);
            lemma_pow10_increases((i + 1) as nat, exponent as nat);
            assert(pow10((i + 1) as nat) == 10 * pow10(i as nat));
        }
        r = r * 10;
        i = i + 1;
    }
    r
}

/// Total variant of [`ten_pow`]: `Some(10^e)` for `e` in `[0, 30]`, `None`
/// beyond that range.
pub fn ten_pow_checked(exponent: u32) -> (r: Option<u128>)
    ensures
        exponent <= 30 <==> r is Some,
        exponent <= 30 ==> r == Some(pow10(exponent as nat) as u128),
{
    if exponent <= 30 {
        Some(ten_pow(exponent))
    } else {
        None
    }
}

/// `10^e` fits in a `u128` for every exponent up to 30.
proof fn lemma_pow10_bounds(e: nat)
    requires
        e <= 30,
    ensures
        pow10(e) <= pow10(30),
        pow10(30) < u128::MAX,
    decreases 30 - e,
{
    reveal_with_fuel(pow10, 31);
    if e < 30 {
        lemma_pow10_bounds(e + 1);
    }
}

/// `pow10` is monotone.
proof fn lemma_pow10_increases(a: nat, b: nat)
    requires
        a <= b,
    ensures
        pow10(a) <= pow10(b),
    decreases b - a,
{
    if a < b {
        lemma_pow10_increases(a, (b - 1) as nat);
    }
}

/// The unsigned magnitude of `x`.
pub open spec fn abs_val(x: int) -> nat {
    if x < 0 {
        (-x) as nat
    } else {
        x as nat
    }
}

/// The combined decimal precision of one (price-exponent, token-decimals)
/// pair.
pub open spec fn total_decimals(price_exponent: int, token_decimals: nat) -> nat {
    abs_val(price_exponent) + token_decimals
}

/// The USD value, at six-decimal scale, of `balance` tokens priced at
/// `price * 10^-|price_exponent|` dollars per whole token of
/// `token_decimals` decimals: the product of the magnitudes, scaled down
/// (floor division) or up to the canonical scale. The sign of a negative
/// oracle price is discarded by design.
pub open spec fn asset_value(
    price: int,
    price_exponent: int,
    balance: nat,
    token_decimals: nat,
) -> nat {
    let raw = abs_val(price) * balance;
    let td = total_decimals(price_exponent, token_decimals);
    let scale = AUM_VALUE_SCALE_DECIMALS as nat;
    if td > scale {
        raw / pow10((td - scale) as nat)
    } else {
        raw * pow10((scale - td) as nat)
    }
}

/// The USD value of one balance of one asset, at six-decimal scale.
///
/// A negative price contributes its magnitude: an accepted simplification
/// for benign-negative feed noise, not a defect. The combined decimal
/// precision may not exceed 36, the scaler's domain shifted by the target
/// scale. Fails with `ArithmeticOverflow` exactly when the scaled-up value
/// exceeds the 128-bit width.
pub fn compute_asset_value(price: i64, price_exponent: i32, balance: u64, token_decimals: u8) -> (r:
    Result<u128, ValuationError>)
    requires
        total_decimals(price_exponent as int, token_decimals as nat) <= 36,
    ensures
        r is Ok <==> asset_value(
            price as int,
            price_exponent as int,
            balance as nat,
            token_decimals as nat,
        ) <= u128::MAX,
        r is Ok ==> r->Ok_0 == asset_value(
            price as int,
            price_exponent as int,
            balance as nat,
            token_decimals as nat,
        ),
        r is Err ==> r == Err::<u128, ValuationError>(ValuationError::ArithmeticOverflow),
{
    let p: u128 = if price >= 0 {
        price as u128
    } else {
        (-(price as i128)) as u128
    };
    let e_abs: u32 = if price_exponent >= 0 {
        price_exponent as u32
    } else {
        (-(price_exponent as i64)) as u32
    };
    assert(p == abs_val(price as int));
    assert(e_abs == abs_val(price_exponent as int));
    let td: u32 = e_abs + (token_decimals as u32);
    let raw: u128 = {
        proof {
            vstd::arithmetic::mul::lemma_mul_upper_bound(
                p as int,
                0x8000000000000000,
                balance as int,
                0xffffffffffffffff,
            );
        }
        p * (balance as u128)
    };
    if td > AUM_VALUE_SCALE_DECIMALS {
        let divisor = ten_pow(td - AUM_VALUE_SCALE_DECIMALS);
        proof {
            lemma_pow10_increases(0, (td - AUM_VALUE_SCALE_DECIMALS) as nat);
            vstd::arithmetic::div_mod::lemma_div_nonincreasing(raw as int, divisor as int);
        }
        Ok(raw / divisor)
    } else {
        let factor = ten_pow(AUM_VALUE_SCALE_DECIMALS - td);
        match raw.checked_mul(factor) {
            Some(v) => Ok(v),
            None => Err(ValuationError::ArithmeticOverflow),
        }
    }
}

/// The summed USD value of a list of balances of one asset: what the whole
/// holder list of one table contributes, at six-decimal scale.
pub open spec fn table_total(
    price: int,
    price_exponent: int,
    token_decimals: nat,
    balances: Seq<u64>,
) -> int
    decreases balances.len(),
{
    if balances.len() == 0 {
        0
    } else {
        table_total(price, price_exponent, token_decimals, balances.drop_last()) + asset_value(
            price,
            price_exponent,
            balances.last() as nat,
            token_decimals,
        )
    }
}

/// A prefix never sums to more than the whole list.
proof fn lemma_table_total_prefix(
    price: int,
    price_exponent: int,
    token_decimals: nat,
    balances: Seq<u64>,
    i: int,
)
    requires
        0 <= i <= balances.len(),
    ensures
        table_total(price, price_exponent, token_decimals, balances.take(i)) <= table_total(
            price,
            price_exponent,
            token_decimals,
            balances,
        ),
    decreases balances.len() - i,
{
    if i < balances.len() {
        assert(balances.take(i + 1).drop_last() =~= balances.take(i));
        assert(balances.take(i + 1).last() == balances[i]);
        lemma_table_total_prefix(price, price_exponent, token_decimals, balances, i + 1);
    } else {
        assert(balances.take(i) =~= balances);
    }
}

/// Sum [`compute_asset_value`] over every holder's balance of one asset.
///
/// Fails with `ArithmeticOverflow` exactly when the mathematical total
/// exceeds the 128-bit width; a fatal arithmetic error, never wraparound.
pub fn compute_table_total(
    price: i64,
    price_exponent: i32,
    token_decimals: u8,
    balances: &Vec<u64>,
) -> (r: Result<u128, ValuationError>)
    requires
        total_decimals(price_exponent as int, token_decimals as nat) <= 36,
    ensures
        r is Ok <==> table_total(
            price as int,
            price_exponent as int,
            token_decimals as nat,
            balances@,
        ) <= u128::MAX,
        r is Ok ==> r->Ok_0 == table_total(
            price as int,
            price_exponent as int,
            token_decimals as nat,
            balances@,
        ),
        r is Err ==> r == Err::<u128, ValuationError>(ValuationError::ArithmeticOverflow),
{
    let ghost gp = price as int;
    let ghost ge = price_exponent as int;
    let ghost gd = token_decimals as nat;
    let mut total: u128 = 0;
    let n = balances.len();
    let mut i: usize = 0;
    while i < n
        invariant
            n == balances@.len(),
            0 <= i <= n,
            total_decimals(ge, gd) <= 36,
            gp == price as int && ge == price_exponent as int && gd == token_decimals as nat,
            total == table_total(gp, ge, gd, balances@.take(i as int)),
        decreases n - i,
    {
        proof {
            assert(balances@.take(i + 1).drop_last() =~= balances@.take(i as int));
            assert(balances@.take(i + 1).last() == balances@[i as int]);
        }
        let v = match compute_asset_value(price, price_exponent, balances[i], token_decimals) {
            Ok(v) => v,
            Err(e) => {
                proof {
                    lemma_table_total_prefix(gp, ge, gd, balances@, i + 1);
                }
                return Err(e);
            },
        };
        total = match total.checked_add(v) {
            Some(t) => t,
            None => {
                proof {
                    lemma_table_total_prefix(gp, ge, gd, balances@, i + 1);
                }
                return Err(ValuationError::ArithmeticOverflow);
            },
        };
        i = i + 1;
    }
    proof {
        assert(balances@.take(n as int) =~= balances@);
    }
    Ok(total)
}

/// The sum of a list of per-table USD contributions.
pub open spec fn sum_values(s: Seq<u128>) -> int
    decreases s.len(),
{
    if s.len() == 0 {
        0
    } else {
        sum_values(s.drop_last()) + s.last()
    }
}

/// A prefix never sums to more than the whole list.
proof fn lemma_sum_values_prefix(s: Seq<u128>, i: int)
    requires
        0 <= i <= s.len(),
    ensures
        sum_values(s.take(i)) <= sum_values(s),
    decreases s.len() - i,
{
    if i < s.len() {
        assert(s.take(i + 1).drop_last() =~= s.take(i));
        assert(s.take(i + 1).last() == s[i]);
        lemma_sum_values_prefix(s, i + 1);
    } else {
        assert(s.take(i) =~= s);
    }
}

/// Taking one element out takes exactly its value out of the sum.
proof fn lemma_sum_values_remove(s: Seq<u128>, j: int)
    requires
        0 <= j < s.len(),
    ensures
        sum_values(s) == s[j] + sum_values(s.remove(j)),
    decreases s.len(),
{
    if j == s.len() - 1 {
        assert(s.remove(j) =~= s.drop_last());
    } else {
        assert(s.remove(j).drop_last() =~= s.drop_last().remove(j));
        assert(s.remove(j).last() == s.last());
        lemma_sum_values_remove(s.drop_last(), j);
    }
}

/// Law: summation is order-independent. Two lists of per-table contributions
/// that hold the same values, however ordered, sum to the same total.
pub proof fn lemma_sum_values_permutation(s1: Seq<u128>, s2: Seq<u128>)
    requires
        s1.to_multiset() == s2.to_multiset(),
    ensures
        sum_values(s1) == sum_values(s2),
    decreases s1.len(),
{
    broadcast use vstd::seq_lib::group_to_multiset_ensures;

    assert(s1.len() == s1.to_multiset().len());
    assert(s2.len() == s2.to_multiset().len());
    if s1.len() > 0 {
        let x = s1.last();
        let i = s1.len() - 1;
        assert(s1.to_multiset().count(x) > 0);
        assert(s2.to_multiset().count(x) > 0);
        assert(s2.contains(x));
        let j = choose|j: int| 0 <= j < s2.len() && s2[j] == x;
        assert(s1.drop_last() =~= s1.remove(i));
        assert(s1.remove(i).to_multiset() =~= s1.to_multiset().remove(x));
        assert(s2.remove(j).to_multiset() =~= s2.to_multiset().remove(x));
        lemma_sum_values_permutation(s1.drop_last(), s2.remove(j));
        lemma_sum_values_remove(s2, j);
    }
}

/// Sum the per-table USD contributions over all registered asset tables,
/// plus the base value carried directly on the admin configuration.
///
/// Fails with `ArithmeticOverflow` exactly when the mathematical total
/// exceeds the 128-bit width. The result does not depend on the order of
/// `table_totals` (see [`lemma_sum_values_permutation`]); iterating tables
/// in registry order merely keeps runs reproducible.
pub fn compute_total_aum(base_aum: u128, table_totals: &Vec<u128>) -> (r: Result<
    u128,
    ValuationError,
>)
    ensures
        r is Ok <==> base_aum + sum_values(table_totals@) <= u128::MAX,
        r is Ok ==> r->Ok_0 == base_aum + sum_values(table_totals@),
        r is Err ==> r == Err::<u128, ValuationError>(ValuationError::ArithmeticOverflow),
{
    let mut total: u128 = base_aum;
    let n = table_totals.len();
    let mut i: usize = 0;
    while i < n
        invariant
            n == table_totals@.len(),
            0 <= i <= n,
            total == base_aum + sum_values(table_totals@.take(i as int)),
        decreases n - i,
    {
        proof {
            assert(table_totals@.take(i + 1).drop_last() =~= table_totals@.take(i as int));
            assert(table_totals@.take(i + 1).last() == table_totals@[i as int]);
        }
        total = match total.checked_add(table_totals[i]) {
            Some(t) => t,
            None => {
                proof {
                    lemma_sum_values_prefix(table_totals@, i + 1);
                }
                return Err(ValuationError::ArithmeticOverflow);
            },
        };
        i = i + 1;
    }
    proof {
        assert(table_totals@.take(n as int) =~= table_totals@);
    }
    Ok(total)
}

/// Derive the price of one unit from the total valuation and the total
/// supply, both at six-decimal scale (so the ratio is scale-invariant).
/// The result is again at six-decimal scale, truncated toward zero.
///
/// Fails with `DivisionByZero` when the supply is zero — never a silent
/// platform infinity — and with `ArithmeticOverflow` when scaling the
/// valuation up by six digits exceeds the 128-bit width.
pub fn derive_price_per_unit(total_aum_usd: u128, total_supply: u128) -> (r: Result<
    u128,
    ValuationError,
>)
    ensures
        total_supply == 0 <==> r == Err::<u128, ValuationError>(ValuationError::DivisionByZero),
        r is Ok <==> total_supply != 0 && total_aum_usd * pow10(AUM_VALUE_SCALE_DECIMALS as nat)
            <= u128::MAX,
        r is Ok ==> r->Ok_0 == (total_aum_usd * pow10(AUM_VALUE_SCALE_DECIMALS as nat)) as int
            / total_supply as int,
        total_supply != 0 && total_aum_usd * pow10(AUM_VALUE_SCALE_DECIMALS as nat) > u128::MAX
            ==> r == Err::<u128, ValuationError>(ValuationError::ArithmeticOverflow),
{
    if total_supply == 0 {
        return Err(ValuationError::DivisionByZero);
    }
    let scale = ten_pow(AUM_VALUE_SCALE_DECIMALS);
    match total_aum_usd.checked_mul(scale) {
        Some(scaled) => Ok(scaled / total_supply),
        None => Err(ValuationError::ArithmeticOverflow),
    }
}

} // verus!
