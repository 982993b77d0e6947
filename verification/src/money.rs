//! Monetary arithmetic of the pool and the bridge: fees, liquidity shares
//! and constant-product pricing.
//!
//! Every formula is stated over the mathematical integers. The functions
//! compute in 128 bits and fail where an intermediate value or the result
//! does not fit; nothing wraps or truncates.

use vstd::prelude::*;
use crate::confidential_swap::{ErrorCode, MINIMUM_LIQUIDITY};

verus! {

/// Basis points in the whole: a fee of 10 000 takes everything.
pub const BASIS_POINTS: u64 = 10000;

/// `r` is the floor of the square root of `n`.
pub open spec fn is_floor_sqrt(n: int, r: int) -> bool {
    0 <= r && r * r <= n < (r + 1) * (r + 1)
}

/// The floor of the square root of `n`, for `n >= 0`.
pub open spec fn floor_sqrt(n: int) -> int {
    choose|r: int| is_floor_sqrt(n, r)
}

proof fn lemma_square_monotone(a: int, b: int)
    by (nonlinear_arith)
    requires
        0 <= a <= b,
    ensures
        a * a <= b * b,
{
}

/// A number has at most one floor square root, so exhibiting one
/// determines `floor_sqrt`.
pub proof fn lemma_floor_sqrt_unique(n: int, r: int)
    requires
        is_floor_sqrt(n, r),
    ensures
        floor_sqrt(n) == r,
{
    let s = floor_sqrt(n);
    assert(is_floor_sqrt(n, s));
    if s < r {
        lemma_square_monotone(s + 1, r);
    } else if r < s {
        lemma_square_monotone(r + 1, s);
    }
}

/// Every natural number has a floor square root.
pub proof fn lemma_floor_sqrt_exists(n: nat)
    ensures
        is_floor_sqrt(n as int, floor_sqrt(n as int)),
    decreases n,
{
    if n == 0 {
        assert(is_floor_sqrt(0, 0));
    } else {
        lemma_floor_sqrt_exists((n - 1) as nat);
        let r = floor_sqrt(n - 1);
        if n < (r + 1) * (r + 1) {
            assert(is_floor_sqrt(n as int, r));
        } else {
            assert((r + 1) * (r + 1) < (r + 2) * (r + 2)) by (nonlinear_arith)
                requires
                    0 <= r,
            ;
            assert(is_floor_sqrt(n as int, r + 1));
        }
    }
}

/// The floor square root of a product of two 64-bit numbers fits in 64
/// bits.
pub proof fn lemma_floor_sqrt_of_product_fits(a: u64, b: u64)
    ensures
        is_floor_sqrt(a * b, floor_sqrt(a * b)),
        0 <= floor_sqrt(a * b) <= u64::MAX,
{
    assert(0 <= a * b <= 0xFFFF_FFFF_FFFF_FFFF * 0xFFFF_FFFF_FFFF_FFFF) by (nonlinear_arith)
        requires
            0 <= a <= 0xFFFF_FFFF_FFFF_FFFF,
            0 <= b <= 0xFFFF_FFFF_FFFF_FFFF,
    ;
    lemma_floor_sqrt_exists((a * b) as nat);
    let r = floor_sqrt(a * b);
    if r > u64::MAX {
        lemma_square_monotone(0x1_0000_0000_0000_0000, r);
    }
}

/// Floor of the square root of a 128-bit number.
pub fn integer_sqrt(n: u128) -> (root: u64)
    ensures
        is_floor_sqrt(n as int, root as int),
        root == floor_sqrt(n as int),
{
    let mut lo: u128 = 0;
    let mut hi: u128 = 0x1_0000_0000_0000_0000;
    assert(0x1_0000_0000_0000_0000int * 0x1_0000_0000_0000_0000int > u128::MAX);
    while hi - lo > 1
        invariant
            lo < hi <= 0x1_0000_0000_0000_0000,
            lo * lo <= n < hi * hi,
        decreases hi - lo,
    {
        let mid = lo + (hi - lo) / 2;
        assert(mid * mid <= u128::MAX) by (nonlinear_arith)
            requires
                mid <= 0xFFFF_FFFF_FFFF_FFFF,
        ;
        if mid * mid <= n {
            lo = mid;
        } else {
            hi = mid;
        }
    }
    proof {
        lemma_floor_sqrt_unique(n as int, lo as int);
    }
    lo as u64
}

/// The fee that `fee_bps` basis points take of `amount`, rounded down.
pub open spec fn fee_of(amount: int, fee_bps: int) -> int {
    amount * fee_bps / (BASIS_POINTS as int)
}

/// Splits an amount into the fee and what is left after it.
///
/// Returns `None` exactly when the fee exceeds the amount, which only a
/// rate above 10 000 basis points can cause.
pub fn split_fee(amount: u64, fee_bps: u16) -> (parts: Option<(u64, u64)>)
    ensures
        match parts {
            Some((fee, net)) => fee == fee_of(amount as int, fee_bps as int) && net == amount - fee,
            None => fee_of(amount as int, fee_bps as int) > amount,
        },
{
    assert(amount * fee_bps <= u128::MAX) by (nonlinear_arith)
        requires
            amount <= u64::MAX,
            fee_bps <= u16::MAX,
    ;
    let fee: u128 = (amount as u128) * (fee_bps as u128) / (BASIS_POINTS as u128);
    if fee > amount as u128 {
        None
    } else {
        Some((fee as u64, amount - fee as u64))
    }
}

/// Liquidity minted for the first deposit into a pool, which may be zero or
/// negative: `floor(sqrt(amount_a * amount_b)) - MINIMUM_LIQUIDITY`.
pub open spec fn first_liquidity_minted(amount_a: int, amount_b: int) -> int {
    floor_sqrt(amount_a * amount_b) - MINIMUM_LIQUIDITY
}

/// What `first_liquidity` returns.
pub open spec fn first_liquidity_outcome(amount_a: u64, amount_b: u64) -> Result<u64, ErrorCode> {
    let minted = first_liquidity_minted(amount_a as int, amount_b as int);
    if minted <= 0 {
        Err(ErrorCode::InsufficientLiquidity)
    } else {
        Ok(minted as u64)
    }
}

/// Liquidity minted for the first deposit into a pool.
///
/// Fails with `InsufficientLiquidity` exactly when the geometric mean of the
/// two amounts does not exceed `MINIMUM_LIQUIDITY`.
pub fn first_liquidity(amount_a: u64, amount_b: u64) -> (minted: Result<u64, ErrorCode>)
    ensures
        minted == first_liquidity_outcome(amount_a, amount_b),
{
    assert(0 <= amount_a * amount_b <= u128::MAX) by (nonlinear_arith)
        requires
            0 <= amount_a <= u64::MAX,
            0 <= amount_b <= u64::MAX,
    ;
    let product: u128 = (amount_a as u128) * (amount_b as u128);
    let root = integer_sqrt(product);
    if root <= MINIMUM_LIQUIDITY {
        Err(ErrorCode::InsufficientLiquidity)
    } else {
        Ok(root - MINIMUM_LIQUIDITY)
    }
}

/// `amount` scaled by the ratio of `part` to `whole`, rounded down:
/// `amount * part / whole`.
///
/// A deposit of `amount` against a reserve earns
/// `pro_rata(amount, supply, reserve)` of liquidity; `liquidity` redeems
/// `pro_rata(liquidity, reserve, supply)` of a reserve.
pub open spec fn pro_rata(amount: int, part: int, whole: int) -> int {
    amount * part / whole
}

/// The smaller of two integers.
pub open spec fn smaller(x: int, y: int) -> int {
    if x <= y {
        x
    } else {
        y
    }
}

/// What `subsequent_liquidity` returns.
pub open spec fn subsequent_liquidity_outcome(
    amount_a: u64,
    amount_b: u64,
    total_supply: u64,
    reserve_a: u64,
    reserve_b: u64,
) -> Result<u64, ErrorCode> {
    if reserve_a == 0 || reserve_b == 0 {
        Err(ErrorCode::ArithmeticOverflow)
    } else {
        let minted = smaller(
            pro_rata(amount_a as int, total_supply as int, reserve_a as int),
            pro_rata(amount_b as int, total_supply as int, reserve_b as int),
        );
        if minted > u64::MAX {
            Err(ErrorCode::ArithmeticOverflow)
        } else if minted == 0 {
            Err(ErrorCode::InsufficientLiquidity)
        } else {
            Ok(minted as u64)
        }
    }
}

/// Liquidity minted for a deposit into a pool that has liquidity already:
/// the smaller of the two sides' pro-rata shares of the supply.
///
/// Fails with `ArithmeticOverflow` when a reserve is zero or the share does
/// not fit in 64 bits, and with `InsufficientLiquidity` when the share is
/// zero.
pub fn subsequent_liquidity(
    amount_a: u64,
    amount_b: u64,
    total_supply: u64,
    reserve_a: u64,
    reserve_b: u64,
) -> (minted: Result<u64, ErrorCode>)
    ensures
        minted == subsequent_liquidity_outcome(
            amount_a,
            amount_b,
            total_supply,
            reserve_a,
            reserve_b,
        ),
{
    if reserve_a == 0 || reserve_b == 0 {
        return Err(ErrorCode::ArithmeticOverflow);
    }
    assert(0 <= amount_a * total_supply <= u128::MAX) by (nonlinear_arith)
        requires
            0 <= amount_a <= u64::MAX,
            0 <= total_supply <= u64::MAX,
    ;
    assert(0 <= amount_b * total_supply <= u128::MAX) by (nonlinear_arith)
        requires
            0 <= amount_b <= u64::MAX,
            0 <= total_supply <= u64::MAX,
    ;
    let share_a: u128 = (amount_a as u128) * (total_supply as u128) / (reserve_a as u128);
    let share_b: u128 = (amount_b as u128) * (total_supply as u128) / (reserve_b as u128);
    let minted: u128 = if share_a <= share_b {
        share_a
    } else {
        share_b
    };
    if minted > u64::MAX as u128 {
        Err(ErrorCode::ArithmeticOverflow)
    } else if minted == 0 {
        Err(ErrorCode::InsufficientLiquidity)
    } else {
        Ok(minted as u64)
    }
}

/// Output of a constant-product swap after the pool's 0.3% fee:
/// `amount_in * 997 * reserve_out / (reserve_in * 1000 + amount_in * 997)`,
/// rounded down.
pub open spec fn swap_output(amount_in: int, reserve_in: int, reserve_out: int) -> int {
    (amount_in * 997 * reserve_out) / (reserve_in * 1000 + amount_in * 997)
}

/// What `calculate_output_amount` returns.
pub open spec fn output_amount_outcome(amount_in: u64, reserve_in: u64, reserve_out: u64) -> Result<
    u64,
    ErrorCode,
> {
    if reserve_in * 1000 + amount_in * 997 == 0 || amount_in * 997 * reserve_out > u128::MAX {
        Err(ErrorCode::ArithmeticOverflow)
    } else {
        Ok(swap_output(amount_in as int, reserve_in as int, reserve_out as int) as u64)
    }
}

/// The output of a swap never exceeds the reserve it is paid from.
pub proof fn lemma_output_within_reserve(amount_in: int, reserve_in: int, reserve_out: int)
    requires
        0 <= amount_in,
        0 <= reserve_in,
        0 <= reserve_out,
        reserve_in * 1000 + amount_in * 997 > 0,
    ensures
        0 <= swap_output(amount_in, reserve_in, reserve_out) <= reserve_out,
{
    let weighted = amount_in * 997;
    let denominator = reserve_in * 1000 + weighted;
    let numerator = weighted * reserve_out;
    assert(0 <= numerator <= denominator * reserve_out) by (nonlinear_arith)
        requires
            0 <= weighted <= denominator,
            0 <= reserve_out,
            numerator == weighted * reserve_out,
    ;
    assert(0 <= numerator / denominator <= reserve_out) by (nonlinear_arith)
        requires
            0 <= numerator <= denominator * reserve_out,
            denominator > 0,
    ;
}

/// Output of a swap of `amount_in` against the two reserves.
///
/// Fails with `ArithmeticOverflow` exactly when both the input and the
/// input reserve are zero, or the product `amount_in * 997 * reserve_out`
/// does not fit in 128 bits.
pub fn calculate_output_amount(amount_in: u64, reserve_in: u64, reserve_out: u64) -> (amount_out:
    Result<u64, ErrorCode>)
    ensures
        amount_out == output_amount_outcome(amount_in, reserve_in, reserve_out),
{
    let weighted: u128 = (amount_in as u128) * 997;
    let denominator: u128 = (reserve_in as u128) * 1000 + weighted;
    if denominator == 0 {
        return Err(ErrorCode::ArithmeticOverflow);
    }
    match weighted.checked_mul(reserve_out as u128) {
        None => Err(ErrorCode::ArithmeticOverflow),
        Some(numerator) => {
            proof {
                lemma_output_within_reserve(amount_in as int, reserve_in as int, reserve_out as int);
            }
            Ok((numerator / denominator) as u64)
        },
    }
}

/// What `withdrawal_amount` returns.
pub open spec fn withdrawal_outcome(liquidity: u64, reserve: u64, total_supply: u64) -> Result<
    u64,
    ErrorCode,
> {
    if total_supply == 0 || pro_rata(liquidity as int, reserve as int, total_supply as int)
        > u64::MAX {
        Err(ErrorCode::ArithmeticOverflow)
    } else {
        Ok(pro_rata(liquidity as int, reserve as int, total_supply as int) as u64)
    }
}

/// The part of a reserve that `liquidity` redeems:
/// `liquidity * reserve / total_supply`, rounded down.
///
/// Fails with `ArithmeticOverflow` exactly when the supply is zero or the
/// amount does not fit in 64 bits.
pub fn withdrawal_amount(liquidity: u64, reserve: u64, total_supply: u64) -> (amount: Result<
    u64,
    ErrorCode,
>)
    ensures
        amount == withdrawal_outcome(liquidity, reserve, total_supply),
{
    if total_supply == 0 {
        return Err(ErrorCode::ArithmeticOverflow);
    }
    assert(0 <= liquidity * reserve <= u128::MAX) by (nonlinear_arith)
        requires
            0 <= liquidity <= u64::MAX,
            0 <= reserve <= u64::MAX,
    ;
    let amount: u128 = (liquidity as u128) * (reserve as u128) / (total_supply as u128);
    if amount > u64::MAX as u128 {
        Err(ErrorCode::ArithmeticOverflow)
    } else {
        Ok(amount as u64)
    }
}

/// A withdrawal of no more than the whole supply takes no more than the
/// whole reserve.
pub proof fn lemma_withdrawal_within_reserve(liquidity: int, reserve: int, total_supply: int)
    requires
        0 <= liquidity <= total_supply,
        0 < total_supply,
        0 <= reserve,
    ensures
        0 <= pro_rata(liquidity, reserve, total_supply) <= reserve,
{
    assert(0 <= liquidity * reserve <= total_supply * reserve) by (nonlinear_arith)
        requires
            0 <= liquidity <= total_supply,
            0 <= reserve,
    ;
    assert(0 <= (liquidity * reserve) / total_supply <= reserve) by (nonlinear_arith)
        requires
            0 <= liquidity * reserve <= total_supply * reserve,
            total_supply > 0,
    ;
}

} // verus!
