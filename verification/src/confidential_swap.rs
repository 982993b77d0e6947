//! The confidential swap engine: pool lifecycle, liquidity accounting and
//! commit-reveal swap execution.
//!
//! Each operation takes the records it names in a context value, checks its
//! preconditions in a fixed order and either returns an error and leaves the
//! context as it was, or updates the context and returns the event that
//! describes the outcome. Token transfers are the host's: it moves the
//! amounts an operation was given or reports in its event, and commits the
//! updated records only when the transfers went through.

use vstd::prelude::*;
use crate::money::{
    calculate_output_amount, fee_of, first_liquidity, first_liquidity_outcome,
    output_amount_outcome, split_fee, subsequent_liquidity, subsequent_liquidity_outcome,
    withdrawal_amount, withdrawal_outcome,
};
use crate::commitment::{
    add_commitments, commitment_difference, commitment_sum, subtract_commitments,
    zero_commitment,
};
use crate::keys::Pubkey;

verus! {

/// Liquidity withheld from the first provider of a pool.
pub const MINIMUM_LIQUIDITY: u64 = 1000;

/// Seconds that must pass between a swap's commitment and its execution.
pub const REVEAL_DELAY_SECONDS: i64 = 60;

/// Seconds after its commitment at which a swap can no longer be executed.
pub const REVEAL_WINDOW_SECONDS: i64 = 600;

/// Why a swap operation was rejected.
#[derive(Clone, Copy, Debug, PartialEq, Eq, Structural)]
pub enum ErrorCode {
    /// The swap program is paused.
    SwapPaused,
    /// The pool was never created.
    PoolNotInitialized,
    /// A range proof was rejected.
    InvalidProof,
    /// A deposit mints no liquidity, or a withdrawal exceeds the position.
    InsufficientLiquidity,
    /// The caller did not make the swap commitment.
    NotSwapOwner,
    /// The swap commitment was executed before.
    AlreadyExecuted,
    /// Less than a minute has passed since the commitment.
    RevealTooEarly,
    /// More than ten minutes have passed since the commitment.
    SwapExpired,
    /// The output falls short of the least amount the caller accepts.
    SlippageExceeded,
    /// A monetary computation left the representable range.
    ArithmeticOverflow,
}

/// Program-wide configuration, created once.
#[derive(Clone, Copy, Debug, PartialEq, Eq)]
pub struct SwapConfig {
    pub authority: Pubkey,
    /// Protocol fee on swaps, in basis points.
    pub swap_fee: u16,
    pub paused: bool,
    pub total_pools: u64,
}

/// A liquidity pool for a pair of tokens.
#[derive(Clone, Copy, Debug, PartialEq, Eq)]
pub struct Pool {
    pub token_a: Pubkey,
    pub token_b: Pubkey,
    pub reserve_a_commitment: [u8; 32],
    pub reserve_b_commitment: [u8; 32],
    pub total_supply: u64,
    pub initialized: bool,
}

/// A provider's share of a pool.
#[derive(Clone, Copy, Debug, PartialEq, Eq)]
pub struct LiquidityPosition {
    pub pool: Pubkey,
    pub user: Pubkey,
    pub liquidity: u64,
}

/// A committed swap: made in the hiding phase, executed at most once.
#[derive(Clone, Copy, Debug, PartialEq, Eq)]
pub struct SwapCommitment {
    pub user: Pubkey,
    pub pool: Pubkey,
    pub input_commitment: [u8; 32],
    pub output_commitment: [u8; 32],
    pub timestamp: i64,
    pub revealed: bool,
    pub executed: bool,
}

/// A range proof in the Bulletproofs layout.
#[derive(Clone, Debug, PartialEq, Eq)]
pub struct BulletproofProof {
    pub a: [u8; 32],
    pub s: [u8; 32],
    pub t1: [u8; 32],
    pub t2: [u8; 32],
    pub taux: [u8; 32],
    pub mu: [u8; 32],
    pub inner_product: Vec<u8>,
}

/// A pool was created.
#[derive(Clone, Copy, Debug, PartialEq, Eq)]
pub struct PoolCreated {
    pub pool_id: Pubkey,
    pub token_a: Pubkey,
    pub token_b: Pubkey,
}

/// Liquidity was added to a pool.
#[derive(Clone, Copy, Debug, PartialEq, Eq)]
pub struct LiquidityAdded {
    pub pool: Pubkey,
    pub provider: Pubkey,
    pub amount_a_commitment: [u8; 32],
    pub amount_b_commitment: [u8; 32],
    pub liquidity: u64,
}

/// A swap was committed.
#[derive(Clone, Copy, Debug, PartialEq, Eq)]
pub struct SwapCommitted {
    pub swap_id: Pubkey,
    pub pool: Pubkey,
    pub user: Pubkey,
    pub input_commitment: [u8; 32],
    pub timestamp: i64,
}

/// A committed swap was executed.
#[derive(Clone, Copy, Debug, PartialEq, Eq)]
pub struct SwapExecuted {
    pub swap_id: Pubkey,
    pub pool: Pubkey,
    pub input_commitment: [u8; 32],
    pub output_commitment: [u8; 32],
    pub amount_out: u64,
}

/// Liquidity was removed from a pool.
#[derive(Clone, Copy, Debug, PartialEq, Eq)]
pub struct LiquidityRemoved {
    pub pool: Pubkey,
    pub provider: Pubkey,
    pub liquidity: u64,
    pub amount_a: u64,
    pub amount_b: u64,
}

// ---------------------------------------------------------------------
// Range proofs
// ---------------------------------------------------------------------

/// Whether a range proof has the shape of a proof: its four curve points
/// are 32 bytes each.
pub open spec fn range_proof_well_formed(proof: &BulletproofProof) -> bool {
    &&& proof.a@.len() == 32
    &&& proof.s@.len() == 32
    &&& proof.t1@.len() == 32
    &&& proof.t2@.len() == 32
}

/// The verdict of `verify_range_proof`.
///
/// The verdict rests on the proof's structure alone. It depends on nothing
/// but the arguments, so the same arguments always get the same verdict.
pub open spec fn range_proof_accepted(
    commitment: Seq<u8>,
    proof: &BulletproofProof,
    min: u64,
    max: u64,
) -> bool {
    range_proof_well_formed(proof)
}

/// The structural verdict on a range proof for the value hidden in
/// `commitment` and the range `min..=max`.
///
/// The type fixes the length of every point, so every proof passes and the
/// verdict is `true`; no cryptographic check is made. A host that has a
/// cryptographic verifier uses the `_with_verdict` form of an operation.
pub fn verify_range_proof(commitment: &[u8; 32], proof: &BulletproofProof, min: u64, max: u64) -> (valid:
    bool)
    ensures
        valid == range_proof_accepted(commitment@, proof, min, max),
{
    proof.a.len() == 32 && proof.s.len() == 32 && proof.t1.len() == 32 && proof.t2.len() == 32
}

// ---------------------------------------------------------------------
// initialize
// ---------------------------------------------------------------------

/// The records that `initialize` names.
#[derive(Clone, Copy, Debug, PartialEq, Eq)]
pub struct Initialize {
    /// The configuration record to fill.
    pub config: SwapConfig,
    /// The party that creates the configuration.
    pub authority: Pubkey,
}

/// Creates the program's configuration: owned by the caller, not paused,
/// with no pools.
pub fn initialize(ctx: &mut Initialize, swap_fee: u16)
    ensures
        final(ctx).authority == old(ctx).authority,
        final(ctx).config == (SwapConfig {
            authority: old(ctx).authority,
            swap_fee,
            paused: false,
            total_pools: 0,
        }),
{
    ctx.config.authority = ctx.authority;
    ctx.config.swap_fee = swap_fee;
    ctx.config.paused = false;
    ctx.config.total_pools = 0;
}

// ---------------------------------------------------------------------
// create_pool
// ---------------------------------------------------------------------

/// The records that `create_pool` names.
#[derive(Clone, Copy, Debug, PartialEq, Eq)]
pub struct CreatePool {
    pub config: SwapConfig,
    /// The pool record to fill.
    pub pool: Pool,
    /// Address of the pool record.
    pub pool_key: Pubkey,
    pub authority: Pubkey,
}

/// The error that `create_pool` returns, if any.
pub open spec fn create_pool_error(pre: CreatePool) -> Option<ErrorCode> {
    if pre.config.paused {
        Some(ErrorCode::SwapPaused)
    } else if pre.config.total_pools + 1 > u64::MAX {
        Some(ErrorCode::ArithmeticOverflow)
    } else {
        None
    }
}

/// What a successful `create_pool` does to its records.
pub open spec fn create_pool_applied(
    pre: CreatePool,
    post: CreatePool,
    token_a: Pubkey,
    token_b: Pubkey,
) -> bool {
    &&& post.pool_key == pre.pool_key
    &&& post.authority == pre.authority
    &&& post.config == (SwapConfig { total_pools: (pre.config.total_pools + 1) as u64, ..pre.config })
    &&& post.pool.token_a == token_a
    &&& post.pool.token_b == token_b
    &&& post.pool.reserve_a_commitment@ == zero_commitment()
    &&& post.pool.reserve_b_commitment@ == zero_commitment()
    &&& post.pool.total_supply == 0
    &&& post.pool.initialized
}

/// Creates a pool for a pair of tokens, with zero reserves and no supply,
/// and counts it.
pub fn create_pool(ctx: &mut CreatePool, token_a: Pubkey, token_b: Pubkey) -> (result: Result<
    PoolCreated,
    ErrorCode,
>)
    ensures
        match result {
            Ok(event) => {
                &&& create_pool_error(*old(ctx)) is None
                &&& create_pool_applied(*old(ctx), *final(ctx), token_a, token_b)
                &&& event == (PoolCreated { pool_id: old(ctx).pool_key, token_a, token_b })
            },
            Err(e) => create_pool_error(*old(ctx)) == Some(e) && *final(ctx) == *old(ctx),
        },
{
    if ctx.config.paused {
        return Err(ErrorCode::SwapPaused);
    }
    let total_pools = match ctx.config.total_pools.checked_add(1) {
        Some(n) => n,
        None => {
            return Err(ErrorCode::ArithmeticOverflow);
        },
    };
    let zero = crate::commitment::zero();
    ctx.pool.token_a = token_a;
    ctx.pool.token_b = token_b;
    ctx.pool.reserve_a_commitment = zero;
    ctx.pool.reserve_b_commitment = zero;
    ctx.pool.total_supply = 0;
    ctx.pool.initialized = true;
    ctx.config.total_pools = total_pools;
    Ok(PoolCreated { pool_id: ctx.pool_key, token_a, token_b })
}

// ---------------------------------------------------------------------
// add_liquidity
// ---------------------------------------------------------------------

/// The records that `add_liquidity` names.
#[derive(Clone, Copy, Debug, PartialEq, Eq)]
pub struct AddLiquidity {
    pub config: SwapConfig,
    pub pool: Pool,
    /// Address of the pool record.
    pub pool_key: Pubkey,
    /// The caller's position in the pool; a new position holds no liquidity.
    pub liquidity_position: LiquidityPosition,
    /// The depositing party.
    pub user: Pubkey,
    /// What the pool holds of token A before the deposit.
    pub reserve_a: u64,
    /// What the pool holds of token B before the deposit.
    pub reserve_b: u64,
}

/// The liquidity that a deposit mints, or why it mints none.
///
/// The first deposit into a pool earns the geometric mean of the two
/// amounts less `MINIMUM_LIQUIDITY`; a later one earns the smaller of the
/// two sides' pro-rata shares of the supply.
pub open spec fn minted_liquidity(pre: AddLiquidity, amount_a: u64, amount_b: u64) -> Result<
    u64,
    ErrorCode,
> {
    if pre.pool.total_supply == 0 {
        first_liquidity_outcome(amount_a, amount_b)
    } else {
        subsequent_liquidity_outcome(
            amount_a,
            amount_b,
            pre.pool.total_supply,
            pre.reserve_a,
            pre.reserve_b,
        )
    }
}

/// The error that `add_liquidity` returns, if any, given the verdicts on
/// the two range proofs.
pub open spec fn add_liquidity_error(
    pre: AddLiquidity,
    amount_a: u64,
    amount_b: u64,
    proof_a_valid: bool,
    proof_b_valid: bool,
) -> Option<ErrorCode> {
    if pre.config.paused {
        Some(ErrorCode::SwapPaused)
    } else if !pre.pool.initialized {
        Some(ErrorCode::PoolNotInitialized)
    } else if !proof_a_valid || !proof_b_valid {
        Some(ErrorCode::InvalidProof)
    } else {
        match minted_liquidity(pre, amount_a, amount_b) {
            Err(e) => Some(e),
            Ok(minted) => if pre.pool.total_supply + minted > u64::MAX
                || pre.liquidity_position.liquidity + minted > u64::MAX {
                Some(ErrorCode::ArithmeticOverflow)
            } else {
                None
            },
        }
    }
}

/// What a successful `add_liquidity` that mints `minted` does to its
/// records.
pub open spec fn add_liquidity_applied(
    pre: AddLiquidity,
    post: AddLiquidity,
    amount_a_commitment: Seq<u8>,
    amount_b_commitment: Seq<u8>,
    minted: u64,
) -> bool {
    &&& post.config == pre.config
    &&& post.pool_key == pre.pool_key
    &&& post.user == pre.user
    &&& post.reserve_a == pre.reserve_a
    &&& post.reserve_b == pre.reserve_b
    &&& post.pool.token_a == pre.pool.token_a
    &&& post.pool.token_b == pre.pool.token_b
    &&& post.pool.initialized == pre.pool.initialized
    &&& post.pool.reserve_a_commitment@ == commitment_sum(
        pre.pool.reserve_a_commitment@,
        amount_a_commitment,
    )
    &&& post.pool.reserve_b_commitment@ == commitment_sum(
        pre.pool.reserve_b_commitment@,
        amount_b_commitment,
    )
    &&& post.pool.total_supply == pre.pool.total_supply + minted
    &&& post.liquidity_position == (LiquidityPosition {
        pool: pre.pool_key,
        user: pre.user,
        liquidity: (pre.liquidity_position.liquidity + minted) as u64,
    })
}

/// How the result of `add_liquidity` and the records it leaves relate to
/// the records it was given and the verdicts on the two range proofs.
pub open spec fn add_liquidity_outcome(
    pre: AddLiquidity,
    post: AddLiquidity,
    amount_a: u64,
    amount_b: u64,
    amount_a_commitment: [u8; 32],
    amount_b_commitment: [u8; 32],
    proof_a_valid: bool,
    proof_b_valid: bool,
    result: Result<LiquidityAdded, ErrorCode>,
) -> bool {
    let error = add_liquidity_error(pre, amount_a, amount_b, proof_a_valid, proof_b_valid);
    match result {
        Ok(event) => {
            &&& error is None
            &&& minted_liquidity(pre, amount_a, amount_b) == Ok::<u64, ErrorCode>(event.liquidity)
            &&& add_liquidity_applied(
                pre,
                post,
                amount_a_commitment@,
                amount_b_commitment@,
                event.liquidity,
            )
            &&& event == (LiquidityAdded {
                pool: pre.pool_key,
                provider: pre.user,
                amount_a_commitment,
                amount_b_commitment,
                liquidity: event.liquidity,
            })
        },
        Err(e) => error == Some(e) && post == pre,
    }
}

/// Adds liquidity to a pool, given the verdicts of a range-proof verifier
/// on the two amount commitments.
///
/// On success the host moves `amount_a` and `amount_b` from the caller to
/// the pool.
pub fn add_liquidity_with_verdict(
    ctx: &mut AddLiquidity,
    amount_a: u64,
    amount_b: u64,
    amount_a_commitment: [u8; 32],
    amount_b_commitment: [u8; 32],
    proof_a_valid: bool,
    proof_b_valid: bool,
) -> (result: Result<LiquidityAdded, ErrorCode>)
    ensures
        add_liquidity_outcome(
            *old(ctx),
            *final(ctx),
            amount_a,
            amount_b,
            amount_a_commitment,
            amount_b_commitment,
            proof_a_valid,
            proof_b_valid,
            result,
        ),
{
    if ctx.config.paused {
        return Err(ErrorCode::SwapPaused);
    }
    if !ctx.pool.initialized {
        return Err(ErrorCode::PoolNotInitialized);
    }
    if !proof_a_valid || !proof_b_valid {
        return Err(ErrorCode::InvalidProof);
    }
    let minted = if ctx.pool.total_supply == 0 {
        first_liquidity(amount_a, amount_b)
    } else {
        subsequent_liquidity(
            amount_a,
            amount_b,
            ctx.pool.total_supply,
            ctx.reserve_a,
            ctx.reserve_b,
        )
    };
    let liquidity = match minted {
        Ok(liquidity) => liquidity,
        Err(e) => {
            return Err(e);
        },
    };
    let total_supply = match ctx.pool.total_supply.checked_add(liquidity) {
        Some(total) => total,
        None => {
            return Err(ErrorCode::ArithmeticOverflow);
        },
    };
    let position_liquidity = match ctx.liquidity_position.liquidity.checked_add(liquidity) {
        Some(total) => total,
        None => {
            return Err(ErrorCode::ArithmeticOverflow);
        },
    };
    let reserve_a_commitment = add_commitments(&ctx.pool.reserve_a_commitment, &amount_a_commitment);
    let reserve_b_commitment = add_commitments(&ctx.pool.reserve_b_commitment, &amount_b_commitment);
    ctx.pool.reserve_a_commitment = reserve_a_commitment;
    ctx.pool.reserve_b_commitment = reserve_b_commitment;
    ctx.pool.total_supply = total_supply;
    ctx.liquidity_position.pool = ctx.pool_key;
    ctx.liquidity_position.user = ctx.user;
    ctx.liquidity_position.liquidity = position_liquidity;
    Ok(
        LiquidityAdded {
            pool: ctx.pool_key,
            provider: ctx.user,
            amount_a_commitment,
            amount_b_commitment,
            liquidity,
        },
    )
}

/// Adds liquidity to a pool. Both amount commitments must carry a range
/// proof that `verify_range_proof` accepts for the range `0..=u64::MAX`.
///
/// On success the host moves `amount_a` and `amount_b` from the caller to
/// the pool.
pub fn add_liquidity(
    ctx: &mut AddLiquidity,
    amount_a: u64,
    amount_b: u64,
    amount_a_commitment: [u8; 32],
    amount_b_commitment: [u8; 32],
    proof_a: &BulletproofProof,
    proof_b: &BulletproofProof,
) -> (result: Result<LiquidityAdded, ErrorCode>)
    ensures
        add_liquidity_outcome(
            *old(ctx),
            *final(ctx),
            amount_a,
            amount_b,
            amount_a_commitment,
            amount_b_commitment,
            range_proof_accepted(amount_a_commitment@, proof_a, 0, u64::MAX),
            range_proof_accepted(amount_b_commitment@, proof_b, 0, u64::MAX),
            result,
        ),
{
    let proof_a_valid = verify_range_proof(&amount_a_commitment, proof_a, 0, u64::MAX);
    let proof_b_valid = verify_range_proof(&amount_b_commitment, proof_b, 0, u64::MAX);
    add_liquidity_with_verdict(
        ctx,
        amount_a,
        amount_b,
        amount_a_commitment,
        amount_b_commitment,
        proof_a_valid,
        proof_b_valid,
    )
}

// ---------------------------------------------------------------------
// commit_swap
// ---------------------------------------------------------------------

/// The records that `commit_swap` names.
#[derive(Clone, Copy, Debug, PartialEq, Eq)]
pub struct CommitSwap {
    pub config: SwapConfig,
    /// Address of the pool to swap against.
    pub pool_key: Pubkey,
    /// The commitment record to fill.
    pub swap_commitment: SwapCommitment,
    /// Address of the commitment record.
    pub swap_key: Pubkey,
    /// The committing party.
    pub user: Pubkey,
}

/// The error that `commit_swap` returns, if any.
pub open spec fn commit_swap_error(pre: CommitSwap) -> Option<ErrorCode> {
    if pre.config.paused {
        Some(ErrorCode::SwapPaused)
    } else {
        None
    }
}

/// How the result of `commit_swap` and the records it leaves relate to the
/// records it was given.
pub open spec fn commit_swap_outcome(
    pre: CommitSwap,
    post: CommitSwap,
    input_commitment: [u8; 32],
    output_commitment: [u8; 32],
    now: i64,
    result: Result<SwapCommitted, ErrorCode>,
) -> bool {
    match result {
        Ok(event) => {
            &&& commit_swap_error(pre) is None
            &&& post == (CommitSwap {
                swap_commitment: SwapCommitment {
                    user: pre.user,
                    pool: pre.pool_key,
                    input_commitment,
                    output_commitment,
                    timestamp: now,
                    revealed: false,
                    executed: false,
                },
                ..pre
            })
            &&& event == (SwapCommitted {
                swap_id: pre.swap_key,
                pool: pre.pool_key,
                user: pre.user,
                input_commitment,
                timestamp: now,
            })
        },
        Err(e) => commit_swap_error(pre) == Some(e) && post == pre,
    }
}

/// Commits to a swap without revealing its amounts. No funds move; the
/// swap can be executed between one and ten minutes after `now`.
pub fn commit_swap(
    ctx: &mut CommitSwap,
    input_commitment: [u8; 32],
    output_commitment: [u8; 32],
    now: i64,
) -> (result: Result<SwapCommitted, ErrorCode>)
    ensures
        commit_swap_outcome(
            *old(ctx),
            *final(ctx),
            input_commitment,
            output_commitment,
            now,
            result,
        ),
{
    if ctx.config.paused {
        return Err(ErrorCode::SwapPaused);
    }
    let swap_commitment = SwapCommitment {
        user: ctx.user,
        pool: ctx.pool_key,
        input_commitment,
        output_commitment,
        timestamp: now,
        revealed: false,
        executed: false,
    };
    ctx.swap_commitment = swap_commitment;
    Ok(
        SwapCommitted {
            swap_id: ctx.swap_key,
            pool: ctx.pool_key,
            user: ctx.user,
            input_commitment,
            timestamp: now,
        },
    )
}

// ---------------------------------------------------------------------
// execute_swap
// ---------------------------------------------------------------------

/// The records that `execute_swap` names.
#[derive(Clone, Copy, Debug, PartialEq, Eq)]
pub struct ExecuteSwap {
    pub config: SwapConfig,
    pub pool: Pool,
    /// Address of the pool record.
    pub pool_key: Pubkey,
    pub swap_commitment: SwapCommitment,
    /// Address of the commitment record.
    pub swap_key: Pubkey,
    /// The calling party.
    pub user: Pubkey,
    /// What the pool holds of the input token before the swap.
    pub reserve_in: u64,
    /// What the pool holds of the output token before the swap.
    pub reserve_out: u64,
}

/// The amount a swap pays out, or why none can be computed: the protocol
/// fee is taken from the input first, and what is left is priced on the
/// constant-product curve.
pub open spec fn swap_quote(pre: ExecuteSwap, amount_in: u64) -> Result<u64, ErrorCode> {
    let fee = fee_of(amount_in as int, pre.config.swap_fee as int);
    if fee > amount_in {
        Err(ErrorCode::ArithmeticOverflow)
    } else {
        output_amount_outcome((amount_in - fee) as u64, pre.reserve_in, pre.reserve_out)
    }
}

/// The error that `execute_swap` returns, if any, given the verdict on the
/// range proof.
pub open spec fn execute_swap_error(
    pre: ExecuteSwap,
    amount_in: u64,
    min_amount_out: u64,
    proof_valid: bool,
    now: i64,
) -> Option<ErrorCode> {
    if pre.config.paused {
        Some(ErrorCode::SwapPaused)
    } else if pre.swap_commitment.user != pre.user {
        Some(ErrorCode::NotSwapOwner)
    } else if pre.swap_commitment.executed {
        Some(ErrorCode::AlreadyExecuted)
    } else if now < pre.swap_commitment.timestamp + REVEAL_DELAY_SECONDS {
        Some(ErrorCode::RevealTooEarly)
    } else if now > pre.swap_commitment.timestamp + REVEAL_WINDOW_SECONDS {
        Some(ErrorCode::SwapExpired)
    } else if !proof_valid {
        Some(ErrorCode::InvalidProof)
    } else {
        match swap_quote(pre, amount_in) {
            Err(e) => Some(e),
            Ok(amount_out) => if amount_out < min_amount_out {
                Some(ErrorCode::SlippageExceeded)
            } else {
                None
            },
        }
    }
}

/// What a successful `execute_swap` does to its records: the input
/// commitment joins the first reserve commitment, the output commitment
/// leaves the second, and the swap commitment becomes executed.
pub open spec fn execute_swap_applied(pre: ExecuteSwap, post: ExecuteSwap) -> bool {
    &&& post.config == pre.config
    &&& post.pool_key == pre.pool_key
    &&& post.swap_key == pre.swap_key
    &&& post.user == pre.user
    &&& post.reserve_in == pre.reserve_in
    &&& post.reserve_out == pre.reserve_out
    &&& post.pool.token_a == pre.pool.token_a
    &&& post.pool.token_b == pre.pool.token_b
    &&& post.pool.total_supply == pre.pool.total_supply
    &&& post.pool.initialized == pre.pool.initialized
    &&& post.pool.reserve_a_commitment@ == commitment_sum(
        pre.pool.reserve_a_commitment@,
        pre.swap_commitment.input_commitment@,
    )
    &&& post.pool.reserve_b_commitment@ == commitment_difference(
        pre.pool.reserve_b_commitment@,
        pre.swap_commitment.output_commitment@,
    )
    &&& post.swap_commitment == (SwapCommitment {
        revealed: true,
        executed: true,
        ..pre.swap_commitment
    })
}

/// How the result of `execute_swap` and the records it leaves relate to
/// the records it was given and the verdict on the range proof.
pub open spec fn execute_swap_outcome(
    pre: ExecuteSwap,
    post: ExecuteSwap,
    amount_in: u64,
    min_amount_out: u64,
    proof_valid: bool,
    now: i64,
    result: Result<SwapExecuted, ErrorCode>,
) -> bool {
    let error = execute_swap_error(pre, amount_in, min_amount_out, proof_valid, now);
    match result {
        Ok(event) => {
            &&& error is None
            &&& swap_quote(pre, amount_in) == Ok::<u64, ErrorCode>(event.amount_out)
            &&& execute_swap_applied(pre, post)
            &&& event == (SwapExecuted {
                swap_id: pre.swap_key,
                pool: pre.pool_key,
                input_commitment: pre.swap_commitment.input_commitment,
                output_commitment: pre.swap_commitment.output_commitment,
                amount_out: event.amount_out,
            })
        },
        Err(e) => error == Some(e) && post == pre,
    }
}

/// Executes a committed swap, given the verdict of a range-proof verifier
/// on the stored input commitment.
///
/// On success the host moves `amount_in` from the caller to the pool and
/// the event's `amount_out` from the pool to the caller.
pub fn execute_swap_with_verdict(
    ctx: &mut ExecuteSwap,
    amount_in: u64,
    min_amount_out: u64,
    proof_valid: bool,
    now: i64,
) -> (result: Result<SwapExecuted, ErrorCode>)
    ensures
        execute_swap_outcome(
            *old(ctx),
            *final(ctx),
            amount_in,
            min_amount_out,
            proof_valid,
            now,
            result,
        ),
{
    if ctx.config.paused {
        return Err(ErrorCode::SwapPaused);
    }
    if !ctx.swap_commitment.user.same(&ctx.user) {
        return Err(ErrorCode::NotSwapOwner);
    }
    if ctx.swap_commitment.executed {
        return Err(ErrorCode::AlreadyExecuted);
    }
    let committed_at: i128 = ctx.swap_commitment.timestamp as i128;
    if (now as i128) < committed_at + (REVEAL_DELAY_SECONDS as i128) {
        return Err(ErrorCode::RevealTooEarly);
    }
    if (now as i128) > committed_at + (REVEAL_WINDOW_SECONDS as i128) {
        return Err(ErrorCode::SwapExpired);
    }
    if !proof_valid {
        return Err(ErrorCode::InvalidProof);
    }
    let amount_in_after_fee = match split_fee(amount_in, ctx.config.swap_fee) {
        Some((_, net)) => net,
        None => {
            return Err(ErrorCode::ArithmeticOverflow);
        },
    };
    let amount_out = match calculate_output_amount(
        amount_in_after_fee,
        ctx.reserve_in,
        ctx.reserve_out,
    ) {
        Ok(amount_out) => amount_out,
        Err(e) => {
            return Err(e);
        },
    };
    if amount_out < min_amount_out {
        return Err(ErrorCode::SlippageExceeded);
    }
    let reserve_a_commitment = add_commitments(
        &ctx.pool.reserve_a_commitment,
        &ctx.swap_commitment.input_commitment,
    );
    let reserve_b_commitment = subtract_commitments(
        &ctx.pool.reserve_b_commitment,
        &ctx.swap_commitment.output_commitment,
    );
    ctx.pool.reserve_a_commitment = reserve_a_commitment;
    ctx.pool.reserve_b_commitment = reserve_b_commitment;
    ctx.swap_commitment.revealed = true;
    ctx.swap_commitment.executed = true;
    Ok(
        SwapExecuted {
            swap_id: ctx.swap_key,
            pool: ctx.pool_key,
            input_commitment: ctx.swap_commitment.input_commitment,
            output_commitment: ctx.swap_commitment.output_commitment,
            amount_out,
        },
    )
}

/// Executes a committed swap. The stored input commitment must carry a
/// range proof that `verify_range_proof` accepts for the range
/// `0..=u64::MAX`.
///
/// On success the host moves `amount_in` from the caller to the pool and
/// the event's `amount_out` from the pool to the caller.
pub fn execute_swap(
    ctx: &mut ExecuteSwap,
    amount_in: u64,
    min_amount_out: u64,
    proof: &BulletproofProof,
    now: i64,
) -> (result: Result<SwapExecuted, ErrorCode>)
    ensures
        execute_swap_outcome(
            *old(ctx),
            *final(ctx),
            amount_in,
            min_amount_out,
            range_proof_accepted(old(ctx).swap_commitment.input_commitment@, proof, 0, u64::MAX),
            now,
            result,
        ),
{
    let proof_valid = verify_range_proof(&ctx.swap_commitment.input_commitment, proof, 0, u64::MAX);
    execute_swap_with_verdict(ctx, amount_in, min_amount_out, proof_valid, now)
}

// ---------------------------------------------------------------------
// remove_liquidity
// ---------------------------------------------------------------------

/// The records that `remove_liquidity` names.
#[derive(Clone, Copy, Debug, PartialEq, Eq)]
pub struct RemoveLiquidity {
    pub pool: Pool,
    /// Address of the pool record.
    pub pool_key: Pubkey,
    /// The caller's position in the pool.
    pub liquidity_position: LiquidityPosition,
    /// The withdrawing party.
    pub user: Pubkey,
    /// What the pool holds of token A before the withdrawal.
    pub reserve_a: u64,
    /// What the pool holds of token B before the withdrawal.
    pub reserve_b: u64,
}

/// The error that `remove_liquidity` returns, if any.
pub open spec fn remove_liquidity_error(pre: RemoveLiquidity, liquidity: u64) -> Option<ErrorCode> {
    if pre.liquidity_position.liquidity < liquidity {
        Some(ErrorCode::InsufficientLiquidity)
    } else if withdrawal_outcome(liquidity, pre.reserve_a, pre.pool.total_supply) is Err {
        Some(ErrorCode::ArithmeticOverflow)
    } else if withdrawal_outcome(liquidity, pre.reserve_b, pre.pool.total_supply) is Err {
        Some(ErrorCode::ArithmeticOverflow)
    } else if pre.pool.total_supply < liquidity {
        Some(ErrorCode::ArithmeticOverflow)
    } else {
        None
    }
}

/// How the result of `remove_liquidity` and the records it leaves relate
/// to the records it was given.
pub open spec fn remove_liquidity_outcome(
    pre: RemoveLiquidity,
    post: RemoveLiquidity,
    liquidity: u64,
    result: Result<LiquidityRemoved, ErrorCode>,
) -> bool {
    match result {
        Ok(event) => {
            &&& remove_liquidity_error(pre, liquidity) is None
            &&& post == (RemoveLiquidity {
                pool: Pool { total_supply: (pre.pool.total_supply - liquidity) as u64, ..pre.pool },
                liquidity_position: LiquidityPosition {
                    liquidity: (pre.liquidity_position.liquidity - liquidity) as u64,
                    ..pre.liquidity_position
                },
                ..pre
            })
            &&& withdrawal_outcome(liquidity, pre.reserve_a, pre.pool.total_supply) == Ok::<
                u64,
                ErrorCode,
            >(event.amount_a)
            &&& withdrawal_outcome(liquidity, pre.reserve_b, pre.pool.total_supply) == Ok::<
                u64,
                ErrorCode,
            >(event.amount_b)
            &&& event == (LiquidityRemoved {
                pool: pre.pool_key,
                provider: pre.user,
                liquidity,
                amount_a: event.amount_a,
                amount_b: event.amount_b,
            })
        },
        Err(e) => remove_liquidity_error(pre, liquidity) == Some(e) && post == pre,
    }
}

/// Redeems `liquidity` from the caller's position for its pro-rata share
/// of both reserves, which the event reports.
pub fn remove_liquidity(ctx: &mut RemoveLiquidity, liquidity: u64) -> (result: Result<
    LiquidityRemoved,
    ErrorCode,
>)
    ensures
        remove_liquidity_outcome(*old(ctx), *final(ctx), liquidity, result),
{
    if ctx.liquidity_position.liquidity < liquidity {
        return Err(ErrorCode::InsufficientLiquidity);
    }
    let amount_a = match withdrawal_amount(liquidity, ctx.reserve_a, ctx.pool.total_supply) {
        Ok(amount) => amount,
        Err(e) => {
            return Err(e);
        },
    };
    let amount_b = match withdrawal_amount(liquidity, ctx.reserve_b, ctx.pool.total_supply) {
        Ok(amount) => amount,
        Err(e) => {
            return Err(e);
        },
    };
    let total_supply = match ctx.pool.total_supply.checked_sub(liquidity) {
        Some(rest) => rest,
        None => {
            return Err(ErrorCode::ArithmeticOverflow);
        },
    };
    ctx.pool.total_supply = total_supply;
    ctx.liquidity_position.liquidity = ctx.liquidity_position.liquidity - liquidity;
    Ok(
        LiquidityRemoved {
            pool: ctx.pool_key,
            provider: ctx.user,
            liquidity,
            amount_a,
            amount_b,
        },
    )
}

} // verus!
