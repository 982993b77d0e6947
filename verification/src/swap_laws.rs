//! Laws of the swap engine, stated over the transition relations of its
//! operations.

use vstd::prelude::*;
use crate::commitment::{
    commitment_difference, commitment_sum, commitment_to, is_commitment,
    lemma_combining_mirrors_values,
};
use crate::money::{
    lemma_floor_sqrt_of_product_fits, lemma_withdrawal_within_reserve, withdrawal_outcome,
};
use crate::confidential_swap::{
    add_liquidity_outcome, commit_swap_outcome, execute_swap_error, execute_swap_outcome,
    remove_liquidity_error, remove_liquidity_outcome, swap_quote, AddLiquidity, CommitSwap,
    ErrorCode, ExecuteSwap, LiquidityAdded, LiquidityRemoved, RemoveLiquidity, SwapCommitment,
    SwapCommitted, SwapExecuted, REVEAL_DELAY_SECONDS, REVEAL_WINDOW_SECONDS,
};

verus! {

/// Whether `now` lies in the window in which a swap committed at
/// `committed_at` can be executed.
pub open spec fn in_reveal_window(committed_at: i64, now: i64) -> bool {
    committed_at + REVEAL_DELAY_SECONDS <= now <= committed_at + REVEAL_WINDOW_SECONDS
}

/// A swap that its owner executes for the first time on a running program
/// fails with `RevealTooEarly` before the window opens and with
/// `SwapExpired` after it closes, whatever the proof and the amounts. Inside
/// the window it succeeds whenever the proof is valid and the quoted output
/// meets the caller's bound, and then neither timing error occurs.
pub proof fn lemma_reveal_window(
    pre: ExecuteSwap,
    amount_in: u64,
    min_amount_out: u64,
    proof_valid: bool,
    now: i64,
)
    requires
        !pre.config.paused,
        pre.swap_commitment.user == pre.user,
        !pre.swap_commitment.executed,
    ensures
        now < pre.swap_commitment.timestamp + REVEAL_DELAY_SECONDS ==> execute_swap_error(
            pre,
            amount_in,
            min_amount_out,
            proof_valid,
            now,
        ) == Some(ErrorCode::RevealTooEarly),
        now > pre.swap_commitment.timestamp + REVEAL_WINDOW_SECONDS ==> execute_swap_error(
            pre,
            amount_in,
            min_amount_out,
            proof_valid,
            now,
        ) == Some(ErrorCode::SwapExpired),
        in_reveal_window(pre.swap_commitment.timestamp, now) ==> {
            let error = execute_swap_error(pre, amount_in, min_amount_out, proof_valid, now);
            &&& error != Some(ErrorCode::RevealTooEarly)
            &&& error != Some(ErrorCode::SwapExpired)
            &&& (proof_valid && (swap_quote(pre, amount_in) matches Ok(amount_out) && amount_out
                >= min_amount_out) ==> error is None)
        },
{
}

/// An executed swap commitment cannot be executed again: on a running
/// program its owner gets `AlreadyExecuted`, whatever the time, the proof
/// and the amounts.
pub proof fn lemma_executed_commitment_is_rejected(
    pre: ExecuteSwap,
    amount_in: u64,
    min_amount_out: u64,
    proof_valid: bool,
    now: i64,
)
    requires
        pre.swap_commitment.executed,
    ensures
        execute_swap_error(pre, amount_in, min_amount_out, proof_valid, now) is Some,
        !pre.config.paused && pre.swap_commitment.user == pre.user ==> execute_swap_error(
            pre,
            amount_in,
            min_amount_out,
            proof_valid,
            now,
        ) == Some(ErrorCode::AlreadyExecuted),
{
}

/// Execution happens at most once per commitment. After a successful
/// execution the commitment is marked executed, so every later attempt on
/// that commitment, against whatever pool and with whatever arguments,
/// fails and leaves its records, the reserve commitments among them, as
/// they were.
pub proof fn lemma_swap_executes_at_most_once(
    first: ExecuteSwap,
    after_first: ExecuteSwap,
    first_amount_in: u64,
    first_min_amount_out: u64,
    first_proof_valid: bool,
    first_now: i64,
    first_result: Result<SwapExecuted, ErrorCode>,
    second: ExecuteSwap,
    after_second: ExecuteSwap,
    second_amount_in: u64,
    second_min_amount_out: u64,
    second_proof_valid: bool,
    second_now: i64,
    second_result: Result<SwapExecuted, ErrorCode>,
)
    requires
        execute_swap_outcome(
            first,
            after_first,
            first_amount_in,
            first_min_amount_out,
            first_proof_valid,
            first_now,
            first_result,
        ),
        first_result is Ok,
        second.swap_commitment == after_first.swap_commitment,
        execute_swap_outcome(
            second,
            after_second,
            second_amount_in,
            second_min_amount_out,
            second_proof_valid,
            second_now,
            second_result,
        ),
    ensures
        after_first.swap_commitment.executed,
        second_result is Err,
        after_second == second,
        !second.config.paused && second.swap_commitment.user == second.user ==> second_result
            == Err::<SwapExecuted, ErrorCode>(ErrorCode::AlreadyExecuted),
{
    lemma_executed_commitment_is_rejected(
        second,
        second_amount_in,
        second_min_amount_out,
        second_proof_valid,
        second_now,
    );
}

/// Asking for more liquidity than the position holds fails with
/// `InsufficientLiquidity`, whatever the state of the pool.
pub proof fn lemma_cannot_remove_more_than_balance(pre: RemoveLiquidity, liquidity: u64)
    requires
        liquidity > pre.liquidity_position.liquidity,
    ensures
        remove_liquidity_error(pre, liquidity) == Some(ErrorCode::InsufficientLiquidity),
{
}

/// Removing exactly the balance of a position succeeds and empties the
/// position, provided the pool has a supply and the supply covers the
/// position.
pub proof fn lemma_remove_full_balance(
    pre: RemoveLiquidity,
    post: RemoveLiquidity,
    result: Result<LiquidityRemoved, ErrorCode>,
)
    requires
        0 < pre.pool.total_supply,
        pre.liquidity_position.liquidity <= pre.pool.total_supply,
        remove_liquidity_outcome(pre, post, pre.liquidity_position.liquidity, result),
    ensures
        result is Ok,
        post.liquidity_position.liquidity == 0,
        post.pool.total_supply == pre.pool.total_supply - pre.liquidity_position.liquidity,
{
    let liquidity = pre.liquidity_position.liquidity;
    lemma_withdrawal_within_reserve(
        liquidity as int,
        pre.reserve_a as int,
        pre.pool.total_supply as int,
    );
    lemma_withdrawal_within_reserve(
        liquidity as int,
        pre.reserve_b as int,
        pre.pool.total_supply as int,
    );
    assert(withdrawal_outcome(liquidity, pre.reserve_a, pre.pool.total_supply) is Ok);
    assert(withdrawal_outcome(liquidity, pre.reserve_b, pre.pool.total_supply) is Ok);
    assert(remove_liquidity_error(pre, liquidity) is None);
}

/// Adding liquidity keeps the supply at or above the sum of all positions:
/// if the supply covered this position and all `others` before, it covers
/// them after.
pub proof fn lemma_add_liquidity_keeps_supply_covering(
    pre: AddLiquidity,
    post: AddLiquidity,
    amount_a: u64,
    amount_b: u64,
    amount_a_commitment: [u8; 32],
    amount_b_commitment: [u8; 32],
    proof_a_valid: bool,
    proof_b_valid: bool,
    result: Result<LiquidityAdded, ErrorCode>,
    others: nat,
)
    requires
        add_liquidity_outcome(
            pre,
            post,
            amount_a,
            amount_b,
            amount_a_commitment,
            amount_b_commitment,
            proof_a_valid,
            proof_b_valid,
            result,
        ),
        others + pre.liquidity_position.liquidity <= pre.pool.total_supply,
    ensures
        others + post.liquidity_position.liquidity <= post.pool.total_supply,
        result matches Ok(event) ==> event.liquidity > 0 && post.pool.total_supply
            == pre.pool.total_supply + event.liquidity && post.liquidity_position.liquidity
            == pre.liquidity_position.liquidity + event.liquidity,
{
    lemma_floor_sqrt_of_product_fits(amount_a, amount_b);
}

/// Removing liquidity keeps the supply at or above the sum of all
/// positions: if the supply covered this position and all `others` before,
/// it covers them after.
pub proof fn lemma_remove_liquidity_keeps_supply_covering(
    pre: RemoveLiquidity,
    post: RemoveLiquidity,
    liquidity: u64,
    result: Result<LiquidityRemoved, ErrorCode>,
    others: nat,
)
    requires
        remove_liquidity_outcome(pre, post, liquidity, result),
        others + pre.liquidity_position.liquidity <= pre.pool.total_supply,
    ensures
        others + post.liquidity_position.liquidity <= post.pool.total_supply,
{
}

/// A swap committed at time `committed_at` can be executed by the party
/// that committed it from `committed_at + 60` to `committed_at + 600` and
/// at no other time: before, the attempt fails with `RevealTooEarly`;
/// after, with `SwapExpired`.
pub proof fn lemma_committed_swap_opens_after_delay(
    commit: CommitSwap,
    after_commit: CommitSwap,
    input_commitment: [u8; 32],
    output_commitment: [u8; 32],
    committed_at: i64,
    commit_result: Result<SwapCommitted, ErrorCode>,
    execute: ExecuteSwap,
    amount_in: u64,
    min_amount_out: u64,
    proof_valid: bool,
    now: i64,
)
    requires
        commit_swap_outcome(
            commit,
            after_commit,
            input_commitment,
            output_commitment,
            committed_at,
            commit_result,
        ),
        commit_result is Ok,
        execute.swap_commitment == after_commit.swap_commitment,
        execute.user == commit.user,
        !execute.config.paused,
    ensures
        !after_commit.swap_commitment.executed,
        after_commit.swap_commitment.timestamp == committed_at,
        now < committed_at + REVEAL_DELAY_SECONDS ==> execute_swap_error(
            execute,
            amount_in,
            min_amount_out,
            proof_valid,
            now,
        ) == Some(ErrorCode::RevealTooEarly),
        now > committed_at + REVEAL_WINDOW_SECONDS ==> execute_swap_error(
            execute,
            amount_in,
            min_amount_out,
            proof_valid,
            now,
        ) == Some(ErrorCode::SwapExpired),
        in_reveal_window(committed_at, now) && proof_valid && (swap_quote(execute, amount_in) matches Ok(
            amount_out,
        ) && amount_out >= min_amount_out) ==> execute_swap_error(
            execute,
            amount_in,
            min_amount_out,
            proof_valid,
            now,
        ) is None,
{
    lemma_reveal_window(execute, amount_in, min_amount_out, proof_valid, now);
}

/// Whether the flags of a swap commitment agree: it is revealed exactly
/// when it is executed.
pub open spec fn flags_agree(commitment: SwapCommitment) -> bool {
    commitment.revealed == commitment.executed
}

/// A swap commitment goes from committed to executed and nowhere else: a
/// commit leaves it neither revealed nor executed, an execution leaves it
/// both, and a failed execution leaves it as it was.
pub proof fn lemma_swap_commitment_lifecycle(
    commit: CommitSwap,
    after_commit: CommitSwap,
    input_commitment: [u8; 32],
    output_commitment: [u8; 32],
    committed_at: i64,
    commit_result: Result<SwapCommitted, ErrorCode>,
    execute: ExecuteSwap,
    after_execute: ExecuteSwap,
    amount_in: u64,
    min_amount_out: u64,
    proof_valid: bool,
    now: i64,
    execute_result: Result<SwapExecuted, ErrorCode>,
)
    requires
        commit_swap_outcome(
            commit,
            after_commit,
            input_commitment,
            output_commitment,
            committed_at,
            commit_result,
        ),
        execute_swap_outcome(
            execute,
            after_execute,
            amount_in,
            min_amount_out,
            proof_valid,
            now,
            execute_result,
        ),
    ensures
        commit_result is Ok ==> !after_commit.swap_commitment.revealed
            && !after_commit.swap_commitment.executed,
        execute_result is Ok ==> !execute.swap_commitment.executed
            && after_execute.swap_commitment.revealed && after_execute.swap_commitment.executed,
        execute_result is Err ==> after_execute.swap_commitment == execute.swap_commitment,
        flags_agree(execute.swap_commitment) ==> flags_agree(after_execute.swap_commitment),
{
}

/// Reserve commitments keep account of deposits. If a reserve commitment
/// commits to a reserve and the deposit's commitment commits to the
/// deposit, then after the deposit the reserve commitment commits to their
/// sum, under the sum of the blindings.
pub proof fn lemma_reserve_commitments_track_deposits(
    pre: AddLiquidity,
    post: AddLiquidity,
    amount_a: u64,
    amount_b: u64,
    amount_a_commitment: [u8; 32],
    amount_b_commitment: [u8; 32],
    proof_a_valid: bool,
    proof_b_valid: bool,
    result: Result<LiquidityAdded, ErrorCode>,
    reserve: int,
    reserve_blinding: Seq<u8>,
    amount_blinding: Seq<u8>,
)
    requires
        add_liquidity_outcome(
            pre,
            post,
            amount_a,
            amount_b,
            amount_a_commitment,
            amount_b_commitment,
            proof_a_valid,
            proof_b_valid,
            result,
        ),
        result is Ok,
        is_commitment(reserve_blinding),
        is_commitment(amount_blinding),
    ensures
        pre.pool.reserve_a_commitment@ == commitment_to(reserve, reserve_blinding)
            && amount_a_commitment@ == commitment_to(amount_a as int, amount_blinding)
            ==> post.pool.reserve_a_commitment@ == commitment_to(
            reserve + amount_a,
            commitment_sum(reserve_blinding, amount_blinding),
        ),
        pre.pool.reserve_b_commitment@ == commitment_to(reserve, reserve_blinding)
            && amount_b_commitment@ == commitment_to(amount_b as int, amount_blinding)
            ==> post.pool.reserve_b_commitment@ == commitment_to(
            reserve + amount_b,
            commitment_sum(reserve_blinding, amount_blinding),
        ),
{
    lemma_combining_mirrors_values(reserve, reserve_blinding, amount_a as int, amount_blinding);
    lemma_combining_mirrors_values(reserve, reserve_blinding, amount_b as int, amount_blinding);
}

/// Reserve commitments keep account of swaps. If the reserve commitments
/// commit to the reserves and the swap's commitments commit to its input
/// and output, then after the swap the first reserve commitment commits to
/// the reserve plus the input and the second to the reserve less the
/// output.
pub proof fn lemma_reserve_commitments_track_swaps(
    pre: ExecuteSwap,
    post: ExecuteSwap,
    amount_in: u64,
    min_amount_out: u64,
    proof_valid: bool,
    now: i64,
    result: Result<SwapExecuted, ErrorCode>,
    reserve_in: int,
    reserve_in_blinding: Seq<u8>,
    input: int,
    input_blinding: Seq<u8>,
    reserve_out: int,
    reserve_out_blinding: Seq<u8>,
    output: int,
    output_blinding: Seq<u8>,
)
    requires
        execute_swap_outcome(pre, post, amount_in, min_amount_out, proof_valid, now, result),
        result is Ok,
        is_commitment(reserve_in_blinding),
        is_commitment(input_blinding),
        is_commitment(reserve_out_blinding),
        is_commitment(output_blinding),
        pre.pool.reserve_a_commitment@ == commitment_to(reserve_in, reserve_in_blinding),
        pre.swap_commitment.input_commitment@ == commitment_to(input, input_blinding),
        pre.pool.reserve_b_commitment@ == commitment_to(reserve_out, reserve_out_blinding),
        pre.swap_commitment.output_commitment@ == commitment_to(output, output_blinding),
    ensures
        post.pool.reserve_a_commitment@ == commitment_to(
            reserve_in + input,
            commitment_sum(reserve_in_blinding, input_blinding),
        ),
        post.pool.reserve_b_commitment@ == commitment_to(
            reserve_out - output,
            commitment_difference(reserve_out_blinding, output_blinding),
        ),
{
    lemma_combining_mirrors_values(reserve_in, reserve_in_blinding, input, input_blinding);
    lemma_combining_mirrors_values(reserve_out, reserve_out_blinding, output, output_blinding);
}

} // verus!
