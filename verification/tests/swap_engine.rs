use privacy_contracts::commitment::{add_commitments, subtract_commitments};
use privacy_contracts::confidential_swap::{
    add_liquidity, add_liquidity_with_verdict, commit_swap, create_pool, execute_swap,
    execute_swap_with_verdict, initialize, remove_liquidity, verify_range_proof, AddLiquidity,
    BulletproofProof, CommitSwap, CreatePool, ErrorCode, ExecuteSwap, Initialize,
    LiquidityAdded, LiquidityPosition, LiquidityRemoved, Pool, PoolCreated, RemoveLiquidity,
    SwapCommitment, SwapCommitted, SwapConfig, SwapExecuted,
};
use privacy_contracts::keys::Pubkey;

fn key(tag: u8) -> Pubkey {
    Pubkey { bytes: [tag; 32] }
}

fn config(swap_fee: u16) -> SwapConfig {
    SwapConfig { authority: key(1), swap_fee, paused: false, total_pools: 0 }
}

fn empty_pool() -> Pool {
    Pool {
        token_a: key(10),
        token_b: key(11),
        reserve_a_commitment: [0; 32],
        reserve_b_commitment: [0; 32],
        total_supply: 0,
        initialized: true,
    }
}

fn sample_proof() -> BulletproofProof {
    BulletproofProof {
        a: [1; 32],
        s: [2; 32],
        t1: [3; 32],
        t2: [4; 32],
        taux: [5; 32],
        mu: [6; 32],
        inner_product: vec![7; 64],
    }
}

fn deposit_ctx(pool: Pool, position_liquidity: u64, reserve_a: u64, reserve_b: u64) -> AddLiquidity {
    AddLiquidity {
        config: config(0),
        pool,
        pool_key: key(20),
        liquidity_position: LiquidityPosition { pool: key(0), user: key(0), liquidity: position_liquidity },
        user: key(30),
        reserve_a,
        reserve_b,
    }
}

fn committed_swap(timestamp: i64) -> SwapCommitment {
    SwapCommitment {
        user: key(30),
        pool: key(20),
        input_commitment: [8; 32],
        output_commitment: [3; 32],
        timestamp,
        revealed: false,
        executed: false,
    }
}

fn swap_ctx(timestamp: i64, swap_fee: u16) -> ExecuteSwap {
    let mut pool = empty_pool();
    pool.reserve_a_commitment = [250; 32];
    pool.reserve_b_commitment = [2; 32];
    pool.total_supply = 1_000;
    ExecuteSwap {
        config: config(swap_fee),
        pool,
        pool_key: key(20),
        swap_commitment: committed_swap(timestamp),
        swap_key: key(40),
        user: key(30),
        reserve_in: 1_000,
        reserve_out: 1_000,
    }
}

fn withdrawal_ctx(position_liquidity: u64, total_supply: u64) -> RemoveLiquidity {
    let mut pool = empty_pool();
    pool.total_supply = total_supply;
    RemoveLiquidity {
        pool,
        pool_key: key(20),
        liquidity_position: LiquidityPosition { pool: key(20), user: key(30), liquidity: position_liquidity },
        user: key(30),
        reserve_a: 1_000,
        reserve_b: 2_000,
    }
}

#[test]
fn range_proof_of_the_right_shape_is_accepted() {
    assert!(verify_range_proof(&[9; 32], &sample_proof(), 0, u64::MAX));
}

#[test]
fn range_proof_verdict_is_deterministic() {
    let first = verify_range_proof(&[9; 32], &sample_proof(), 0, u64::MAX);
    let second = verify_range_proof(&[9; 32], &sample_proof(), 0, u64::MAX);
    assert_eq!(first, second);
}

#[test]
fn initialize_sets_up_the_configuration() {
    let mut ctx = Initialize {
        config: SwapConfig { authority: key(0), swap_fee: 9, paused: true, total_pools: 77 },
        authority: key(1),
    };
    initialize(&mut ctx, 30);
    assert_eq!(
        ctx.config,
        SwapConfig { authority: key(1), swap_fee: 30, paused: false, total_pools: 0 }
    );
    assert_eq!(ctx.authority, key(1));
}

#[test]
fn create_pool_starts_with_zero_reserves_and_counts_the_pool() {
    let mut ctx = CreatePool {
        config: SwapConfig { authority: key(1), swap_fee: 30, paused: false, total_pools: 4 },
        pool: Pool {
            token_a: key(0),
            token_b: key(0),
            reserve_a_commitment: [9; 32],
            reserve_b_commitment: [9; 32],
            total_supply: 5,
            initialized: false,
        },
        pool_key: key(20),
        authority: key(1),
    };
    let event = create_pool(&mut ctx, key(10), key(11));
    assert_eq!(event, Ok(PoolCreated { pool_id: key(20), token_a: key(10), token_b: key(11) }));
    assert_eq!(ctx.pool, empty_pool());
    assert_eq!(ctx.config.total_pools, 5);
    assert_eq!(ctx.config.swap_fee, 30);
}

#[test]
fn create_pool_fails_when_paused() {
    let mut ctx = CreatePool {
        config: SwapConfig { authority: key(1), swap_fee: 30, paused: true, total_pools: 4 },
        pool: empty_pool(),
        pool_key: key(20),
        authority: key(1),
    };
    let before = ctx;
    assert_eq!(create_pool(&mut ctx, key(10), key(11)), Err(ErrorCode::SwapPaused));
    assert_eq!(ctx, before);
}

#[test]
fn create_pool_fails_when_the_counter_is_full() {
    let mut ctx = CreatePool {
        config: SwapConfig { authority: key(1), swap_fee: 30, paused: false, total_pools: u64::MAX },
        pool: Pool { initialized: false, ..empty_pool() },
        pool_key: key(20),
        authority: key(1),
    };
    let before = ctx;
    assert_eq!(create_pool(&mut ctx, key(10), key(11)), Err(ErrorCode::ArithmeticOverflow));
    assert_eq!(ctx, before);
}

#[test]
fn first_deposit_mints_geometric_mean_less_minimum() {
    let mut ctx = deposit_ctx(empty_pool(), 0, 0, 0);
    let event = add_liquidity(&mut ctx, 10_000, 10_000, [5; 32], [6; 32], &sample_proof(), &sample_proof());
    assert_eq!(
        event,
        Ok(LiquidityAdded {
            pool: key(20),
            provider: key(30),
            amount_a_commitment: [5; 32],
            amount_b_commitment: [6; 32],
            liquidity: 9_000,
        })
    );
    assert_eq!(ctx.pool.total_supply, 9_000);
    assert_eq!(ctx.pool.reserve_a_commitment, [5; 32]);
    assert_eq!(ctx.pool.reserve_b_commitment, [6; 32]);
    assert_eq!(
        ctx.liquidity_position,
        LiquidityPosition { pool: key(20), user: key(30), liquidity: 9_000 }
    );
}

#[test]
fn later_deposit_mints_the_smaller_pro_rata_share() {
    let mut pool = empty_pool();
    pool.total_supply = 1_000;
    pool.reserve_a_commitment = [200; 32];
    pool.reserve_b_commitment = [1; 32];
    let mut ctx = deposit_ctx(pool, 40, 1_000, 2_000);
    let event = add_liquidity(&mut ctx, 100, 200, [100; 32], [6; 32], &sample_proof(), &sample_proof());
    assert_eq!(event.map(|e| e.liquidity), Ok(100));
    assert_eq!(ctx.pool.total_supply, 1_100);
    assert_eq!(ctx.liquidity_position.liquidity, 140);
    assert_eq!(ctx.pool.reserve_a_commitment, [44; 32]);
    assert_eq!(ctx.pool.reserve_b_commitment, [7; 32]);
    assert_eq!(ctx.pool.reserve_a_commitment, add_commitments(&[200; 32], &[100; 32]));
}

#[test]
fn deposit_fails_when_paused() {
    let mut ctx = deposit_ctx(empty_pool(), 0, 0, 0);
    ctx.config.paused = true;
    let before = ctx;
    let result = add_liquidity(&mut ctx, 10_000, 10_000, [5; 32], [6; 32], &sample_proof(), &sample_proof());
    assert_eq!(result, Err(ErrorCode::SwapPaused));
    assert_eq!(ctx, before);
}

#[test]
fn deposit_fails_on_a_pool_that_was_never_created() {
    let mut ctx = deposit_ctx(Pool { initialized: false, ..empty_pool() }, 0, 0, 0);
    let before = ctx;
    let result = add_liquidity(&mut ctx, 10_000, 10_000, [5; 32], [6; 32], &sample_proof(), &sample_proof());
    assert_eq!(result, Err(ErrorCode::PoolNotInitialized));
    assert_eq!(ctx, before);
}

#[test]
fn deposit_fails_when_either_proof_is_rejected() {
    let mut ctx = deposit_ctx(empty_pool(), 0, 0, 0);
    let before = ctx;
    let result = add_liquidity_with_verdict(&mut ctx, 10_000, 10_000, [5; 32], [6; 32], false, true);
    assert_eq!(result, Err(ErrorCode::InvalidProof));
    assert_eq!(ctx, before);
    let result = add_liquidity_with_verdict(&mut ctx, 10_000, 10_000, [5; 32], [6; 32], true, false);
    assert_eq!(result, Err(ErrorCode::InvalidProof));
    assert_eq!(ctx, before);
    let result = add_liquidity_with_verdict(&mut ctx, 10_000, 10_000, [5; 32], [6; 32], true, true);
    assert_eq!(result.map(|e| e.liquidity), Ok(9_000));
}

#[test]
fn first_deposit_fails_when_it_mints_nothing() {
    let mut ctx = deposit_ctx(empty_pool(), 0, 0, 0);
    let before = ctx;
    let result = add_liquidity(&mut ctx, 1_000, 1_000, [5; 32], [6; 32], &sample_proof(), &sample_proof());
    assert_eq!(result, Err(ErrorCode::InsufficientLiquidity));
    assert_eq!(ctx, before);
}

#[test]
fn later_deposit_fails_when_it_mints_nothing() {
    let mut pool = empty_pool();
    pool.total_supply = 10;
    let mut ctx = deposit_ctx(pool, 0, 1_000, 2_000);
    let before = ctx;
    let result = add_liquidity(&mut ctx, 99, 500, [5; 32], [6; 32], &sample_proof(), &sample_proof());
    assert_eq!(result, Err(ErrorCode::InsufficientLiquidity));
    assert_eq!(ctx, before);
}

#[test]
fn later_deposit_fails_on_an_empty_reserve() {
    let mut pool = empty_pool();
    pool.total_supply = 10;
    let mut ctx = deposit_ctx(pool, 0, 0, 2_000);
    let before = ctx;
    let result = add_liquidity(&mut ctx, 99, 500, [5; 32], [6; 32], &sample_proof(), &sample_proof());
    assert_eq!(result, Err(ErrorCode::ArithmeticOverflow));
    assert_eq!(ctx, before);
}

#[test]
fn deposit_fails_when_the_supply_would_overflow() {
    let mut pool = empty_pool();
    pool.total_supply = u64::MAX - 50;
    let mut ctx = deposit_ctx(pool, 0, u64::MAX - 50, u64::MAX - 50);
    let before = ctx;
    let result = add_liquidity(&mut ctx, 51, 51, [5; 32], [6; 32], &sample_proof(), &sample_proof());
    assert_eq!(result, Err(ErrorCode::ArithmeticOverflow));
    assert_eq!(ctx, before);
    let result = add_liquidity(&mut ctx, 50, 50, [5; 32], [6; 32], &sample_proof(), &sample_proof());
    assert_eq!(result.map(|e| e.liquidity), Ok(50));
    assert_eq!(ctx.pool.total_supply, u64::MAX);
}

#[test]
fn deposit_fails_when_the_position_would_overflow() {
    let mut pool = empty_pool();
    pool.total_supply = 1_000;
    let mut ctx = deposit_ctx(pool, u64::MAX - 5, 1_000, 1_000);
    let before = ctx;
    let result = add_liquidity(&mut ctx, 6, 6, [5; 32], [6; 32], &sample_proof(), &sample_proof());
    assert_eq!(result, Err(ErrorCode::ArithmeticOverflow));
    assert_eq!(ctx, before);
}

#[test]
fn commit_records_the_swap_without_executing_it() {
    let mut ctx = CommitSwap {
        config: config(30),
        pool_key: key(20),
        swap_commitment: SwapCommitment {
            user: key(0),
            pool: key(0),
            input_commitment: [0; 32],
            output_commitment: [0; 32],
            timestamp: 0,
            revealed: true,
            executed: true,
        },
        swap_key: key(40),
        user: key(30),
    };
    let event = commit_swap(&mut ctx, [8; 32], [3; 32], 1_700_000_000);
    assert_eq!(
        event,
        Ok(SwapCommitted {
            swap_id: key(40),
            pool: key(20),
            user: key(30),
            input_commitment: [8; 32],
            timestamp: 1_700_000_000,
        })
    );
    assert_eq!(ctx.swap_commitment, committed_swap(1_700_000_000));
}

#[test]
fn commit_fails_when_paused() {
    let mut ctx = CommitSwap {
        config: SwapConfig { paused: true, ..config(30) },
        pool_key: key(20),
        swap_commitment: committed_swap(5),
        swap_key: key(40),
        user: key(30),
    };
    let before = ctx;
    assert_eq!(commit_swap(&mut ctx, [8; 32], [3; 32], 9), Err(ErrorCode::SwapPaused));
    assert_eq!(ctx, before);
}

#[test]
fn swap_executes_inside_the_window() {
    let mut ctx = swap_ctx(1_000, 0);
    let event = execute_swap(&mut ctx, 100, 90, &sample_proof(), 1_300);
    assert_eq!(
        event,
        Ok(SwapExecuted {
            swap_id: key(40),
            pool: key(20),
            input_commitment: [8; 32],
            output_commitment: [3; 32],
            amount_out: 90,
        })
    );
    assert!(ctx.swap_commitment.executed);
    assert!(ctx.swap_commitment.revealed);
    assert_eq!(ctx.pool.reserve_a_commitment, [2; 32]);
    assert_eq!(ctx.pool.reserve_b_commitment, [255; 32]);
    assert_eq!(ctx.pool.reserve_a_commitment, add_commitments(&[250; 32], &[8; 32]));
    assert_eq!(ctx.pool.reserve_b_commitment, subtract_commitments(&[2; 32], &[3; 32]));
    assert_eq!(ctx.pool.total_supply, 1_000);
}

#[test]
fn swap_fails_one_second_before_the_window() {
    let mut ctx = swap_ctx(1_000, 0);
    let before = ctx;
    assert_eq!(execute_swap(&mut ctx, 100, 90, &sample_proof(), 1_059), Err(ErrorCode::RevealTooEarly));
    assert_eq!(ctx, before);
}

#[test]
fn swap_fails_one_second_after_the_window() {
    let mut ctx = swap_ctx(1_000, 0);
    let before = ctx;
    assert_eq!(execute_swap(&mut ctx, 100, 90, &sample_proof(), 1_601), Err(ErrorCode::SwapExpired));
    assert_eq!(ctx, before);
}

#[test]
fn swap_executes_at_both_ends_of_the_window() {
    let mut ctx = swap_ctx(1_000, 0);
    assert_eq!(execute_swap(&mut ctx, 100, 90, &sample_proof(), 1_060).map(|e| e.amount_out), Ok(90));
    let mut ctx = swap_ctx(1_000, 0);
    assert_eq!(execute_swap(&mut ctx, 100, 90, &sample_proof(), 1_600).map(|e| e.amount_out), Ok(90));
}

#[test]
fn swap_window_is_exact_at_the_ends_of_time() {
    let mut ctx = swap_ctx(i64::MAX - 10, 0);
    assert_eq!(
        execute_swap(&mut ctx, 100, 90, &sample_proof(), i64::MAX),
        Err(ErrorCode::RevealTooEarly)
    );
    let mut ctx = swap_ctx(i64::MIN, 0);
    assert_eq!(
        execute_swap(&mut ctx, 100, 90, &sample_proof(), i64::MIN + 59),
        Err(ErrorCode::RevealTooEarly)
    );
    assert_eq!(
        execute_swap(&mut ctx, 100, 90, &sample_proof(), i64::MIN + 601),
        Err(ErrorCode::SwapExpired)
    );
    assert_eq!(
        execute_swap(&mut ctx, 100, 90, &sample_proof(), i64::MIN + 60).map(|e| e.amount_out),
        Ok(90)
    );
}

#[test]
fn swap_fails_when_paused() {
    let mut ctx = swap_ctx(1_000, 0);
    ctx.config.paused = true;
    let before = ctx;
    assert_eq!(execute_swap(&mut ctx, 100, 90, &sample_proof(), 1_300), Err(ErrorCode::SwapPaused));
    assert_eq!(ctx, before);
}

#[test]
fn swap_fails_for_anyone_but_the_committer() {
    let mut ctx = swap_ctx(1_000, 0);
    ctx.user = key(31);
    let before = ctx;
    assert_eq!(execute_swap(&mut ctx, 100, 90, &sample_proof(), 1_300), Err(ErrorCode::NotSwapOwner));
    assert_eq!(ctx, before);
}

#[test]
fn swap_fails_when_the_proof_is_rejected() {
    let mut ctx = swap_ctx(1_000, 0);
    let before = ctx;
    assert_eq!(
        execute_swap_with_verdict(&mut ctx, 100, 90, false, 1_300),
        Err(ErrorCode::InvalidProof)
    );
    assert_eq!(ctx, before);
}

#[test]
fn swap_fails_below_the_slippage_bound() {
    let mut ctx = swap_ctx(1_000, 0);
    let before = ctx;
    assert_eq!(
        execute_swap(&mut ctx, 100, 91, &sample_proof(), 1_300),
        Err(ErrorCode::SlippageExceeded)
    );
    assert_eq!(ctx, before);
}

#[test]
fn swap_takes_the_protocol_fee_before_pricing() {
    // fee = 1000 * 100 / 10000 = 10; 990 * 997 * 1000 / (1000000 + 990 * 997) = 496
    let mut ctx = swap_ctx(1_000, 100);
    assert_eq!(execute_swap(&mut ctx, 1_000, 0, &sample_proof(), 1_300).map(|e| e.amount_out), Ok(496));
}

#[test]
fn swap_fails_when_the_fee_exceeds_the_input() {
    let mut ctx = swap_ctx(1_000, 20_000);
    let before = ctx;
    assert_eq!(
        execute_swap(&mut ctx, 100, 0, &sample_proof(), 1_300),
        Err(ErrorCode::ArithmeticOverflow)
    );
    assert_eq!(ctx, before);
}

#[test]
fn swap_fails_when_pricing_overflows() {
    let mut ctx = swap_ctx(1_000, 0);
    ctx.reserve_in = u64::MAX;
    ctx.reserve_out = u64::MAX;
    let before = ctx;
    assert_eq!(
        execute_swap(&mut ctx, u64::MAX, 0, &sample_proof(), 1_300),
        Err(ErrorCode::ArithmeticOverflow)
    );
    assert_eq!(ctx, before);
}

#[test]
fn swap_cannot_be_executed_twice() {
    let mut ctx = swap_ctx(1_000, 0);
    assert!(execute_swap(&mut ctx, 100, 90, &sample_proof(), 1_300).is_ok());
    let after_first = ctx;
    assert_eq!(
        execute_swap(&mut ctx, 100, 90, &sample_proof(), 1_300),
        Err(ErrorCode::AlreadyExecuted)
    );
    assert_eq!(ctx, after_first);
    assert_eq!(ctx.pool.reserve_a_commitment, [2; 32]);
    assert_eq!(ctx.pool.reserve_b_commitment, [255; 32]);
    // not even outside the window or with a rejected proof does the error change
    assert_eq!(
        execute_swap_with_verdict(&mut ctx, 100, 90, false, 5_000),
        Err(ErrorCode::AlreadyExecuted)
    );
}

#[test]
fn removing_more_than_the_balance_fails() {
    let mut ctx = withdrawal_ctx(500, 1_000);
    let before = ctx;
    assert_eq!(remove_liquidity(&mut ctx, 501), Err(ErrorCode::InsufficientLiquidity));
    assert_eq!(ctx, before);
}

#[test]
fn removing_the_full_balance_empties_the_position() {
    let mut ctx = withdrawal_ctx(500, 1_000);
    let event = remove_liquidity(&mut ctx, 500);
    assert_eq!(
        event,
        Ok(LiquidityRemoved {
            pool: key(20),
            provider: key(30),
            liquidity: 500,
            amount_a: 500,
            amount_b: 1_000,
        })
    );
    assert_eq!(ctx.liquidity_position.liquidity, 0);
    assert_eq!(ctx.pool.total_supply, 500);
}

#[test]
fn removing_part_of_the_balance_is_pro_rata() {
    let mut ctx = withdrawal_ctx(500, 1_000);
    let event = remove_liquidity(&mut ctx, 123).unwrap();
    assert_eq!(event.amount_a, 123);
    assert_eq!(event.amount_b, 246);
    assert_eq!(ctx.liquidity_position.liquidity, 377);
    assert_eq!(ctx.pool.total_supply, 877);
}

#[test]
fn removing_from_a_pool_without_supply_fails() {
    let mut ctx = withdrawal_ctx(0, 0);
    let before = ctx;
    assert_eq!(remove_liquidity(&mut ctx, 0), Err(ErrorCode::ArithmeticOverflow));
    assert_eq!(ctx, before);
}

#[test]
fn removing_more_than_the_supply_fails() {
    let mut ctx = withdrawal_ctx(500, 100);
    let before = ctx;
    assert_eq!(remove_liquidity(&mut ctx, 200), Err(ErrorCode::ArithmeticOverflow));
    assert_eq!(ctx, before);
}
