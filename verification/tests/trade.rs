use pooled_staking::{
    execute_trade, settle_trade, AgentPool, ErrorCode, ExecuteTrade, Pubkey, RaydiumSwap,
    SwapOrder, TokenAccount,
};

fn key(tag: u8) -> Pubkey {
    Pubkey { bytes: [tag; 32] }
}

fn trade_on(total_staked: u64) -> ExecuteTrade {
    ExecuteTrade {
        agent_pool: AgentPool {
            agent: key(1),
            total_staked,
            fee_destination: key(2),
            vault: key(3),
            paused: false,
            total_shares_bps: 10_000,
            bump: 254,
            emergency_mode: false,
        },
        agent: key(1),
        pool_vault: TokenAccount { key: key(3), amount: total_staked },
        token_a_vault: TokenAccount { key: key(20), amount: 0 },
        token_b_vault: TokenAccount { key: key(21), amount: 0 },
        amm_pool: TokenAccount { key: key(22), amount: 0 },
        amm: key(23),
        raydium_program: key(24),
    }
}

fn swap(amount_in: u64) -> RaydiumSwap {
    RaydiumSwap { amount_in, min_amount_out: 7 }
}

#[test]
fn trade_over_a_fifth_of_the_pool_is_rejected() {
    let ctx = trade_on(1_940_000_000);
    let before = ctx;
    // 25% of the recorded principal
    assert_eq!(execute_trade(&ctx, swap(485_000_000)), Err(ErrorCode::TradeSizeTooLarge));
    assert_eq!(execute_trade(&ctx, swap(u64::MAX)), Err(ErrorCode::TradeSizeTooLarge));
    assert_eq!(ctx, before);
}

#[test]
fn trade_of_exactly_a_fifth_is_accepted() {
    let ctx = trade_on(1_940_000_000);
    let order = execute_trade(&ctx, swap(388_000_000)).unwrap();
    assert_eq!(
        order,
        SwapOrder {
            agent: key(1),
            raydium_program: key(24),
            pool_vault: key(3),
            token_a_vault: key(20),
            token_b_vault: key(21),
            amm_pool: key(22),
            amm: key(23),
            amount_in: 388_000_000,
            min_amount_out: 7,
        }
    );
}

#[test]
fn trade_size_is_rounded_down_to_whole_basis_points() {
    let ctx = trade_on(100_000);
    // 20,009 of 100,000 is 2000.9 basis points
    assert!(execute_trade(&ctx, swap(20_009)).is_ok());
    // 20,010 of 100,000 is 2001 basis points
    assert_eq!(execute_trade(&ctx, swap(20_010)), Err(ErrorCode::TradeSizeTooLarge));
}

#[test]
fn trade_size_is_not_cut_to_sixteen_bits() {
    // 65,536 + 100 basis points of the principal
    let ctx = trade_on(10_000);
    assert_eq!(execute_trade(&ctx, swap(65_636)), Err(ErrorCode::TradeSizeTooLarge));
}

#[test]
fn trade_of_nothing_is_accepted() {
    let ctx = trade_on(1);
    assert_eq!(execute_trade(&ctx, swap(0)).unwrap().amount_in, 0);
}

#[test]
fn trade_on_pool_without_principal_is_too_large() {
    let ctx = trade_on(0);
    let before = ctx;
    assert_eq!(execute_trade(&ctx, swap(1)), Err(ErrorCode::TradeSizeTooLarge));
    assert_eq!(
        execute_trade(&ctx, RaydiumSwap { amount_in: 1, min_amount_out: 0 }),
        Err(ErrorCode::TradeSizeTooLarge)
    );
    assert_eq!(execute_trade(&ctx, swap(u64::MAX)), Err(ErrorCode::TradeSizeTooLarge));
    assert_eq!(ctx, before);
}

#[test]
fn trade_of_nothing_on_pool_without_principal_is_accepted() {
    let ctx = trade_on(0);
    let order = execute_trade(&ctx, swap(0)).unwrap();
    assert_eq!(order.amount_in, 0);
    assert_eq!(order.min_amount_out, 7);
}

#[test]
fn trade_never_changes_the_pool() {
    for total_staked in [0u64, 1, 1_000, 1_940_000_000, u64::MAX] {
        for amount_in in [0u64, 1, 200, 201, 388_000_000, u64::MAX] {
            let ctx = trade_on(total_staked);
            let before = ctx;
            let _ = execute_trade(&ctx, swap(amount_in));
            assert_eq!(ctx.agent_pool, before.agent_pool);
            assert_eq!(ctx, before);
        }
    }
}

#[test]
fn trade_on_paused_pool_is_rejected() {
    let mut ctx = trade_on(1_940_000_000);
    ctx.agent_pool.paused = true;
    assert_eq!(execute_trade(&ctx, swap(1)), Err(ErrorCode::PoolPaused));
    // the pause flag comes first, and a paused pool needs no principal
    ctx.agent = key(9);
    ctx.agent_pool.total_staked = 0;
    assert_eq!(execute_trade(&ctx, swap(1)), Err(ErrorCode::PoolPaused));
}

#[test]
fn trade_by_another_identity_is_rejected() {
    let mut ctx = trade_on(1_940_000_000);
    ctx.agent = key(9);
    assert_eq!(execute_trade(&ctx, swap(1)), Err(ErrorCode::Unauthorized));
    // the identity comes before the size, and a stranger's trade needs no principal
    assert_eq!(execute_trade(&ctx, swap(u64::MAX)), Err(ErrorCode::Unauthorized));
    ctx.agent_pool.total_staked = 0;
    assert_eq!(execute_trade(&ctx, swap(1)), Err(ErrorCode::Unauthorized));
}

#[test]
fn trade_by_identity_differing_in_last_byte_is_rejected() {
    let mut ctx = trade_on(1_940_000_000);
    let mut bytes = [1u8; 32];
    bytes[31] = 2;
    ctx.agent = Pubkey { bytes };
    assert_eq!(execute_trade(&ctx, swap(1)), Err(ErrorCode::Unauthorized));
}

#[test]
fn venue_failure_is_a_raydium_error() {
    assert_eq!(settle_trade(false), Err(ErrorCode::RaydiumError));
    assert_eq!(settle_trade(true), Ok(()));
}
