use pooled_staking::{
    initialize_agent_pool, AgentPool, InitializeAgentPool, Pubkey, TokenAccount,
};

fn key(tag: u8) -> Pubkey {
    Pubkey { bytes: [tag; 32] }
}

fn fresh_record() -> AgentPool {
    AgentPool {
        agent: Pubkey::default(),
        total_staked: 0,
        fee_destination: Pubkey::default(),
        vault: Pubkey::default(),
        paused: false,
        total_shares_bps: 0,
        bump: 0,
        emergency_mode: false,
    }
}

#[test]
fn initialize_creates_an_empty_open_pool() {
    let mut ctx = InitializeAgentPool {
        agent_pool: fresh_record(),
        agent_pool_bump: 251,
        agent: key(1),
        pool_vault: TokenAccount { key: key(3), amount: 0 },
    };
    assert_eq!(initialize_agent_pool(&mut ctx), Ok(()));
    assert_eq!(
        ctx.agent_pool,
        AgentPool {
            agent: key(1),
            total_staked: 0,
            fee_destination: Pubkey::default(),
            vault: key(3),
            paused: false,
            total_shares_bps: 0,
            bump: 251,
            emergency_mode: false,
        }
    );
}

#[test]
fn initialize_resets_whatever_the_record_held() {
    let mut ctx = InitializeAgentPool {
        agent_pool: AgentPool {
            agent: key(7),
            total_staked: 55,
            fee_destination: key(8),
            vault: key(9),
            paused: true,
            total_shares_bps: 66,
            bump: 1,
            emergency_mode: true,
        },
        agent_pool_bump: 250,
        agent: key(1),
        pool_vault: TokenAccount { key: key(3), amount: 12 },
    };
    assert_eq!(initialize_agent_pool(&mut ctx), Ok(()));
    assert_eq!(ctx.agent_pool.agent, key(1));
    assert_eq!(ctx.agent_pool.total_staked, 0);
    assert_eq!(ctx.agent_pool.total_shares_bps, 0);
    assert!(!ctx.agent_pool.paused);
    assert!(!ctx.agent_pool.emergency_mode);
    assert_eq!(ctx.agent_pool.vault, key(3));
    assert_eq!(ctx.agent_pool.bump, 250);
    assert_eq!(ctx.agent_pool.fee_destination, key(8));
    assert_eq!(ctx.agent, key(1));
    assert_eq!(ctx.pool_vault, TokenAccount { key: key(3), amount: 12 });
    assert_eq!(ctx.agent_pool_bump, 250);
}

#[test]
fn default_key_is_all_zero() {
    assert_eq!(Pubkey::default(), Pubkey { bytes: [0; 32] });
    assert_ne!(Pubkey::default(), key(1));
}

#[test]
fn keys_compare_by_every_byte() {
    let a = key(5);
    let mut bytes = [5u8; 32];
    assert_eq!(a, Pubkey { bytes });
    bytes[0] = 6;
    assert_ne!(a, Pubkey { bytes });
    bytes[0] = 5;
    bytes[31] = 0;
    assert_ne!(a, Pubkey { bytes });
    bytes[31] = 5;
    bytes[17] = 4;
    assert_ne!(a, Pubkey { bytes });
}
