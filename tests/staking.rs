use anchor_lang::prelude::Pubkey as SolKey;
use solana_security_demos::account::{Account, AccountInfo, ConstraintError, InstructionError, Pubkey};
use solana_security_demos::integer_overflow_state_bug::{
    compute_claim, initialize_pool, initialize_stake, secure_claim_rewards, secure_compound,
    secure_deposit, secure_withdraw, update_pool, vulnerable_claim_rewards, vulnerable_compound,
    vulnerable_deposit, vulnerable_withdraw, InitializePool, InitializeStake, Pool, PoolError,
    SecureStake, Stake, UpdatePool, VulnerableStake,
};

fn key(b: u8) -> Pubkey {
    Pubkey::new([b; 32])
}

fn pda(seeds: &[&[u8]]) -> (Pubkey, u8) {
    let (k, b) = SolKey::find_program_address(seeds, &SolKey::new_from_array([7u8; 32]));
    (Pubkey::new(k.to_bytes()), b)
}

fn info(k: Pubkey, is_signer: bool) -> AccountInfo {
    AccountInfo::new(k, key(0), is_signer, 0, vec![])
}

/// A pool of authority 1 and a stake of owner 2, both created by the program.
fn setup(rate: u64, start: i64) -> SecureStake {
    let authority = key(1);
    let owner = key(2);
    let (pool_key, _) = pda(&[b"pool", &authority.bytes]);
    let mut init = InitializePool { pool: Account { key: pool_key, value: None }, authority: info(authority, true) };
    initialize_pool(&mut init, &key(7), rate, start).unwrap();
    let pool = Account { key: pool_key, value: init.pool.value.unwrap() };
    let (stake_key, _) = pda(&[b"stake", &pool_key.bytes, &owner.bytes]);
    let mut init_stake = InitializeStake {
        pool: pool.clone(),
        stake: Account { key: stake_key, value: None },
        owner: info(owner, true),
    };
    initialize_stake(&mut init_stake, &key(7)).unwrap();
    SecureStake {
        pool,
        stake: Account { key: stake_key, value: init_stake.stake.value.unwrap() },
        owner: info(owner, true),
    }
}

fn with_amounts(mut a: SecureStake, total: u64, staked: u64) -> SecureStake {
    a.pool.value.total_staked = total;
    a.stake.value.amount = staked;
    a
}

fn unchecked(a: SecureStake) -> VulnerableStake {
    VulnerableStake { pool: a.pool, stake: a.stake, owner: a.owner }
}

#[test]
fn initialize_pool_and_stake() {
    let a = setup(10, 1_000);
    let (_, pool_bump) = pda(&[b"pool", &key(1).bytes]);
    assert_eq!(a.pool.value.bump, pool_bump);
    assert_eq!(a.pool.value.reward_rate, 10);
    assert_eq!(a.pool.value.last_update_time, 1_000);
    assert_eq!(a.pool.value.total_staked, 0);
    assert!(a.stake.value.pool == a.pool.key);
    assert!(a.stake.value.owner == key(2));
    assert_eq!(a.stake.value.amount, 0);
}

#[test]
fn vulnerable_deposit_wraps_total() {
    let a = unchecked(with_amounts(setup(10, 0), u64::MAX - 100, 0));
    let mut a = a;
    assert_eq!(vulnerable_deposit(&mut a, 200), Ok(()));
    assert_eq!(a.pool.value.total_staked, 99);
    assert_eq!(a.stake.value.amount, 200);
}

#[test]
fn vulnerable_withdraw_underflows_stake() {
    let mut a = unchecked(with_amounts(setup(10, 0), 100, 100));
    assert_eq!(vulnerable_withdraw(&mut a, 200), Ok(()));
    assert_eq!(a.stake.value.amount, u64::MAX - 99);
    assert_eq!(a.pool.value.total_staked, u64::MAX - 99);
}

#[test]
fn vulnerable_stake_needs_owner() {
    let mut a = unchecked(setup(10, 0));
    a.owner = info(key(6), true);
    assert_eq!(
        vulnerable_deposit(&mut a, 1),
        Err(InstructionError::Constraint(ConstraintError::ConstraintHasOne))
    );
}

#[test]
fn vulnerable_claim_divides_first() {
    // rate 5 over a total of 3 rounds to 1 per token per second
    let mut a = unchecked(with_amounts(setup(5, 0), 3, 1000));
    assert_eq!(vulnerable_claim_rewards(&mut a, 1), Ok(()));
    assert_eq!(a.stake.value.pending_rewards, 1000);
    let b = with_amounts(setup(5, 0), 3, 1000);
    assert_eq!(compute_claim(&b.pool.value, &b.stake.value, 1), Ok(1666));
}

#[test]
fn vulnerable_compound_stores_before_checking() {
    let mut a = unchecked(with_amounts(setup(5, 0), 600_000_000, 600_000_000));
    assert_eq!(
        vulnerable_compound(&mut a, 2),
        Err(InstructionError::Custom(PoolError::StakeTooLarge))
    );
    assert_eq!(a.stake.value.amount, 1_200_000_000);
}

#[test]
fn secure_deposit_rejects_overflow() {
    let mut a = with_amounts(setup(10, 0), u64::MAX - 100, 0);
    assert_eq!(
        secure_deposit(&mut a, &key(7), 200),
        Err(InstructionError::Custom(PoolError::ArithmeticOverflow))
    );
    assert_eq!(a.pool.value.total_staked, u64::MAX - 100);
    assert_eq!(a.stake.value.amount, 0);
    assert_eq!(secure_deposit(&mut a, &key(7), 100), Ok(()));
    assert_eq!(a.pool.value.total_staked, u64::MAX);
    assert_eq!(a.stake.value.amount, 100);
}

#[test]
fn secure_withdraw_checks_balance() {
    let mut a = with_amounts(setup(10, 0), 100, 100);
    assert_eq!(
        secure_withdraw(&mut a, &key(7), 200),
        Err(InstructionError::Custom(PoolError::InsufficientBalance))
    );
    assert_eq!(secure_withdraw(&mut a, &key(7), 40), Ok(()));
    assert_eq!(a.stake.value.amount, 60);
    assert_eq!(a.pool.value.total_staked, 60);
    let mut b = with_amounts(setup(10, 0), 10, 50);
    assert_eq!(
        secure_withdraw(&mut b, &key(7), 20),
        Err(InstructionError::Custom(PoolError::ArithmeticUnderflow))
    );
}

#[test]
fn secure_stake_rejects_foreign_stake() {
    let mut a = setup(10, 0);
    a.owner = info(key(6), true);
    assert_eq!(
        secure_deposit(&mut a, &key(7), 1),
        Err(InstructionError::Constraint(ConstraintError::ConstraintSeeds))
    );
    let mut b = setup(10, 0);
    b.owner = info(key(2), false);
    assert_eq!(
        secure_deposit(&mut b, &key(7), 1),
        Err(InstructionError::Constraint(ConstraintError::AccountNotSigner))
    );
}

#[test]
fn secure_claim_multiplies_first() {
    let mut a = with_amounts(setup(10, 1_000), 100, 50);
    assert_eq!(secure_claim_rewards(&mut a, &key(7), 1_100), Ok(()));
    assert_eq!(a.stake.value.pending_rewards, 500);
    assert_eq!(secure_claim_rewards(&mut a, &key(7), 1_100), Ok(()));
    assert_eq!(a.stake.value.pending_rewards, 1_000);
}

#[test]
fn secure_claim_errors() {
    let mut a = with_amounts(setup(10, i64::MIN), 100, 50);
    assert_eq!(
        secure_claim_rewards(&mut a, &key(7), i64::MAX),
        Err(InstructionError::Custom(PoolError::ArithmeticUnderflow))
    );
    let mut b = with_amounts(setup(u64::MAX, 0), 1, u64::MAX);
    assert_eq!(
        secure_claim_rewards(&mut b, &key(7), 1 << 40),
        Err(InstructionError::Custom(PoolError::ArithmeticOverflow))
    );
    let mut c = with_amounts(setup(u64::MAX, 0), 1, 1);
    c.stake.value.pending_rewards = 1;
    assert_eq!(
        secure_claim_rewards(&mut c, &key(7), 1),
        Err(InstructionError::Custom(PoolError::ArithmeticOverflow))
    );
    assert_eq!(c.stake.value.pending_rewards, 1);
}

#[test]
fn secure_compound_cases() {
    let mut a = with_amounts(setup(1, 0), 100, 100);
    assert_eq!(
        secure_compound(&mut a, &key(7), 0),
        Err(InstructionError::Custom(PoolError::InvalidMultiplier))
    );
    assert_eq!(
        secure_compound(&mut a, &key(7), 11),
        Err(InstructionError::Custom(PoolError::InvalidMultiplier))
    );
    assert_eq!(secure_compound(&mut a, &key(7), 10), Ok(()));
    assert_eq!(a.stake.value.amount, 1_000);
    let mut b = with_amounts(setup(1, 0), 0, 600_000_000);
    assert_eq!(
        secure_compound(&mut b, &key(7), 2),
        Err(InstructionError::Custom(PoolError::StakeTooLarge))
    );
    assert_eq!(b.stake.value.amount, 600_000_000);
    let mut c = with_amounts(setup(1, 0), 0, u64::MAX / 2 + 1);
    assert_eq!(
        secure_compound(&mut c, &key(7), 2),
        Err(InstructionError::Custom(PoolError::ArithmeticOverflow))
    );
}

#[test]
fn update_pool_accumulates() {
    let a = with_amounts(setup(3, 100), 1_000, 0);
    let mut u = UpdatePool { pool: a.pool };
    assert_eq!(update_pool(&mut u, &key(7), 110), Ok(()));
    // 3 * 10 * 10^12 / 1000
    assert_eq!(u.pool.value.accumulated_reward_per_share, 30_000_000_000);
    assert_eq!(u.pool.value.last_update_time, 110);
}

#[test]
fn update_empty_pool_only_moves_clock() {
    let a = setup(3, 100);
    let mut u = UpdatePool { pool: a.pool };
    assert_eq!(update_pool(&mut u, &key(7), 500), Ok(()));
    assert_eq!(u.pool.value.accumulated_reward_per_share, 0);
    assert_eq!(u.pool.value.last_update_time, 500);
}

#[test]
fn update_pool_overflow() {
    let a = with_amounts(setup(u64::MAX, 0), 1, 0);
    let mut u = UpdatePool { pool: a.pool };
    assert_eq!(
        update_pool(&mut u, &key(7), 1 << 30),
        Err(InstructionError::Custom(PoolError::ArithmeticOverflow))
    );
    assert_eq!(u.pool.value.last_update_time, 0);
}

#[test]
fn update_pool_at_wrong_address() {
    let mut a = setup(3, 100);
    a.pool.key = key(40);
    let mut u = UpdatePool { pool: a.pool };
    assert_eq!(
        update_pool(&mut u, &key(7), 500),
        Err(InstructionError::Constraint(ConstraintError::ConstraintSeeds))
    );
}

#[test]
fn claim_without_stakers_divides_by_one() {
    let pool = Pool {
        authority: key(1),
        total_staked: 0,
        reward_rate: 2,
        last_update_time: 0,
        accumulated_reward_per_share: 0,
        bump: 0,
    };
    let stake = Stake { owner: key(2), pool: key(3), amount: 5, reward_debt: 0, pending_rewards: 0, bump: 0 };
    assert_eq!(compute_claim(&pool, &stake, 3), Ok(30));
}

#[test]
fn update_pool_truncates_increment() {
    let a = with_amounts(setup(u64::MAX, 0), 1, 0);
    let mut u = UpdatePool { pool: a.pool };
    assert_eq!(update_pool(&mut u, &key(7), 1 << 20), Ok(()));
    let reward: u128 = (u64::MAX as u128) * (1u128 << 20) * 1_000_000_000_000;
    assert_eq!(u.pool.value.accumulated_reward_per_share, reward as u64);
}
