//! A staking pool. The unchecked instructions use wrapping arithmetic,
//! divide before multiplying, and write state before validating it; the
//! checked ones detect every overflow, multiply in 128 bits before dividing,
//! and change nothing unless every check passes.
use vstd::prelude::*;
use crate::account::{
    canonical_bump, check_canonical_pda, check_pda_with_bump, check_signer, check_vacant,
    is_canonical_pda, is_pda_with_bump, seeds2, seeds3, Account, AccountInfo, ConstraintError,
    InstructionError, Pubkey,
};

verus! {

#[derive(Clone, Copy, Debug)]
pub struct Pool {
    pub authority: Pubkey,
    pub total_staked: u64,
    /// Rewards per second, shared among the staked tokens.
    pub reward_rate: u64,
    pub last_update_time: i64,
    pub accumulated_reward_per_share: u64,
    pub bump: u8,
}

#[derive(Clone, Copy, Debug)]
pub struct Stake {
    pub owner: Pubkey,
    pub pool: Pubkey,
    pub amount: u64,
    pub reward_debt: u64,
    pub pending_rewards: u64,
    pub bump: u8,
}

#[derive(Clone, Copy, Debug, PartialEq, Eq, Structural)]
pub enum PoolError {
    ArithmeticOverflow,
    ArithmeticUnderflow,
    DivisionByZero,
    InsufficientBalance,
    StakeTooLarge,
    InvalidMultiplier,
}

pub type PoolResult = Result<(), InstructionError<PoolError>>;

/// The largest stake that compounding may produce.
pub const MAX_STAKE: u64 = 1_000_000_000;

/// The largest compounding multiplier.
pub const MAX_MULTIPLIER: u64 = 10;

/// The scale of `accumulated_reward_per_share`.
pub const REWARD_PRECISION: u128 = 1_000_000_000_000;

/// The seed `b"pool"`.
pub open spec fn pool_seed() -> Seq<u8> {
    seq![112u8, 111, 111, 108]
}

/// The seed `b"stake"`.
pub open spec fn stake_seed() -> Seq<u8> {
    seq![115u8, 116, 97, 107, 101]
}

pub open spec fn pool_seeds(authority: Seq<u8>) -> Seq<Seq<u8>> {
    seq![pool_seed(), authority]
}

pub open spec fn stake_seeds(pool: Seq<u8>, owner: Seq<u8>) -> Seq<Seq<u8>> {
    seq![stake_seed(), pool, owner]
}

fn make_pool_seeds(authority: &Pubkey) -> (r: Vec<Vec<u8>>)
    ensures
        r.deep_view() == pool_seeds(authority@),
{
    let s: Vec<u8> = vec![112u8, 111, 111, 108];
    proof {
        assert(s@ =~= pool_seed());
    }
    seeds2(s, authority.to_vec())
}

fn make_stake_seeds(pool: &Pubkey, owner: &Pubkey) -> (r: Vec<Vec<u8>>)
    ensures
        r.deep_view() == stake_seeds(pool@, owner@),
{
    let s: Vec<u8> = vec![115u8, 116, 97, 107, 101];
    proof {
        assert(s@ =~= stake_seed());
    }
    seeds3(s, pool.to_vec(), owner.to_vec())
}

/// An `i64` read as a `u128` the way `as` reads it: negative values wrap.
pub open spec fn i64_as_u128(v: int) -> int {
    if v >= 0 {
        v
    } else {
        v + 0x1_0000_0000_0000_0000_0000_0000_0000_0000
    }
}

fn widen_i64(v: i64) -> (r: u128)
    ensures
        r == i64_as_u128(v as int),
{
    if v >= 0 {
        v as u128
    } else {
        let magnitude: u128 = ((-(v as i128)) as u128);
        (u128::MAX - magnitude) + 1
    }
}


/// The accounts of `initialize_pool`.
#[derive(Clone, Debug)]
pub struct InitializePool {
    /// The pool to create, at the address derived from `pool` and the authority.
    pub pool: Account<Option<Pool>>,
    pub authority: AccountInfo,
}

pub open spec fn initialize_pool_error(a: InitializePool, program: Seq<u8>) -> Option<
    InstructionError<PoolError>,
> {
    if !a.authority.is_signer {
        Some(InstructionError::Constraint(ConstraintError::AccountNotSigner))
    } else if !is_canonical_pda(a.pool.key@, pool_seeds(a.authority.key@), program) {
        Some(InstructionError::Constraint(ConstraintError::ConstraintSeeds))
    } else if a.pool.value is Some {
        Some(InstructionError::Constraint(ConstraintError::AccountAlreadyInUse))
    } else {
        None
    }
}

/// Creates the authority's pool with nothing staked, starting its reward
/// clock at `now`.
pub fn initialize_pool(
    accounts: &mut InitializePool,
    program_id: &Pubkey,
    reward_rate: u64,
    now: i64,
) -> (r: PoolResult)
    ensures
        match initialize_pool_error(*old(accounts), program_id@) {
            Some(e) => r == Err::<(), InstructionError<PoolError>>(e) && *final(accounts) == *old(
                accounts,
            ),
            None => {
                &&& r is Ok
                &&& final(accounts).pool.key == old(accounts).pool.key
                &&& final(accounts).authority == old(accounts).authority
                &&& final(accounts).pool.value == Some(
                    Pool {
                        authority: old(accounts).authority.key,
                        total_staked: 0,
                        reward_rate,
                        last_update_time: now,
                        accumulated_reward_per_share: 0,
                        bump: canonical_bump(pool_seeds(old(accounts).authority.key@), program_id@),
                    },
                )
            },
        },
{
    if let Err(e) = check_signer(&accounts.authority) {
        return Err(InstructionError::Constraint(e));
    }
    let bump = match check_canonical_pda(&accounts.pool.key, &make_pool_seeds(&accounts.authority.key), program_id) {
        Ok(b) => b,
        Err(e) => {
            return Err(InstructionError::Constraint(e));
        },
    };
    if let Err(e) = check_vacant(&accounts.pool) {
        return Err(InstructionError::Constraint(e));
    }
    accounts.pool.value = Some(
        Pool {
            authority: accounts.authority.key,
            total_staked: 0,
            reward_rate,
            last_update_time: now,
            accumulated_reward_per_share: 0,
            bump,
        },
    );
    Ok(())
}

/// The accounts of `initialize_stake`.
#[derive(Clone, Debug)]
pub struct InitializeStake {
    pub pool: Account<Pool>,
    /// The stake to create, at the address derived from `stake`, the pool and the owner.
    pub stake: Account<Option<Stake>>,
    pub owner: AccountInfo,
}

pub open spec fn initialize_stake_error(a: InitializeStake, program: Seq<u8>) -> Option<
    InstructionError<PoolError>,
> {
    if !a.owner.is_signer {
        Some(InstructionError::Constraint(ConstraintError::AccountNotSigner))
    } else if !is_pda_with_bump(
        a.pool.key@,
        pool_seeds(a.pool.value.authority@),
        a.pool.value.bump,
        program,
    ) {
        Some(InstructionError::Constraint(ConstraintError::ConstraintSeeds))
    } else if !is_canonical_pda(a.stake.key@, stake_seeds(a.pool.key@, a.owner.key@), program) {
        Some(InstructionError::Constraint(ConstraintError::ConstraintSeeds))
    } else if a.stake.value is Some {
        Some(InstructionError::Constraint(ConstraintError::AccountAlreadyInUse))
    } else {
        None
    }
}

/// Creates the owner's empty stake in the pool.
pub fn initialize_stake(accounts: &mut InitializeStake, program_id: &Pubkey) -> (r: PoolResult)
    ensures
        match initialize_stake_error(*old(accounts), program_id@) {
            Some(e) => r == Err::<(), InstructionError<PoolError>>(e) && *final(accounts) == *old(
                accounts,
            ),
            None => {
                &&& r is Ok
                &&& final(accounts).pool == old(accounts).pool
                &&& final(accounts).owner == old(accounts).owner
                &&& final(accounts).stake.key == old(accounts).stake.key
                &&& final(accounts).stake.value == Some(
                    Stake {
                        owner: old(accounts).owner.key,
                        pool: old(accounts).pool.key,
                        amount: 0,
                        reward_debt: 0,
                        pending_rewards: 0,
                        bump: canonical_bump(
                            stake_seeds(old(accounts).pool.key@, old(accounts).owner.key@),
                            program_id@,
                        ),
                    },
                )
            },
        },
{
    if let Err(e) = check_signer(&accounts.owner) {
        return Err(InstructionError::Constraint(e));
    }
    if let Err(e) = check_pda_with_bump(
        &accounts.pool.key,
        make_pool_seeds(&accounts.pool.value.authority),
        accounts.pool.value.bump,
        program_id,
    ) {
        return Err(InstructionError::Constraint(e));
    }
    let bump = match check_canonical_pda(
        &accounts.stake.key,
        &make_stake_seeds(&accounts.pool.key, &accounts.owner.key),
        program_id,
    ) {
        Ok(b) => b,
        Err(e) => {
            return Err(InstructionError::Constraint(e));
        },
    };
    if let Err(e) = check_vacant(&accounts.stake) {
        return Err(InstructionError::Constraint(e));
    }
    accounts.stake.value = Some(
        Stake {
            owner: accounts.owner.key,
            pool: accounts.pool.key,
            amount: 0,
            reward_debt: 0,
            pending_rewards: 0,
            bump,
        },
    );
    Ok(())
}

/// The accounts of the unchecked instructions: the stake must belong to the
/// signer, but the pool may be any pool.
#[derive(Clone, Debug)]
pub struct VulnerableStake {
    pub pool: Account<Pool>,
    pub stake: Account<Stake>,
    pub owner: AccountInfo,
}

pub open spec fn vulnerable_stake_error(a: VulnerableStake) -> Option<InstructionError<PoolError>> {
    if !a.owner.is_signer {
        Some(InstructionError::Constraint(ConstraintError::AccountNotSigner))
    } else if a.stake.value.owner@ != a.owner.key@ {
        Some(InstructionError::Constraint(ConstraintError::ConstraintHasOne))
    } else {
        None
    }
}

fn check_vulnerable_stake(a: &VulnerableStake) -> (r: PoolResult)
    ensures
        match vulnerable_stake_error(*a) {
            Some(e) => r == Err::<(), InstructionError<PoolError>>(e),
            None => r is Ok,
        },
{
    if let Err(e) = check_signer(&a.owner) {
        return Err(InstructionError::Constraint(e));
    }
    if !(a.stake.value.owner == a.owner.key) {
        return Err(InstructionError::Constraint(ConstraintError::ConstraintHasOne));
    }
    Ok(())
}

/// The accounts of the checked instructions.
#[derive(Clone, Debug)]
pub struct SecureStake {
    /// The pool, at the address derived from `pool` and its authority.
    pub pool: Account<Pool>,
    /// The stake, at the address derived from `stake`, the pool and the owner.
    pub stake: Account<Stake>,
    pub owner: AccountInfo,
}

pub open spec fn secure_stake_error(a: SecureStake, program: Seq<u8>) -> Option<
    InstructionError<PoolError>,
> {
    if !a.owner.is_signer {
        Some(InstructionError::Constraint(ConstraintError::AccountNotSigner))
    } else if !is_pda_with_bump(
        a.pool.key@,
        pool_seeds(a.pool.value.authority@),
        a.pool.value.bump,
        program,
    ) {
        Some(InstructionError::Constraint(ConstraintError::ConstraintSeeds))
    } else if !is_pda_with_bump(
        a.stake.key@,
        stake_seeds(a.pool.key@, a.owner.key@),
        a.stake.value.bump,
        program,
    ) {
        Some(InstructionError::Constraint(ConstraintError::ConstraintSeeds))
    } else if a.stake.value.owner@ != a.owner.key@ {
        Some(InstructionError::Constraint(ConstraintError::ConstraintHasOne))
    } else if a.stake.value.pool@ != a.pool.key@ {
        Some(InstructionError::Constraint(ConstraintError::ConstraintHasOne))
    } else {
        None
    }
}

fn check_secure_stake(a: &SecureStake, program_id: &Pubkey) -> (r: PoolResult)
    ensures
        match secure_stake_error(*a, program_id@) {
            Some(e) => r == Err::<(), InstructionError<PoolError>>(e),
            None => r is Ok,
        },
{
    if let Err(e) = check_signer(&a.owner) {
        return Err(InstructionError::Constraint(e));
    }
    if let Err(e) = check_pda_with_bump(
        &a.pool.key,
        make_pool_seeds(&a.pool.value.authority),
        a.pool.value.bump,
        program_id,
    ) {
        return Err(InstructionError::Constraint(e));
    }
    if let Err(e) = check_pda_with_bump(
        &a.stake.key,
        make_stake_seeds(&a.pool.key, &a.owner.key),
        a.stake.value.bump,
        program_id,
    ) {
        return Err(InstructionError::Constraint(e));
    }
    if !(a.stake.value.owner == a.owner.key) {
        return Err(InstructionError::Constraint(ConstraintError::ConstraintHasOne));
    }
    if !(a.stake.value.pool == a.pool.key) {
        return Err(InstructionError::Constraint(ConstraintError::ConstraintHasOne));
    }
    Ok(())
}


/// `v` wrapped into the range of `u64`, as wrapping arithmetic leaves it.
pub open spec fn wrap_u64(v: int) -> u64 {
    (v % 0x1_0000_0000_0000_0000) as u64
}

/// `v` wrapped into the range of `i64`, as wrapping arithmetic leaves it.
pub open spec fn wrap_i64(v: int) -> i64 {
    let m = v % 0x1_0000_0000_0000_0000;
    if m > i64::MAX {
        (m - 0x1_0000_0000_0000_0000) as i64
    } else {
        m as i64
    }
}

/// An `i64` read as a `u64` the way `as` reads it: negative values wrap.
pub open spec fn i64_as_u64(v: int) -> u64 {
    wrap_u64(v)
}

fn reinterpret_i64(v: i64) -> (r: u64)
    ensures
        r == i64_as_u64(v as int),
{
    if v >= 0 {
        v as u64
    } else {
        let magnitude: u64 = ((-(v as i128)) as u64);
        (u64::MAX - magnitude) + 1
    }
}

/// The pool with `total_staked` replaced.
pub open spec fn with_total(p: Pool, total: u64) -> Pool {
    Pool { total_staked: total, ..p }
}

/// The stake with `amount` replaced.
pub open spec fn with_amount(s: Stake, amount: u64) -> Stake {
    Stake { amount, ..s }
}

/// The stake with `pending_rewards` replaced.
pub open spec fn with_pending(s: Stake, pending: u64) -> Stake {
    Stake { pending_rewards: pending, ..s }
}

/// Adds `amount` to the stake and the pool total with wrapping arithmetic:
/// a total near the top of the range wraps to a small number.
pub fn vulnerable_deposit(accounts: &mut VulnerableStake, amount: u64) -> (r: PoolResult)
    ensures
        match vulnerable_stake_error(*old(accounts)) {
            Some(e) => r == Err::<(), InstructionError<PoolError>>(e) && *final(accounts) == *old(
                accounts,
            ),
            None => {
                &&& r is Ok
                &&& final(accounts).pool == (Account {
                    value: with_total(
                        old(accounts).pool.value,
                        wrap_u64(old(accounts).pool.value.total_staked + amount),
                    ),
                    ..old(accounts).pool
                })
                &&& final(accounts).stake == (Account {
                    value: with_amount(
                        old(accounts).stake.value,
                        wrap_u64(old(accounts).stake.value.amount + amount),
                    ),
                    ..old(accounts).stake
                })
                &&& final(accounts).owner == old(accounts).owner
            },
        },
{
    check_vulnerable_stake(accounts)?;
    accounts.pool.value.total_staked = accounts.pool.value.total_staked.wrapping_add(amount);
    accounts.stake.value.amount = accounts.stake.value.amount.wrapping_add(amount);
    Ok(())
}

/// Takes `amount` from the stake and the pool total with wrapping arithmetic
/// and no balance check: withdrawing more than is staked wraps the stake to a
/// huge number.
pub fn vulnerable_withdraw(accounts: &mut VulnerableStake, amount: u64) -> (r: PoolResult)
    ensures
        match vulnerable_stake_error(*old(accounts)) {
            Some(e) => r == Err::<(), InstructionError<PoolError>>(e) && *final(accounts) == *old(
                accounts,
            ),
            None => {
                &&& r is Ok
                &&& final(accounts).pool == (Account {
                    value: with_total(
                        old(accounts).pool.value,
                        wrap_u64(old(accounts).pool.value.total_staked - amount),
                    ),
                    ..old(accounts).pool
                })
                &&& final(accounts).stake == (Account {
                    value: with_amount(
                        old(accounts).stake.value,
                        wrap_u64(old(accounts).stake.value.amount - amount),
                    ),
                    ..old(accounts).stake
                })
                &&& final(accounts).owner == old(accounts).owner
            },
        },
{
    check_vulnerable_stake(accounts)?;
    accounts.pool.value.total_staked = accounts.pool.value.total_staked.wrapping_sub(amount);
    accounts.stake.value.amount = accounts.stake.value.amount.wrapping_sub(amount);
    Ok(())
}

/// The rewards the unchecked claim adds: the rate is divided by the total
/// before it is multiplied, and every step wraps.
pub open spec fn vulnerable_pending(pool: Pool, stake: Stake, now: i64) -> u64 {
    let elapsed = wrap_i64(now - pool.last_update_time);
    let total = if pool.total_staked == 0 {
        1
    } else {
        pool.total_staked as int
    };
    let per_share = wrap_u64((pool.reward_rate as int / total) * i64_as_u64(elapsed as int));
    wrap_u64(stake.amount * per_share)
}

/// Adds rewards computed with truncating division first and wrapping
/// products, so precision is lost and large values wrap.
pub fn vulnerable_claim_rewards(accounts: &mut VulnerableStake, now: i64) -> (r: PoolResult)
    ensures
        match vulnerable_stake_error(*old(accounts)) {
            Some(e) => r == Err::<(), InstructionError<PoolError>>(e) && *final(accounts) == *old(
                accounts,
            ),
            None => {
                &&& r is Ok
                &&& final(accounts).pool == old(accounts).pool
                &&& final(accounts).stake == (Account {
                    value: with_pending(
                        old(accounts).stake.value,
                        wrap_u64(
                            old(accounts).stake.value.pending_rewards + vulnerable_pending(
                                old(accounts).pool.value,
                                old(accounts).stake.value,
                                now,
                            ),
                        ),
                    ),
                    ..old(accounts).stake
                })
                &&& final(accounts).owner == old(accounts).owner
            },
        },
{
    check_vulnerable_stake(accounts)?;
    let pool = &accounts.pool.value;
    let elapsed = now.wrapping_sub(pool.last_update_time);
    let total = if pool.total_staked == 0 {
        1
    } else {
        pool.total_staked
    };
    let per_share = (pool.reward_rate / total).wrapping_mul(reinterpret_i64(elapsed));
    let pending = accounts.stake.value.amount.wrapping_mul(per_share);
    accounts.stake.value.pending_rewards = accounts.stake.value.pending_rewards.wrapping_add(
        pending,
    );
    Ok(())
}

/// Multiplies the stake with wrapping arithmetic and stores the product
/// before checking it: the limit is checked only after the state changed.
pub fn vulnerable_compound(accounts: &mut VulnerableStake, multiplier: u64) -> (r: PoolResult)
    ensures
        match vulnerable_stake_error(*old(accounts)) {
            Some(e) => r == Err::<(), InstructionError<PoolError>>(e) && *final(accounts) == *old(
                accounts,
            ),
            None => {
                let product = wrap_u64(old(accounts).stake.value.amount * multiplier);
                &&& final(accounts).pool == old(accounts).pool
                &&& final(accounts).stake == (Account {
                    value: with_amount(old(accounts).stake.value, product),
                    ..old(accounts).stake
                })
                &&& final(accounts).owner == old(accounts).owner
                &&& if product <= MAX_STAKE {
                    r is Ok
                } else {
                    r == Err::<(), InstructionError<PoolError>>(
                        InstructionError::Custom(PoolError::StakeTooLarge),
                    )
                }
            },
        },
{
    check_vulnerable_stake(accounts)?;
    let product = accounts.stake.value.amount.wrapping_mul(multiplier);
    accounts.stake.value.amount = product;
    if accounts.stake.value.amount > MAX_STAKE {
        return Err(InstructionError::Custom(PoolError::StakeTooLarge));
    }
    Ok(())
}


pub open spec fn secure_deposit_error(a: SecureStake, program: Seq<u8>, amount: u64) -> Option<
    InstructionError<PoolError>,
> {
    match secure_stake_error(a, program) {
        Some(e) => Some(e),
        None => if a.pool.value.total_staked + amount > u64::MAX {
            Some(InstructionError::Custom(PoolError::ArithmeticOverflow))
        } else if a.stake.value.amount + amount > u64::MAX {
            Some(InstructionError::Custom(PoolError::ArithmeticOverflow))
        } else {
            None
        },
    }
}

/// Adds `amount` to the stake and the pool total, rejecting any sum that
/// would not fit.
pub fn secure_deposit(accounts: &mut SecureStake, program_id: &Pubkey, amount: u64) -> (r:
    PoolResult)
    ensures
        match secure_deposit_error(*old(accounts), program_id@, amount) {
            Some(e) => r == Err::<(), InstructionError<PoolError>>(e) && *final(accounts) == *old(
                accounts,
            ),
            None => {
                &&& r is Ok
                &&& final(accounts).pool == (Account {
                    value: with_total(
                        old(accounts).pool.value,
                        (old(accounts).pool.value.total_staked + amount) as u64,
                    ),
                    ..old(accounts).pool
                })
                &&& final(accounts).stake == (Account {
                    value: with_amount(
                        old(accounts).stake.value,
                        (old(accounts).stake.value.amount + amount) as u64,
                    ),
                    ..old(accounts).stake
                })
                &&& final(accounts).owner == old(accounts).owner
            },
        },
{
    check_secure_stake(accounts, program_id)?;
    let total = match accounts.pool.value.total_staked.checked_add(amount) {
        Some(t) => t,
        None => {
            return Err(InstructionError::Custom(PoolError::ArithmeticOverflow));
        },
    };
    let staked = match accounts.stake.value.amount.checked_add(amount) {
        Some(t) => t,
        None => {
            return Err(InstructionError::Custom(PoolError::ArithmeticOverflow));
        },
    };
    accounts.pool.value.total_staked = total;
    accounts.stake.value.amount = staked;
    Ok(())
}

pub open spec fn secure_withdraw_error(a: SecureStake, program: Seq<u8>, amount: u64) -> Option<
    InstructionError<PoolError>,
> {
    match secure_stake_error(a, program) {
        Some(e) => Some(e),
        None => if a.stake.value.amount < amount {
            Some(InstructionError::Custom(PoolError::InsufficientBalance))
        } else if a.pool.value.total_staked < amount {
            Some(InstructionError::Custom(PoolError::ArithmeticUnderflow))
        } else {
            None
        },
    }
}

/// Takes `amount` from the stake and the pool total, after checking that the
/// stake holds it.
pub fn secure_withdraw(accounts: &mut SecureStake, program_id: &Pubkey, amount: u64) -> (r:
    PoolResult)
    ensures
        match secure_withdraw_error(*old(accounts), program_id@, amount) {
            Some(e) => r == Err::<(), InstructionError<PoolError>>(e) && *final(accounts) == *old(
                accounts,
            ),
            None => {
                &&& r is Ok
                &&& final(accounts).pool == (Account {
                    value: with_total(
                        old(accounts).pool.value,
                        (old(accounts).pool.value.total_staked - amount) as u64,
                    ),
                    ..old(accounts).pool
                })
                &&& final(accounts).stake == (Account {
                    value: with_amount(
                        old(accounts).stake.value,
                        (old(accounts).stake.value.amount - amount) as u64,
                    ),
                    ..old(accounts).stake
                })
                &&& final(accounts).owner == old(accounts).owner
            },
        },
{
    check_secure_stake(accounts, program_id)?;
    if accounts.stake.value.amount < amount {
        return Err(InstructionError::Custom(PoolError::InsufficientBalance));
    }
    let total = match accounts.pool.value.total_staked.checked_sub(amount) {
        Some(t) => t,
        None => {
            return Err(InstructionError::Custom(PoolError::ArithmeticUnderflow));
        },
    };
    accounts.stake.value.amount = accounts.stake.value.amount - amount;
    accounts.pool.value.total_staked = total;
    Ok(())
}

/// The rewards owed since the pool's last update: rate times elapsed time
/// times stake, divided by the total staked (at least 1), computed on
/// integers without rounding before the one division.
pub open spec fn reward_product(pool: Pool, stake: Stake, now: i64) -> int {
    pool.reward_rate * i64_as_u128(now - pool.last_update_time) * stake.amount
}

pub open spec fn total_divisor(pool: Pool) -> int {
    if pool.total_staked == 0 {
        1
    } else {
        pool.total_staked as int
    }
}

pub open spec fn claim_error(pool: Pool, stake: Stake, now: i64) -> Option<PoolError> {
    let elapsed = now - pool.last_update_time;
    if elapsed < i64::MIN || elapsed > i64::MAX {
        Some(PoolError::ArithmeticUnderflow)
    } else if pool.reward_rate * i64_as_u128(elapsed) > u128::MAX {
        Some(PoolError::ArithmeticOverflow)
    } else if reward_product(pool, stake, now) > u128::MAX {
        Some(PoolError::ArithmeticOverflow)
    } else if reward_product(pool, stake, now) / total_divisor(pool) > u64::MAX {
        Some(PoolError::ArithmeticOverflow)
    } else if stake.pending_rewards + reward_product(pool, stake, now) / total_divisor(pool)
        > u64::MAX {
        Some(PoolError::ArithmeticOverflow)
    } else {
        None
    }
}

/// The pending rewards after a claim, where `claim_error` finds no error.
pub open spec fn claimed_rewards(pool: Pool, stake: Stake, now: i64) -> u64 {
    (stake.pending_rewards + reward_product(pool, stake, now) / total_divisor(pool)) as u64
}

/// Computes what a claim adds to the stake's pending rewards at time `now`.
pub fn compute_claim(pool: &Pool, stake: &Stake, now: i64) -> (r: Result<u64, PoolError>)
    ensures
        match claim_error(*pool, *stake, now) {
            Some(e) => r == Err::<u64, PoolError>(e),
            None => r == Ok::<u64, PoolError>(claimed_rewards(*pool, *stake, now)),
        },
{
    let elapsed = match now.checked_sub(pool.last_update_time) {
        Some(t) => t,
        None => {
            return Err(PoolError::ArithmeticUnderflow);
        },
    };
    let total: u128 = if pool.total_staked == 0 {
        1
    } else {
        pool.total_staked as u128
    };
    let rate = pool.reward_rate as u128;
    let time = widen_i64(elapsed);
    let staked = stake.amount as u128;
    let by_time = match rate.checked_mul(time) {
        Some(v) => v,
        None => {
            return Err(PoolError::ArithmeticOverflow);
        },
    };
    let product = match by_time.checked_mul(staked) {
        Some(v) => v,
        None => {
            return Err(PoolError::ArithmeticOverflow);
        },
    };
    let pending = match product.checked_div(total) {
        Some(v) => v,
        None => {
            return Err(PoolError::DivisionByZero);
        },
    };
    if pending > u64::MAX as u128 {
        return Err(PoolError::ArithmeticOverflow);
    }
    let pending = pending as u64;
    match stake.pending_rewards.checked_add(pending) {
        Some(v) => Ok(v),
        None => Err(PoolError::ArithmeticOverflow),
    }
}

pub open spec fn secure_claim_rewards_error(a: SecureStake, program: Seq<u8>, now: i64) -> Option<
    InstructionError<PoolError>,
> {
    match secure_stake_error(a, program) {
        Some(e) => Some(e),
        None => match claim_error(a.pool.value, a.stake.value, now) {
            Some(e) => Some(InstructionError::Custom(e)),
            None => None,
        },
    }
}

/// Adds the rewards owed since the pool's last update to the stake's
/// pending rewards, multiplying before dividing and rejecting any overflow.
pub fn secure_claim_rewards(accounts: &mut SecureStake, program_id: &Pubkey, now: i64) -> (r:
    PoolResult)
    ensures
        match secure_claim_rewards_error(*old(accounts), program_id@, now) {
            Some(e) => r == Err::<(), InstructionError<PoolError>>(e) && *final(accounts) == *old(
                accounts,
            ),
            None => {
                &&& r is Ok
                &&& final(accounts).pool == old(accounts).pool
                &&& final(accounts).stake == (Account {
                    value: with_pending(
                        old(accounts).stake.value,
                        claimed_rewards(old(accounts).pool.value, old(accounts).stake.value, now),
                    ),
                    ..old(accounts).stake
                })
                &&& final(accounts).owner == old(accounts).owner
            },
        },
{
    check_secure_stake(accounts, program_id)?;
    match compute_claim(&accounts.pool.value, &accounts.stake.value, now) {
        Ok(v) => {
            accounts.stake.value.pending_rewards = v;
            Ok(())
        },
        Err(e) => Err(InstructionError::Custom(e)),
    }
}

pub open spec fn secure_compound_error(a: SecureStake, program: Seq<u8>, multiplier: u64) -> Option<
    InstructionError<PoolError>,
> {
    match secure_stake_error(a, program) {
        Some(e) => Some(e),
        None => if multiplier == 0 || multiplier > MAX_MULTIPLIER {
            Some(InstructionError::Custom(PoolError::InvalidMultiplier))
        } else if a.stake.value.amount * multiplier > u64::MAX {
            Some(InstructionError::Custom(PoolError::ArithmeticOverflow))
        } else if a.stake.value.amount * multiplier > MAX_STAKE {
            Some(InstructionError::Custom(PoolError::StakeTooLarge))
        } else {
            None
        },
    }
}

/// Multiplies the stake by `multiplier` (1 to 10), changing it only if the
/// product is at most the stake limit.
pub fn secure_compound(accounts: &mut SecureStake, program_id: &Pubkey, multiplier: u64) -> (r:
    PoolResult)
    ensures
        match secure_compound_error(*old(accounts), program_id@, multiplier) {
            Some(e) => r == Err::<(), InstructionError<PoolError>>(e) && *final(accounts) == *old(
                accounts,
            ),
            None => {
                &&& r is Ok
                &&& final(accounts).pool == old(accounts).pool
                &&& final(accounts).stake == (Account {
                    value: with_amount(
                        old(accounts).stake.value,
                        (old(accounts).stake.value.amount * multiplier) as u64,
                    ),
                    ..old(accounts).stake
                })
                &&& final(accounts).owner == old(accounts).owner
            },
        },
{
    check_secure_stake(accounts, program_id)?;
    if !(multiplier > 0 && multiplier <= MAX_MULTIPLIER) {
        return Err(InstructionError::Custom(PoolError::InvalidMultiplier));
    }
    let product = match accounts.stake.value.amount.checked_mul(multiplier) {
        Some(v) => v,
        None => {
            return Err(InstructionError::Custom(PoolError::ArithmeticOverflow));
        },
    };
    if product > MAX_STAKE {
        return Err(InstructionError::Custom(PoolError::StakeTooLarge));
    }
    accounts.stake.value.amount = product;
    Ok(())
}

/// The accounts of `update_pool`.
#[derive(Clone, Debug)]
pub struct UpdatePool {
    /// The pool, at the address derived from `pool` and its authority.
    pub pool: Account<Pool>,
}

/// The scaled reward per staked token since the last update.
pub open spec fn reward_increment(pool: Pool, now: i64) -> int {
    pool.reward_rate * i64_as_u128(now - pool.last_update_time) * REWARD_PRECISION
        / pool.total_staked as int
}

pub open spec fn update_pool_error(a: UpdatePool, program: Seq<u8>, now: i64) -> Option<
    InstructionError<PoolError>,
> {
    let p = a.pool.value;
    let elapsed = now - p.last_update_time;
    if !is_pda_with_bump(a.pool.key@, pool_seeds(p.authority@), p.bump, program) {
        Some(InstructionError::Constraint(ConstraintError::ConstraintSeeds))
    } else if p.total_staked == 0 {
        None
    } else if elapsed < i64::MIN || elapsed > i64::MAX {
        Some(InstructionError::Custom(PoolError::ArithmeticUnderflow))
    } else if p.reward_rate * i64_as_u128(elapsed) > u128::MAX {
        Some(InstructionError::Custom(PoolError::ArithmeticOverflow))
    } else if p.reward_rate * i64_as_u128(elapsed) * REWARD_PRECISION > u128::MAX {
        Some(InstructionError::Custom(PoolError::ArithmeticOverflow))
    } else if p.accumulated_reward_per_share + wrap_u64(reward_increment(p, now)) > u64::MAX {
        Some(InstructionError::Custom(PoolError::ArithmeticOverflow))
    } else {
        None
    }
}

/// Advances the pool's reward accumulator to `now`. The increment is
/// truncated to 64 bits before it is added, as the stored field holds.
pub fn update_pool(accounts: &mut UpdatePool, program_id: &Pubkey, now: i64) -> (r: PoolResult)
    ensures
        match update_pool_error(*old(accounts), program_id@, now) {
            Some(e) => r == Err::<(), InstructionError<PoolError>>(e) && *final(accounts) == *old(
                accounts,
            ),
            None => {
                let p = old(accounts).pool.value;
                &&& r is Ok
                &&& final(accounts).pool.key == old(accounts).pool.key
                &&& final(accounts).pool.value == if p.total_staked == 0 {
                    Pool { last_update_time: now, ..p }
                } else {
                    Pool {
                        last_update_time: now,
                        accumulated_reward_per_share: (p.accumulated_reward_per_share + wrap_u64(
                            reward_increment(p, now),
                        )) as u64,
                        ..p
                    }
                }
            },
        },
{
    if let Err(e) = check_pda_with_bump(
        &accounts.pool.key,
        make_pool_seeds(&accounts.pool.value.authority),
        accounts.pool.value.bump,
        program_id,
    ) {
        return Err(InstructionError::Constraint(e));
    }
    if accounts.pool.value.total_staked == 0 {
        accounts.pool.value.last_update_time = now;
        return Ok(());
    }
    let elapsed = match now.checked_sub(accounts.pool.value.last_update_time) {
        Some(t) => widen_i64(t),
        None => {
            return Err(InstructionError::Custom(PoolError::ArithmeticUnderflow));
        },
    };
    let by_time = match (accounts.pool.value.reward_rate as u128).checked_mul(elapsed) {
        Some(v) => v,
        None => {
            return Err(InstructionError::Custom(PoolError::ArithmeticOverflow));
        },
    };
    let scaled = match by_time.checked_mul(REWARD_PRECISION) {
        Some(v) => v,
        None => {
            return Err(InstructionError::Custom(PoolError::ArithmeticOverflow));
        },
    };
    let reward = match scaled.checked_div(accounts.pool.value.total_staked as u128) {
        Some(v) => v,
        None => {
            return Err(InstructionError::Custom(PoolError::DivisionByZero));
        },
    };
    let truncated = (reward % 0x1_0000_0000_0000_0000) as u64;
    let accumulated = match accounts.pool.value.accumulated_reward_per_share.checked_add(truncated) {
        Some(v) => v,
        None => {
            return Err(InstructionError::Custom(PoolError::ArithmeticOverflow));
        },
    };
    accounts.pool.value.accumulated_reward_per_share = accumulated;
    accounts.pool.value.last_update_time = now;
    Ok(())
}


/// The checked deposit rejects, and leaves both accounts as they were, any
/// amount that would carry the pool's total past the largest `u64`.
pub proof fn lemma_secure_deposit_rejects_overflow(a: SecureStake, program: Seq<u8>, amount: u64)
    requires
        a.pool.value.total_staked + amount > u64::MAX,
    ensures
        secure_deposit_error(a, program, amount) is Some,
{
}

/// The checked deposit and withdrawal keep a stake within the pool's total.
pub proof fn lemma_secure_stake_within_total(a: SecureStake, program: Seq<u8>, amount: u64)
    requires
        a.stake.value.amount <= a.pool.value.total_staked,
    ensures
        secure_deposit_error(a, program, amount) is None ==> a.stake.value.amount + amount
            <= a.pool.value.total_staked + amount,
        secure_withdraw_error(a, program, amount) is None ==> a.stake.value.amount - amount
            <= a.pool.value.total_staked - amount && a.stake.value.amount - amount >= 0,
{
}

/// The unchecked withdrawal of more than is staked leaves a stake larger
/// than before: the subtraction wraps around.
pub proof fn lemma_vulnerable_withdraw_inflates_stake(stake: Stake, amount: u64)
    requires
        amount > stake.amount,
    ensures
        wrap_u64(stake.amount - amount) > stake.amount,
        wrap_u64(stake.amount - amount) == stake.amount - amount + 0x1_0000_0000_0000_0000,
{
    let d: int = stake.amount - amount;
    assert(-0x1_0000_0000_0000_0000 < d < 0);
    assert(d % 0x1_0000_0000_0000_0000 == d + 0x1_0000_0000_0000_0000);
}

/// The unchecked deposit of an amount that carries the total past the
/// largest `u64` leaves a total smaller than before.
pub proof fn lemma_vulnerable_deposit_shrinks_total(pool: Pool, amount: u64)
    requires
        pool.total_staked + amount > u64::MAX,
    ensures
        wrap_u64(pool.total_staked + amount) < pool.total_staked,
{
    let t: int = pool.total_staked + amount;
    assert(0x1_0000_0000_0000_0000 <= t < 0x2_0000_0000_0000_0000);
    assert(t % 0x1_0000_0000_0000_0000 == t - 0x1_0000_0000_0000_0000);
}

/// Where the product fits in a `u64` but exceeds the stake limit, the amount
/// that the unchecked compounding stores before failing is above the limit.
pub proof fn lemma_compound_limit(stake: Stake, multiplier: u64)
    requires
        1 <= multiplier <= MAX_MULTIPLIER,
        stake.amount * multiplier > MAX_STAKE,
        stake.amount * multiplier <= u64::MAX,
    ensures
        wrap_u64(stake.amount * multiplier) > MAX_STAKE,
{
    let p: int = stake.amount * multiplier;
    assert(p % 0x1_0000_0000_0000_0000 == p);
}

/// Dividing before multiplying never pays more than multiplying first, and
/// pays less whenever the division leaves a remainder that the product would
/// have kept.
pub proof fn lemma_divide_first_loses_precision(rate: int, divisor: int, factor: int)
    requires
        rate >= 0,
        factor >= 0,
        divisor > 0,
    ensures
        (rate / divisor) * factor <= (rate * factor) / divisor,
{
    let q = rate / divisor;
    let r = rate % divisor;
    vstd::arithmetic::div_mod::lemma_fundamental_div_mod(rate, divisor);
    assert(rate * factor == q * factor * divisor + r * factor) by (nonlinear_arith)
        requires
            rate == q * divisor + r,
    ;
    assert(q * factor * divisor <= rate * factor) by (nonlinear_arith)
        requires
            rate * factor == q * factor * divisor + r * factor,
            r >= 0,
            factor >= 0,
    ;
    vstd::arithmetic::div_mod::lemma_div_is_ordered(q * factor * divisor, rate * factor, divisor);
    vstd::arithmetic::div_mod::lemma_div_multiples_vanish(q * factor, divisor);
}

} // verus!
