use vstd::prelude::*;

use crate::authority::{signer_seeds, MovementAuthority, PoolSigner};
use crate::error::ErrorCode;
use crate::key::Key;
use crate::state::{Pool, User};

verus! {

/// A request to move `amount` tokens from one token account to another,
/// signed by `authority`.
#[derive(Clone, Copy, Debug)]
pub struct TokenMovement {
    pub from: Key,
    pub to: Key,
    pub authority: MovementAuthority,
    pub amount: u64,
}

/// The validated identities that a stake or an unstake works with.
#[derive(Clone, Copy, Debug)]
pub struct Stake {
    /// The pool's own key.
    pub pool: Key,
    /// The user's account of the staking token.
    pub user_staking_token_account: Key,
    /// The user's account of the reward token.
    pub user_reward_token_account: Key,
}

/// The reward credited for staking `amount`: half of it, rounded down.
pub open spec fn reward_of(amount: u64) -> u64 {
    amount / 2
}

/// The reward credited for staking `amount`: half of it, rounded down.
pub fn reward_amount(amount: u64) -> (r: u64)
    ensures
        r == reward_of(amount),
{
    amount / 2
}

/// The record after staking `amount`, or the error that rejects it.
pub open spec fn staked(user: User, amount: u64) -> Result<User, ErrorCode> {
    if amount == 0 {
        Err(ErrorCode::InvalidAmount)
    } else if user.reward_balance + reward_of(amount) > u64::MAX
        || user.balance_staked + amount > u64::MAX {
        Err(ErrorCode::ArithmeticOverflow)
    } else {
        Ok(User {
            reward_balance: (user.reward_balance + reward_of(amount)) as u64,
            balance_staked: (user.balance_staked + amount) as u64,
            ..user
        })
    }
}

/// The record after unstaking `amount`, or the error that rejects it.
pub open spec fn unstaked(user: User, amount: u64) -> Result<User, ErrorCode> {
    if amount == 0 {
        Err(ErrorCode::InvalidAmount)
    } else if user.balance_staked < amount {
        Err(ErrorCode::InsufficientBalance)
    } else {
        Ok(User { balance_staked: (user.balance_staked - amount) as u64, ..user })
    }
}

/// The movements that a stake of `amount` requests: first the reward, out of
/// the reward vault and signed by the pool, then the principal, out of the
/// user's account and signed by the user.
pub open spec fn stake_movements(accounts: Stake, pool: Pool, owner: Key, amount: u64) -> Seq<TokenMovement> {
    seq![
        TokenMovement {
            from: pool.reward_token_vault,
            to: accounts.user_reward_token_account,
            authority: MovementAuthority::Pool(signer_seeds(accounts.pool, pool.nonce)),
            amount: reward_of(amount),
        },
        TokenMovement {
            from: accounts.user_staking_token_account,
            to: pool.staking_vault,
            authority: MovementAuthority::Owner(owner),
            amount,
        },
    ]
}

/// The movement that an unstake of `amount` requests: the principal, out of
/// the staking vault and signed by the pool.
pub open spec fn unstake_movements(accounts: Stake, pool: Pool, amount: u64) -> Seq<TokenMovement> {
    seq![
        TokenMovement {
            from: pool.staking_vault,
            to: accounts.user_staking_token_account,
            authority: MovementAuthority::Pool(signer_seeds(accounts.pool, pool.nonce)),
            amount,
        },
    ]
}

/// Stakes `amount` for `user` in `pool`: credits the principal and a reward of
/// half of it, and returns the two movements to request. On an error the
/// record is left as it was.
pub fn stake(accounts: &Stake, pool: &Pool, user: &mut User, amount: u64) -> (r: Result<Vec<TokenMovement>, ErrorCode>)
    ensures
        amount == 0 ==> r == Err::<Vec<TokenMovement>, ErrorCode>(ErrorCode::InvalidAmount)
            && *final(user) == *old(user),
        match staked(*old(user), amount) {
            Ok(u) => *final(user) == u && (r matches Ok(ms) && ms@ == stake_movements(
                *accounts,
                *pool,
                old(user).owner,
                amount,
            )),
            Err(e) => *final(user) == *old(user) && r == Err::<Vec<TokenMovement>, ErrorCode>(e),
        },
{
    if amount == 0 {
        return Err(ErrorCode::InvalidAmount);
    }
    let reward = reward_amount(amount);
    let reward_balance = match user.reward_balance.checked_add(reward) {
        Some(b) => b,
        None => return Err(ErrorCode::ArithmeticOverflow),
    };
    let balance_staked = match user.balance_staked.checked_add(amount) {
        Some(b) => b,
        None => return Err(ErrorCode::ArithmeticOverflow),
    };
    user.reward_balance = reward_balance;
    user.balance_staked = balance_staked;
    let signer = PoolSigner { pool: accounts.pool, nonce: pool.nonce };
    let mut movements: Vec<TokenMovement> = Vec::new();
    movements.push(
        TokenMovement {
            from: pool.reward_token_vault,
            to: accounts.user_reward_token_account,
            authority: MovementAuthority::Pool(signer),
            amount: reward,
        },
    );
    movements.push(
        TokenMovement {
            from: accounts.user_staking_token_account,
            to: pool.staking_vault,
            authority: MovementAuthority::Owner(user.owner),
            amount,
        },
    );
    assert(movements@ =~= stake_movements(*accounts, *pool, old(user).owner, amount));
    Ok(movements)
}

/// Unstakes `amount` for `user` in `pool`: debits the principal and returns
/// the movement to request. The reward balance is untouched. On an error the
/// record is left as it was.
pub fn unstake(accounts: &Stake, pool: &Pool, user: &mut User, amount: u64) -> (r: Result<Vec<TokenMovement>, ErrorCode>)
    ensures
        amount == 0 ==> r == Err::<Vec<TokenMovement>, ErrorCode>(ErrorCode::InvalidAmount)
            && *final(user) == *old(user),
        amount > old(user).balance_staked ==> r == Err::<Vec<TokenMovement>, ErrorCode>(
            ErrorCode::InsufficientBalance,
        ) && *final(user) == *old(user),
        match unstaked(*old(user), amount) {
            Ok(u) => *final(user) == u && (r matches Ok(ms) && ms@ == unstake_movements(
                *accounts,
                *pool,
                amount,
            )),
            Err(e) => *final(user) == *old(user) && r == Err::<Vec<TokenMovement>, ErrorCode>(e),
        },
{
    if amount == 0 {
        return Err(ErrorCode::InvalidAmount);
    }
    if user.balance_staked < amount {
        return Err(ErrorCode::InsufficientBalance);
    }
    let balance_staked = match user.balance_staked.checked_sub(amount) {
        Some(b) => b,
        None => return Err(ErrorCode::ArithmeticOverflow),
    };
    user.balance_staked = balance_staked;
    let signer = PoolSigner { pool: accounts.pool, nonce: pool.nonce };
    let mut movements: Vec<TokenMovement> = Vec::new();
    movements.push(
        TokenMovement {
            from: pool.staking_vault,
            to: accounts.user_staking_token_account,
            authority: MovementAuthority::Pool(signer),
            amount,
        },
    );
    assert(movements@ =~= unstake_movements(*accounts, *pool, amount));
    Ok(movements)
}

/// Staking an amount and then unstaking the same amount gives back the staked
/// balance held before the stake, and the unstake leaves the reward balance
/// that the stake produced.
pub proof fn lemma_stake_then_unstake(user: User, amount: u64)
    requires
        amount > 0,
        staked(user, amount) is Ok,
    ensures
        match staked(user, amount) {
            Ok(u1) => unstaked(u1, amount) matches Ok(u2) && u2.balance_staked == user.balance_staked
                && u2.reward_balance == u1.reward_balance,
            Err(_) => false,
        },
{
}

/// Two successful stakes add both amounts to the staked balance and both
/// rewards to the reward balance.
pub proof fn lemma_stakes_accumulate(user: User, a1: u64, a2: u64)
    requires
        staked(user, a1) is Ok,
        staked(user, a1) matches Ok(u1) && staked(u1, a2) is Ok,
    ensures
        match staked(user, a1) {
            Ok(u1) => staked(u1, a2) matches Ok(u2) && u2.balance_staked == user.balance_staked + a1
                + a2 && u2.reward_balance == user.reward_balance + a1 / 2 + a2 / 2,
            Err(_) => false,
        },
{
}

/// A stake never reduces the reward balance, and an unstake leaves it as it
/// was.
pub proof fn lemma_reward_never_decreases(user: User, amount: u64)
    ensures
        staked(user, amount) matches Ok(u) ==> u.reward_balance >= user.reward_balance,
        unstaked(user, amount) matches Ok(u) ==> u.reward_balance == user.reward_balance,
{
}

} // verus!
