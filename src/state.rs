use vstd::prelude::*;

use crate::error::ErrorCode;
use crate::key::Key;

verus! {

/// One staking pool: its token identities, its vaults, the nonce from which
/// the vault authority is derived, and how many users have enrolled.
#[derive(Clone, Copy, Debug)]
pub struct Pool {
    /// The pool's administrator (informational).
    pub authority: Key,
    /// The nonce from which the vault authority is derived; never changes.
    pub nonce: u8,
    /// The token that can be staked.
    pub staking_mint: Key,
    /// The vault that holds staked tokens.
    pub staking_vault: Key,
    /// The token paid out as reward.
    pub reward_token_mint: Key,
    /// The vault that holds the reward supply.
    pub reward_token_vault: Key,
    /// How many user records have been enrolled in the pool.
    pub user_stake_count: u32,
}

/// One user's position in one pool.
#[derive(Clone, Copy, Debug)]
pub struct User {
    /// The pool the record belongs to.
    pub pool: Key,
    /// The staking user.
    pub owner: Key,
    /// Staking-token principal held on the user's behalf.
    pub balance_staked: u64,
    /// Reward tokens credited so far.
    pub reward_balance: u64,
    /// The nonce that binds the record to its owner and pool.
    pub nonce: u8,
}

/// The validated identities from which a pool is created.
#[derive(Clone, Copy, Debug)]
pub struct InitializePool {
    pub authority: Key,
    pub staking_mint: Key,
    pub staking_vault: Key,
    pub reward_token_mint: Key,
    pub reward_token_vault: Key,
}

/// The validated identities from which a user record is created.
#[derive(Clone, Copy, Debug)]
pub struct CreateUser {
    pub pool: Key,
    pub owner: Key,
}

/// Creates a pool over the given vaults with no user enrolled.
pub fn initialize_pool(accounts: &InitializePool, pool_nonce: u8) -> (r: Pool)
    ensures
        r.authority == accounts.authority,
        r.nonce == pool_nonce,
        r.staking_mint == accounts.staking_mint,
        r.staking_vault == accounts.staking_vault,
        r.reward_token_mint == accounts.reward_token_mint,
        r.reward_token_vault == accounts.reward_token_vault,
        r.user_stake_count == 0,
{
    Pool {
        authority: accounts.authority,
        nonce: pool_nonce,
        staking_mint: accounts.staking_mint,
        staking_vault: accounts.staking_vault,
        reward_token_mint: accounts.reward_token_mint,
        reward_token_vault: accounts.reward_token_vault,
        user_stake_count: 0,
    }
}

impl Pool {
    /// The pool after one more enrollment, or the overflow error where the
    /// count is already at its largest value.
    pub open spec fn enrolled(self) -> Result<Pool, ErrorCode> {
        if self.user_stake_count == u32::MAX {
            Err(ErrorCode::ArithmeticOverflow)
        } else {
            Ok(Pool { user_stake_count: (self.user_stake_count + 1) as u32, ..self })
        }
    }

    /// Counts one more enrolled user, with overflow-checked addition.
    pub fn enroll_user(&mut self) -> (r: Result<(), ErrorCode>)
        ensures
            old(self).user_stake_count == u32::MAX ==> r == Err::<(), ErrorCode>(
                ErrorCode::ArithmeticOverflow,
            ) && *final(self) == *old(self),
            match old(self).enrolled() {
                Ok(p) => r is Ok && *final(self) == p,
                Err(e) => r == Err::<(), ErrorCode>(e) && *final(self) == *old(self),
            },
    {
        match self.user_stake_count.checked_add(1) {
            Some(n) => {
                self.user_stake_count = n;
                Ok(())
            },
            None => Err(ErrorCode::ArithmeticOverflow),
        }
    }
}

impl User {
    /// A fresh record for `owner` in `pool`, with both balances at zero.
    pub open spec fn fresh(pool: Key, owner: Key, nonce: u8) -> User {
        User { pool, owner, balance_staked: 0, reward_balance: 0, nonce }
    }
}

/// Creates the record of `accounts.owner` in `accounts.pool`, with both
/// balances at zero.
pub fn new_user(accounts: &CreateUser, nonce: u8) -> (r: User)
    ensures
        r == User::fresh(accounts.pool, accounts.owner, nonce),
{
    User {
        pool: accounts.pool,
        owner: accounts.owner,
        balance_staked: 0,
        reward_balance: 0,
        nonce,
    }
}

} // verus!
