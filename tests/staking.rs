use anchor_lang::solana_program::pubkey::Pubkey;
use stakingfarmproject::authority::{
    authority_from_derivation, authorize_movement, check_movement_authority, derive_authority, MovementAuthority,
    PoolSigner,
};
use stakingfarmproject::ledger::{create_user, UserLedger};
use stakingfarmproject::{initialize_pool, reward_amount, stake, unstake};
use stakingfarmproject::{CreateUser, ErrorCode, InitializePool, Key, Pool, Stake, User};

fn key(b: u8) -> Key {
    Key::filled(b)
}

fn pool_with_nonce(nonce: u8) -> Pool {
    initialize_pool(
        &InitializePool {
            authority: key(1),
            staking_mint: key(2),
            staking_vault: key(3),
            reward_token_mint: key(4),
            reward_token_vault: key(5),
        },
        nonce,
    )
}

fn fresh_user() -> User {
    User { pool: key(9), owner: key(8), balance_staked: 0, reward_balance: 0, nonce: 254 }
}

fn accounts() -> Stake {
    Stake { pool: key(9), user_staking_token_account: key(6), user_reward_token_account: key(7) }
}

#[test]
fn reward_is_half_rounded_down() {
    assert_eq!(reward_amount(1), 0);
    assert_eq!(reward_amount(2), 1);
    assert_eq!(reward_amount(101), 50);
    assert_eq!(reward_amount(0), 0);
    assert_eq!(reward_amount(u64::MAX), u64::MAX / 2);
}

#[test]
fn initialize_pool_records_identities() {
    let pool = pool_with_nonce(253);
    assert_eq!(pool.nonce, 253);
    assert!(pool.authority == key(1));
    assert!(pool.staking_mint == key(2));
    assert!(pool.staking_vault == key(3));
    assert!(pool.reward_token_mint == key(4));
    assert!(pool.reward_token_vault == key(5));
    assert_eq!(pool.user_stake_count, 0);
}

#[test]
fn stake_credits_principal_and_reward() {
    let pool = pool_with_nonce(7);
    let mut user = fresh_user();
    let movements = stake(&accounts(), &pool, &mut user, 101).unwrap();
    assert_eq!(user.balance_staked, 101);
    assert_eq!(user.reward_balance, 50);
    assert_eq!(movements.len(), 2);
    assert!(movements[0].from == key(5));
    assert!(movements[0].to == key(7));
    assert_eq!(movements[0].amount, 50);
    match movements[0].authority {
        MovementAuthority::Pool(s) => {
            assert!(s.pool == key(9));
            assert_eq!(s.nonce, 7);
        }
        MovementAuthority::Owner(_) => panic!("reward leg must be signed by the pool"),
    }
    assert!(movements[1].from == key(6));
    assert!(movements[1].to == key(3));
    assert_eq!(movements[1].amount, 101);
    match movements[1].authority {
        MovementAuthority::Owner(k) => assert!(k == key(8)),
        MovementAuthority::Pool(_) => panic!("principal leg must be signed by the user"),
    }
}

#[test]
fn stake_of_one_pays_no_reward() {
    let pool = pool_with_nonce(7);
    let mut user = fresh_user();
    let movements = stake(&accounts(), &pool, &mut user, 1).unwrap();
    assert_eq!(user.balance_staked, 1);
    assert_eq!(user.reward_balance, 0);
    assert_eq!(movements[0].amount, 0);
}

#[test]
fn repeated_stakes_accumulate() {
    let pool = pool_with_nonce(7);
    let mut user = fresh_user();
    stake(&accounts(), &pool, &mut user, 10).unwrap();
    stake(&accounts(), &pool, &mut user, 10).unwrap();
    assert_eq!(user.balance_staked, 20);
    assert_eq!(user.reward_balance, 10);
}

#[test]
fn stake_then_unstake_restores_balance() {
    let pool = pool_with_nonce(7);
    let mut user = fresh_user();
    user.balance_staked = 40;
    user.reward_balance = 3;
    stake(&accounts(), &pool, &mut user, 25).unwrap();
    let reward_after_stake = user.reward_balance;
    assert_eq!(reward_after_stake, 15);
    let movements = unstake(&accounts(), &pool, &mut user, 25).unwrap();
    assert_eq!(user.balance_staked, 40);
    assert_eq!(user.reward_balance, reward_after_stake);
    assert_eq!(movements.len(), 1);
    assert!(movements[0].from == key(3));
    assert!(movements[0].to == key(6));
    assert_eq!(movements[0].amount, 25);
    match movements[0].authority {
        MovementAuthority::Pool(s) => {
            assert!(s.pool == key(9));
            assert_eq!(s.nonce, 7);
        }
        MovementAuthority::Owner(_) => panic!("vault debit must be signed by the pool"),
    }
}

#[test]
fn zero_amount_is_rejected() {
    let pool = pool_with_nonce(7);
    let mut user = fresh_user();
    user.balance_staked = 5;
    user.reward_balance = 2;
    assert_eq!(stake(&accounts(), &pool, &mut user, 0).unwrap_err(), ErrorCode::InvalidAmount);
    assert_eq!(unstake(&accounts(), &pool, &mut user, 0).unwrap_err(), ErrorCode::InvalidAmount);
    assert_eq!(user.balance_staked, 5);
    assert_eq!(user.reward_balance, 2);
}

#[test]
fn unstake_above_balance_is_rejected() {
    let pool = pool_with_nonce(7);
    let mut user = fresh_user();
    user.balance_staked = 5;
    user.reward_balance = 2;
    assert_eq!(unstake(&accounts(), &pool, &mut user, 6).unwrap_err(), ErrorCode::InsufficientBalance);
    assert_eq!(user.balance_staked, 5);
    assert_eq!(user.reward_balance, 2);
    unstake(&accounts(), &pool, &mut user, 5).unwrap();
    assert_eq!(user.balance_staked, 0);
}

#[test]
fn stake_overflow_is_rejected() {
    let pool = pool_with_nonce(7);
    let mut user = fresh_user();
    user.balance_staked = u64::MAX;
    assert_eq!(stake(&accounts(), &pool, &mut user, 1).unwrap_err(), ErrorCode::ArithmeticOverflow);
    assert_eq!(user.balance_staked, u64::MAX);
    assert_eq!(user.reward_balance, 0);
    let mut user = fresh_user();
    user.reward_balance = u64::MAX;
    assert_eq!(stake(&accounts(), &pool, &mut user, 2).unwrap_err(), ErrorCode::ArithmeticOverflow);
    assert_eq!(user.reward_balance, u64::MAX);
    assert_eq!(user.balance_staked, 0);
}

#[test]
fn enroll_user_at_max_count_overflows() {
    let mut pool = pool_with_nonce(7);
    pool.user_stake_count = u32::MAX;
    assert_eq!(pool.enroll_user().unwrap_err(), ErrorCode::ArithmeticOverflow);
    assert_eq!(pool.user_stake_count, u32::MAX);
    pool.user_stake_count = 41;
    pool.enroll_user().unwrap();
    assert_eq!(pool.user_stake_count, 42);
}

#[test]
fn create_user_enrolls_once_per_owner_and_pool() {
    let mut pool = pool_with_nonce(7);
    let mut ledger = UserLedger::new();
    let accounts = CreateUser { pool: key(9), owner: key(8) };
    create_user(&mut ledger, &mut pool, &accounts, 250).unwrap();
    assert_eq!(pool.user_stake_count, 1);
    assert_eq!(ledger.len(), 1);
    let i = ledger.find(&key(8), &key(9)).unwrap();
    let record = ledger.get(i);
    assert!(record.owner == key(8));
    assert!(record.pool == key(9));
    assert_eq!(record.balance_staked, 0);
    assert_eq!(record.reward_balance, 0);
    assert_eq!(record.nonce, 250);
    assert_eq!(
        create_user(&mut ledger, &mut pool, &accounts, 250).unwrap_err(),
        ErrorCode::DuplicateEnrollment
    );
    assert_eq!(pool.user_stake_count, 1);
    assert_eq!(ledger.len(), 1);
    let other = CreateUser { pool: key(9), owner: key(10) };
    create_user(&mut ledger, &mut pool, &other, 251).unwrap();
    assert_eq!(pool.user_stake_count, 2);
    assert_eq!(ledger.len(), 2);
    assert!(ledger.find(&key(10), &key(11)).is_none());
}

#[test]
fn create_user_at_max_count_changes_nothing() {
    let mut pool = pool_with_nonce(7);
    pool.user_stake_count = u32::MAX;
    let mut ledger = UserLedger::new();
    let accounts = CreateUser { pool: key(9), owner: key(8) };
    assert_eq!(
        create_user(&mut ledger, &mut pool, &accounts, 250).unwrap_err(),
        ErrorCode::ArithmeticOverflow
    );
    assert_eq!(pool.user_stake_count, u32::MAX);
    assert_eq!(ledger.len(), 0);
}

#[test]
fn ledger_stake_and_unstake_update_one_record() {
    let mut pool = pool_with_nonce(7);
    let mut ledger = UserLedger::new();
    create_user(&mut ledger, &mut pool, &CreateUser { pool: key(9), owner: key(8) }, 1).unwrap();
    create_user(&mut ledger, &mut pool, &CreateUser { pool: key(9), owner: key(10) }, 2).unwrap();
    let i = ledger.find(&key(10), &key(9)).unwrap();
    ledger.stake(i, &accounts(), &pool, 10).unwrap();
    ledger.stake(i, &accounts(), &pool, 10).unwrap();
    assert_eq!(ledger.get(i).balance_staked, 20);
    assert_eq!(ledger.get(i).reward_balance, 10);
    assert_eq!(ledger.unstake(i, &accounts(), &pool, 21).unwrap_err(), ErrorCode::InsufficientBalance);
    ledger.unstake(i, &accounts(), &pool, 20).unwrap();
    assert_eq!(ledger.get(i).balance_staked, 0);
    assert_eq!(ledger.get(i).reward_balance, 10);
    let j = ledger.find(&key(8), &key(9)).unwrap();
    assert_eq!(ledger.get(j).balance_staked, 0);
    assert_eq!(ledger.get(j).reward_balance, 0);
}

fn program_id() -> Key {
    key(42)
}

#[test]
fn derived_authority_matches_program_address() {
    let pool_key = key(9);
    let program = Pubkey::new_from_array(program_id().bytes);
    let (expected, bump) = Pubkey::find_program_address(&[&pool_key.bytes], &program);
    let pool = pool_with_nonce(bump);
    let derived = derive_authority(&pool_key, &pool, bump, &program_id()).unwrap();
    assert!(derived.bytes == expected.to_bytes());
    assert!(derived != pool_key);
}

#[test]
fn derived_authority_rejects_foreign_nonce() {
    let pool_key = key(9);
    let program = Pubkey::new_from_array(program_id().bytes);
    let (_, bump) = Pubkey::find_program_address(&[&pool_key.bytes], &program);
    let pool = pool_with_nonce(bump);
    let other = bump.wrapping_sub(1);
    assert_eq!(
        derive_authority(&pool_key, &pool, other, &program_id()).unwrap_err(),
        ErrorCode::AuthorizationMismatch
    );
}

#[test]
fn nonces_give_different_authorities() {
    let pool_key = key(9);
    let program = Pubkey::new_from_array(program_id().bytes);
    let (expected, bump) = Pubkey::find_program_address(&[&pool_key.bytes], &program);
    let owner = Key::new(expected.to_bytes());
    let right = MovementAuthority::Pool(PoolSigner { pool: pool_key, nonce: bump });
    assert!(authorize_movement(&right, &owner, &program_id()).is_ok());
    for n in [bump.wrapping_sub(1), bump.wrapping_sub(2), bump.wrapping_add(1)] {
        let wrong = MovementAuthority::Pool(PoolSigner { pool: pool_key, nonce: n });
        assert_eq!(
            authorize_movement(&wrong, &owner, &program_id()).unwrap_err(),
            ErrorCode::AuthorizationMismatch
        );
    }
}

#[test]
fn owner_signed_movement_needs_the_owner() {
    let owner = key(8);
    assert!(authorize_movement(&MovementAuthority::Owner(key(8)), &owner, &program_id()).is_ok());
    assert_eq!(
        authorize_movement(&MovementAuthority::Owner(key(10)), &owner, &program_id()).unwrap_err(),
        ErrorCode::AuthorizationMismatch
    );
}

#[test]
fn error_messages_are_distinct() {
    let all = [
        ErrorCode::InvalidAmount,
        ErrorCode::InsufficientBalance,
        ErrorCode::ArithmeticOverflow,
        ErrorCode::AuthorizationMismatch,
        ErrorCode::DuplicateEnrollment,
    ];
    for (i, a) in all.iter().enumerate() {
        for (j, b) in all.iter().enumerate() {
            assert_eq!(i == j, a.message() == b.message());
        }
    }
    assert_eq!(ErrorCode::InvalidAmount.message(), "Amount must be greater than zero!");
}

#[test]
fn authority_decision_on_given_derivation() {
    let pool = pool_with_nonce(200);
    assert!(authority_from_derivation(&pool, 200, Some(key(77))).unwrap() == key(77));
    assert_eq!(authority_from_derivation(&pool, 200, None).unwrap_err(), ErrorCode::AuthorizationMismatch);
    assert_eq!(
        authority_from_derivation(&pool, 201, Some(key(77))).unwrap_err(),
        ErrorCode::AuthorizationMismatch
    );
}

#[test]
fn movement_decision_on_given_derivation() {
    let signer = MovementAuthority::Pool(PoolSigner { pool: key(9), nonce: 3 });
    assert!(check_movement_authority(&signer, &key(77), Some(key(77))).is_ok());
    assert_eq!(
        check_movement_authority(&signer, &key(77), Some(key(78))).unwrap_err(),
        ErrorCode::AuthorizationMismatch
    );
    assert_eq!(check_movement_authority(&signer, &key(77), None).unwrap_err(), ErrorCode::AuthorizationMismatch);
    assert!(check_movement_authority(&MovementAuthority::Owner(key(5)), &key(5), None).is_ok());
    assert_eq!(
        check_movement_authority(&MovementAuthority::Owner(key(5)), &key(6), Some(key(6))).unwrap_err(),
        ErrorCode::AuthorizationMismatch
    );
}
