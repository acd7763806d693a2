use vstd::prelude::*;

use crate::engine::{stake, stake_movements, staked, unstake, unstake_movements, unstaked, Stake, TokenMovement};
use crate::error::ErrorCode;
use crate::key::Key;
use crate::state::{new_user, CreateUser, Pool, User};

verus! {

/// Whether `records` holds a record of `owner` in `pool`.
pub open spec fn has_record(records: Seq<User>, owner: Key, pool: Key) -> bool {
    exists|i: int| 0 <= i < records.len() && records[i].owner == owner && records[i].pool == pool
}

/// No two records share both owner and pool.
pub open spec fn records_unique(records: Seq<User>) -> bool {
    forall|i: int, j: int|
        0 <= i < records.len() && 0 <= j < records.len() && i != j ==> !(records[i].owner
            == records[j].owner && records[i].pool == records[j].pool)
}

/// The user records of all pools, at most one per owner and pool.
pub struct UserLedger {
    users: Vec<User>,
}

impl View for UserLedger {
    type V = Seq<User>;

    closed spec fn view(&self) -> Seq<User> {
        self.users@
    }
}

impl UserLedger {
    /// The ledger holds at most one record per owner and pool.
    pub open spec fn wf(&self) -> bool {
        records_unique(self@)
    }

    /// An empty ledger.
    pub fn new() -> (r: UserLedger)
        ensures
            r@ == Seq::<User>::empty(),
            r.wf(),
    {
        UserLedger { users: Vec::new() }
    }

    /// The number of records.
    pub fn len(&self) -> (r: usize)
        ensures
            r == self@.len(),
    {
        self.users.len()
    }

    /// The position of the record of `owner` in `pool`, if there is one.
    pub fn find(&self, owner: &Key, pool: &Key) -> (r: Option<usize>)
        ensures
            match r {
                Some(i) => i < self@.len() && self@[i as int].owner == *owner && self@[i as int].pool == *pool,
                None => !has_record(self@, *owner, *pool),
            },
    {
        let mut i: usize = 0;
        while i < self.users.len()
            invariant
                0 <= i <= self.users@.len(),
                forall|j: int| 0 <= j < i ==> !(self.users@[j].owner == *owner && self.users@[j].pool == *pool),
            decreases self.users@.len() - i,
        {
            if self.users[i].owner == *owner && self.users[i].pool == *pool {
                return Some(i);
            }
            i = i + 1;
        }
        None
    }

    /// The record at position `i`.
    pub fn get(&self, i: usize) -> (r: &User)
        requires
            i < self@.len(),
        ensures
            *r == self@[i as int],
    {
        &self.users[i]
    }

    /// Stakes `amount` on the record at position `i`, as `stake` does on a
    /// single record; the other records are untouched.
    pub fn stake(&mut self, i: usize, accounts: &Stake, pool: &Pool, amount: u64) -> (r: Result<Vec<TokenMovement>, ErrorCode>)
        requires
            old(self).wf(),
            i < old(self)@.len(),
        ensures
            final(self).wf(),
            match staked(old(self)@[i as int], amount) {
                Ok(u) => final(self)@ == old(self)@.update(i as int, u) && (r matches Ok(ms) && ms@
                    == stake_movements(*accounts, *pool, old(self)@[i as int].owner, amount)),
                Err(e) => final(self)@ == old(self)@ && r == Err::<Vec<TokenMovement>, ErrorCode>(e),
            },
    {
        let mut user = self.users[i];
        let r = stake(accounts, pool, &mut user, amount);
        if r.is_ok() {
            self.users.set(i, user);
        }
        proof {
            assert(forall|j: int| 0 <= j < self@.len() ==> self@[j].owner == old(self)@[j].owner && self@[j].pool == old(self)@[j].pool);
        }
        r
    }

    /// Unstakes `amount` from the record at position `i`, as `unstake` does on
    /// a single record; the other records are untouched.
    pub fn unstake(&mut self, i: usize, accounts: &Stake, pool: &Pool, amount: u64) -> (r: Result<Vec<TokenMovement>, ErrorCode>)
        requires
            old(self).wf(),
            i < old(self)@.len(),
        ensures
            final(self).wf(),
            match unstaked(old(self)@[i as int], amount) {
                Ok(u) => final(self)@ == old(self)@.update(i as int, u) && (r matches Ok(ms) && ms@
                    == unstake_movements(*accounts, *pool, amount)),
                Err(e) => final(self)@ == old(self)@ && r == Err::<Vec<TokenMovement>, ErrorCode>(e),
            },
    {
        let mut user = self.users[i];
        let r = unstake(accounts, pool, &mut user, amount);
        if r.is_ok() {
            self.users.set(i, user);
        }
        proof {
            assert(forall|j: int| 0 <= j < self@.len() ==> self@[j].owner == old(self)@[j].owner && self@[j].pool == old(self)@[j].pool);
        }
        r
    }
}

/// Creates the record of `accounts.owner` in the pool `accounts.pool` and
/// counts it in `pool`. Fails, changing nothing, where such a record already
/// exists or where the pool's count is at its largest value.
pub fn create_user(ledger: &mut UserLedger, pool: &mut Pool, accounts: &CreateUser, nonce: u8) -> (r: Result<(), ErrorCode>)
    requires
        old(ledger).wf(),
    ensures
        final(ledger).wf(),
        has_record(old(ledger)@, accounts.owner, accounts.pool) ==> r == Err::<(), ErrorCode>(
            ErrorCode::DuplicateEnrollment,
        ) && final(ledger)@ == old(ledger)@ && *final(pool) == *old(pool),
        !has_record(old(ledger)@, accounts.owner, accounts.pool) ==> match old(pool).enrolled() {
            Ok(p) => r is Ok && *final(pool) == p && final(ledger)@ == old(ledger)@.push(
                User::fresh(accounts.pool, accounts.owner, nonce),
            ),
            Err(e) => r == Err::<(), ErrorCode>(e) && final(ledger)@ == old(ledger)@ && *final(pool)
                == *old(pool),
        },
{
    if ledger.find(&accounts.owner, &accounts.pool).is_some() {
        return Err(ErrorCode::DuplicateEnrollment);
    }
    match pool.enroll_user() {
        Ok(()) => {},
        Err(e) => return Err(e),
    }
    let user = new_user(accounts, nonce);
    ledger.users.push(user);
    Ok(())
}

} // verus!
