use vstd::prelude::*;

use anchor_lang::solana_program::pubkey::Pubkey;

use crate::error::ErrorCode;
use crate::key::Key;
use crate::state::Pool;

verus! {

/// The address derived from the seeds `[pool, [nonce]]` under the program
/// `program`, or `None` where those seeds give no valid derived address.
pub uninterp spec fn derived_address(pool: Seq<u8>, nonce: u8, program: Seq<u8>) -> Option<Seq<u8>>;

/// Relies on solana_program's `Pubkey::create_program_address`: with two seeds
/// of at most 32 bytes each it hashes the seeds and the program id, and fails
/// only where the hash lies on the curve, so the result depends on its
/// arguments alone.
#[verifier::external_body]
fn create_program_address(pool: &Key, nonce: u8, program_id: &Key) -> (r: Option<Key>)
    ensures
        r is Some <==> derived_address(pool@, nonce, program_id@) is Some,
        r matches Some(k) ==> derived_address(pool@, nonce, program_id@) == Some(k@),
{
    let nonce_seed = [nonce];
    let seeds: [&[u8]; 2] = [&pool.bytes, &nonce_seed];
    match Pubkey::create_program_address(&seeds, &Pubkey::new_from_array(program_id.bytes)) {
        Ok(address) => Some(Key { bytes: address.to_bytes() }),
        Err(_) => None,
    }
}

/// The capability to sign as a pool's vault authority: the seeds from which
/// that authority is derived.
#[derive(Clone, Copy, Debug)]
pub struct PoolSigner {
    pub pool: Key,
    pub nonce: u8,
}

/// The signer seeds for `pool_key` with `nonce`.
pub open spec fn signer_seeds(pool_key: Key, nonce: u8) -> PoolSigner {
    PoolSigner { pool: pool_key, nonce }
}

/// What deriving the authority of a pool gives for a supplied nonce, where the
/// derivation itself gave `derived`.
pub open spec fn authority_outcome(pool: Pool, nonce: u8, derived: Option<Key>) -> Result<Key, ErrorCode> {
    if nonce != pool.nonce {
        Err(ErrorCode::AuthorizationMismatch)
    } else {
        match derived {
            Some(k) => Ok(k),
            None => Err(ErrorCode::AuthorizationMismatch),
        }
    }
}

/// Decides the vault authority of `pool` for a supplied `nonce`, given what
/// the derivation returned.
pub fn authority_from_derivation(pool: &Pool, nonce: u8, derived: Option<Key>) -> (r: Result<Key, ErrorCode>)
    ensures
        r == authority_outcome(*pool, nonce, derived),
{
    if nonce != pool.nonce {
        return Err(ErrorCode::AuthorizationMismatch);
    }
    match derived {
        Some(k) => Ok(k),
        None => Err(ErrorCode::AuthorizationMismatch),
    }
}

/// The vault authority of the pool at `pool_key` under `program_id`, derived
/// from a supplied nonce; fails where the nonce is not the pool's own.
pub fn derive_authority(pool_key: &Key, pool: &Pool, nonce: u8, program_id: &Key) -> (r: Result<Key, ErrorCode>)
    ensures
        nonce != pool.nonce ==> r == Err::<Key, ErrorCode>(ErrorCode::AuthorizationMismatch),
        r matches Ok(k) ==> derived_address(pool_key@, nonce, program_id@) == Some(k@),
        nonce == pool.nonce ==> (r is Ok <==> derived_address(pool_key@, nonce, program_id@) is Some),
        r matches Err(e) ==> e == ErrorCode::AuthorizationMismatch,
{
    if nonce != pool.nonce {
        return Err(ErrorCode::AuthorizationMismatch);
    }
    let derived = create_program_address(pool_key, nonce, program_id);
    authority_from_derivation(pool, nonce, derived)
}

/// Who authorizes a token movement.
#[derive(Clone, Copy, Debug)]
pub enum MovementAuthority {
    /// The holder of a key signs directly.
    Owner(Key),
    /// The program signs as the pool's derived authority.
    Pool(PoolSigner),
}

/// Whether a movement out of an account owned by `source_owner` may go ahead,
/// where deriving the address of a pool signer gave `derived`.
pub open spec fn movement_allowed(authority: MovementAuthority, source_owner: Key, derived: Option<Key>) -> bool {
    match authority {
        MovementAuthority::Owner(k) => k == source_owner,
        MovementAuthority::Pool(_) => derived == Some(source_owner),
    }
}

/// Decides a movement out of an account owned by `source_owner`, given what
/// deriving the signer's address returned.
pub fn check_movement_authority(authority: &MovementAuthority, source_owner: &Key, derived: Option<Key>) -> (r: Result<(), ErrorCode>)
    ensures
        r is Ok <==> movement_allowed(*authority, *source_owner, derived),
        r matches Err(e) ==> e == ErrorCode::AuthorizationMismatch,
{
    let allowed = match authority {
        MovementAuthority::Owner(k) => *k == *source_owner,
        MovementAuthority::Pool(_) => match derived {
            Some(d) => d == *source_owner,
            None => false,
        },
    };
    if allowed {
        Ok(())
    } else {
        Err(ErrorCode::AuthorizationMismatch)
    }
}

/// Whether a movement out of an account owned by `source_owner` is accepted:
/// its authority is that owner, or a pool signer whose derived address under
/// `program` is that owner.
pub open spec fn movement_permitted(authority: MovementAuthority, source_owner: Key, program: Key) -> bool {
    match authority {
        MovementAuthority::Owner(k) => k == source_owner,
        MovementAuthority::Pool(s) => derived_address(s.pool@, s.nonce, program@) == Some(source_owner@),
    }
}

/// Accepts a movement out of an account owned by `source_owner` only where
/// its authority is that owner, or a pool signer whose derived address under
/// `program_id` is that owner.
pub fn authorize_movement(authority: &MovementAuthority, source_owner: &Key, program_id: &Key) -> (r: Result<(), ErrorCode>)
    ensures
        r is Ok <==> movement_permitted(*authority, *source_owner, *program_id),
        r matches Err(e) ==> e == ErrorCode::AuthorizationMismatch,
{
    let derived = match authority {
        MovementAuthority::Owner(_) => None,
        MovementAuthority::Pool(s) => create_program_address(&s.pool, s.nonce, program_id),
    };
    let r = check_movement_authority(authority, source_owner, derived);
    proof {
        if let MovementAuthority::Pool(s) = *authority {
            match derived {
                Some(d) => {
                    if derived_address(s.pool@, s.nonce, program_id@) == Some(source_owner@) {
                        assert(d.bytes =~= source_owner.bytes);
                    }
                },
                None => {},
            }
        }
    }
    r
}

/// The signers of one pool for two different nonces are different, and a
/// movement signed as one of them out of an account owned by the address
/// derived from the other nonce is accepted only where both nonces derive the
/// same address.
pub proof fn lemma_nonce_mismatch_rejected(pool_key: Key, n1: u8, n2: u8, program: Key, owner: Key)
    requires
        n1 != n2,
        derived_address(pool_key@, n1, program@) == Some(owner@),
    ensures
        signer_seeds(pool_key, n1) != signer_seeds(pool_key, n2),
        movement_permitted(MovementAuthority::Pool(signer_seeds(pool_key, n2)), owner, program)
            ==> derived_address(pool_key@, n2, program@) == derived_address(pool_key@, n1, program@),
{
}

/// A pool's authority is derived only from the pool's own nonce: any other
/// nonce is an authorization mismatch, whatever the derivation gives.
pub proof fn lemma_foreign_nonce_rejected(pool: Pool, nonce: u8, derived: Option<Key>)
    requires
        nonce != pool.nonce,
    ensures
        authority_outcome(pool, nonce, derived) == Err::<Key, ErrorCode>(ErrorCode::AuthorizationMismatch),
{
}

} // verus!
