//! A token-staking ledger: users lock a staking token in a pool's vault and are
//! credited a reward token at a fixed ratio. Vault debits are authorized by an
//! identity derived from the pool's key and a stored nonce.
pub mod authority;
pub mod engine;
pub mod error;
pub mod key;
pub mod ledger;
pub mod state;

pub use authority::{MovementAuthority, PoolSigner};
pub use engine::{reward_amount, stake, unstake, Stake, TokenMovement};
pub use error::ErrorCode;
pub use key::Key;
pub use ledger::{create_user, UserLedger};
pub use state::{initialize_pool, CreateUser, InitializePool, Pool, User};
