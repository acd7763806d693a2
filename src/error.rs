use vstd::prelude::*;

verus! {

/// The reasons an operation of the ledger is rejected.
#[derive(Clone, Copy, Debug, PartialEq, Eq, Structural)]
pub enum ErrorCode {
    /// The amount is zero.
    InvalidAmount,
    /// The amount to unstake exceeds the staked balance.
    InsufficientBalance,
    /// A checked addition or subtraction would wrap.
    ArithmeticOverflow,
    /// The nonce or the signing authority does not match the pool.
    AuthorizationMismatch,
    /// A record for this owner and pool already exists.
    DuplicateEnrollment,
}

impl ErrorCode {
    /// A human-readable description of the error.
    pub fn message(&self) -> (r: String) {
        match self {
            ErrorCode::InvalidAmount => String::from_str("Amount must be greater than zero!"),
            ErrorCode::InsufficientBalance => String::from_str("Amount must be less than balance staked!"),
            ErrorCode::ArithmeticOverflow => String::from_str("Arithmetic overflow"),
            ErrorCode::AuthorizationMismatch => String::from_str("Authority does not match the pool"),
            ErrorCode::DuplicateEnrollment => String::from_str("User record already exists for this pool"),
        }
    }
}

} // verus!
