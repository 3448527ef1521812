use vstd::prelude::*;

verus! {

/// The failures an operation can end in. Each aborts the whole operation
/// with no balance change.
#[derive(Debug, Clone, Copy, PartialEq, Eq, Structural)]
pub enum CpiError {
    /// The signer, or the derived authority, is not the owner of the account.
    Unauthorized,
    /// The accounts of one operation hold different mints.
    InvalidMint,
    /// The amount asked for exceeds the source balance.
    InsufficientBalance,
    /// The token program supplied is not the expected one.
    InvalidProgram,
    /// Fee or balance arithmetic left the range of `u64`.
    Overflow,
}

impl CpiError {
    /// The message shown for the error.
    pub fn message(&self) -> (r: &'static str)
        ensures
            r@ == match self {
                CpiError::Unauthorized => "Unauthorized: Invalid authority"@,
                CpiError::InvalidMint => "Invalid token mint"@,
                CpiError::InsufficientBalance => "Insufficient balance for transfer"@,
                CpiError::InvalidProgram => "Invalid program for CPI"@,
                CpiError::Overflow => "Arithmetic overflow"@,
            },
    {
        match self {
            CpiError::Unauthorized => "Unauthorized: Invalid authority",
            CpiError::InvalidMint => "Invalid token mint",
            CpiError::InsufficientBalance => "Insufficient balance for transfer",
            CpiError::InvalidProgram => "Invalid program for CPI",
            CpiError::Overflow => "Arithmetic overflow",
        }
    }
}

} // verus!
