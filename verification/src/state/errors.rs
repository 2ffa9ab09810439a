use vstd::prelude::*;

verus! {

/// The failures that the program itself reports.
#[derive(Clone, Copy, Debug, PartialEq, Eq, Structural)]
pub enum ErrorCode {
    /// Oracle account could not be deserialized.
    InvalidOracle,
    /// Oracle is marked as invalid.
    OracleInvalid,
    /// Oracle price is negative or zero.
    InvalidOraclePrice,
    /// Deposit amount must be greater than zero.
    ZeroDepositAmount,
    /// Insufficient token balance for deposit.
    InsufficientBalance,
    /// Withdraw amount exceeds available vault balance.
    InsufficientVaultBalance,
    /// Withdraw amount must be greater than zero.
    ZeroWithdrawAmount,
    /// Actual withdrawal value is zero at current oracle price.
    ZeroWithdrawValue,
    /// Vault owner mismatch.
    UnauthorizedVaultAccess,
    /// Math overflow occurred.
    MathOverflow,
    /// Math underflow occurred.
    MathUnderflow,
}

#[verifier::external_type_specification]
#[verifier::external_body]
pub struct ExAnchorError(anchor_lang::error::Error);

/// Why an instruction failed: one of the program's own codes, one of the
/// framework's account-loading failures, or the failure that the token
/// transfer reported.
#[derive(Debug, PartialEq, Eq)]
pub enum InstructionError {
    /// A failure the program reports itself.
    Program(ErrorCode),
    /// The account data is shorter than its discriminator.
    AccountDiscriminatorNotFound,
    /// The account data starts with another type's discriminator.
    AccountDiscriminatorMismatch,
    /// The fields after the discriminator do not decode.
    AccountDidNotDeserialize,
    /// The token transfer failed; its error is passed on unchanged.
    Transfer(anchor_lang::error::Error),
}

} // verus!
