use crate::error::ERROR_CODE_OFFSET;
use vstd::prelude::*;

verus! {

/// Ways in which a user-initiated guarded swap is refused.
#[derive(Clone, Copy, Debug, PartialEq, Eq, Structural)]
pub enum JupiterSwapError {
    InsufficientBalance,
    InvalidTokenAccountOwner,
    MintMismatch,
    InvalidJupiterProgram,
    SlippageExceeded,
    MathOverflow,
    InvalidAmount,
    InvalidFeeRate,
    ProtectedAccountInRemainingAccounts,
    UnexpectedInputAmount,
    InvalidJupiterSwapInstruction,
    InvalidAccountsMeta,
    JupiterCPIFailed,
}

impl JupiterSwapError {
    /// Position of the variant in the declaration, counted from zero.
    pub open spec fn index(&self) -> nat {
        match self {
            JupiterSwapError::InsufficientBalance => 0,
            JupiterSwapError::InvalidTokenAccountOwner => 1,
            JupiterSwapError::MintMismatch => 2,
            JupiterSwapError::InvalidJupiterProgram => 3,
            JupiterSwapError::SlippageExceeded => 4,
            JupiterSwapError::MathOverflow => 5,
            JupiterSwapError::InvalidAmount => 6,
            JupiterSwapError::InvalidFeeRate => 7,
            JupiterSwapError::ProtectedAccountInRemainingAccounts => 8,
            JupiterSwapError::UnexpectedInputAmount => 9,
            JupiterSwapError::InvalidJupiterSwapInstruction => 10,
            JupiterSwapError::InvalidAccountsMeta => 11,
            JupiterSwapError::JupiterCPIFailed => 12,
        }
    }

    /// The text shown for the error.
    pub open spec fn message_text(&self) -> Seq<char> {
        match self {
            JupiterSwapError::InsufficientBalance => "Insufficient balance in user's token account"@,
            JupiterSwapError::InvalidTokenAccountOwner => "Invalid token account owner"@,
            JupiterSwapError::MintMismatch => "Mint mismatch between accounts"@,
            JupiterSwapError::InvalidJupiterProgram => "Invalid Jupiter program ID"@,
            JupiterSwapError::SlippageExceeded => "Slippage tolerance exceeded"@,
            JupiterSwapError::MathOverflow => "Math overflow occurred"@,
            JupiterSwapError::InvalidAmount => "Invalid amount (must be > 0)"@,
            JupiterSwapError::InvalidFeeRate => "Invalid fee rate (must be <= 10000 bps)"@,
            JupiterSwapError::ProtectedAccountInRemainingAccounts => "Protected account found in remaining accounts"@,
            JupiterSwapError::UnexpectedInputAmount => "Unexpected input amount used in swap"@,
            JupiterSwapError::InvalidJupiterSwapInstruction => "Invalid Jupiter swap instruction"@,
            JupiterSwapError::InvalidAccountsMeta => "Invalid accounts meta"@,
            JupiterSwapError::JupiterCPIFailed => "Jupiter CPI failed"@,
        }
    }

    /// Numeric code under which the error is reported: the offset plus the variant's index.
    pub fn code(&self) -> (r: u32)
        ensures
            r == ERROR_CODE_OFFSET + self.index(),
    {
        match self {
            JupiterSwapError::InsufficientBalance => 6000,
            JupiterSwapError::InvalidTokenAccountOwner => 6001,
            JupiterSwapError::MintMismatch => 6002,
            JupiterSwapError::InvalidJupiterProgram => 6003,
            JupiterSwapError::SlippageExceeded => 6004,
            JupiterSwapError::MathOverflow => 6005,
            JupiterSwapError::InvalidAmount => 6006,
            JupiterSwapError::InvalidFeeRate => 6007,
            JupiterSwapError::ProtectedAccountInRemainingAccounts => 6008,
            JupiterSwapError::UnexpectedInputAmount => 6009,
            JupiterSwapError::InvalidJupiterSwapInstruction => 6010,
            JupiterSwapError::InvalidAccountsMeta => 6011,
            JupiterSwapError::JupiterCPIFailed => 6012,
        }
    }

    /// Human-readable description of the error.
    pub fn message(&self) -> (r: &'static str)
        ensures
            r@ == self.message_text(),
    {
        match self {
            JupiterSwapError::InsufficientBalance => "Insufficient balance in user's token account",
            JupiterSwapError::InvalidTokenAccountOwner => "Invalid token account owner",
            JupiterSwapError::MintMismatch => "Mint mismatch between accounts",
            JupiterSwapError::InvalidJupiterProgram => "Invalid Jupiter program ID",
            JupiterSwapError::SlippageExceeded => "Slippage tolerance exceeded",
            JupiterSwapError::MathOverflow => "Math overflow occurred",
            JupiterSwapError::InvalidAmount => "Invalid amount (must be > 0)",
            JupiterSwapError::InvalidFeeRate => "Invalid fee rate (must be <= 10000 bps)",
            JupiterSwapError::ProtectedAccountInRemainingAccounts => "Protected account found in remaining accounts",
            JupiterSwapError::UnexpectedInputAmount => "Unexpected input amount used in swap",
            JupiterSwapError::InvalidJupiterSwapInstruction => "Invalid Jupiter swap instruction",
            JupiterSwapError::InvalidAccountsMeta => "Invalid accounts meta",
            JupiterSwapError::JupiterCPIFailed => "Jupiter CPI failed",
        }
    }
}

} // verus!
