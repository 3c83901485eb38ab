use crate::error::ERROR_CODE_OFFSET;
use vstd::prelude::*;

verus! {

/// Ways in which a vault operation is refused.
#[derive(Clone, Copy, Debug, PartialEq, Eq, Structural)]
pub enum VaultError {
    MathOverflow,
    ZeroAmount,
    ZeroShares,
    ZeroAssets,
    NoShares,
    MintMismatch,
    InvalidOwner,
    InsufficientAssets,
    Unauthorized,
    StrategyDisabled,
    InvalidFee,
    StrategyNotImplemented,
    InvalidAmount,
    ProtectedAccountInRemainingAccounts,
    SlippageExceeded,
    InvalidFeeRate,
    UnexpectedInputAmount,
    InvalidJupiterProgram,
    InsufficientBalance,
}

impl VaultError {
    /// Position of the variant in the declaration, counted from zero.
    pub open spec fn index(&self) -> nat {
        match self {
            VaultError::MathOverflow => 0,
            VaultError::ZeroAmount => 1,
            VaultError::ZeroShares => 2,
            VaultError::ZeroAssets => 3,
            VaultError::NoShares => 4,
            VaultError::MintMismatch => 5,
            VaultError::InvalidOwner => 6,
            VaultError::InsufficientAssets => 7,
            VaultError::Unauthorized => 8,
            VaultError::StrategyDisabled => 9,
            VaultError::InvalidFee => 10,
            VaultError::StrategyNotImplemented => 11,
            VaultError::InvalidAmount => 12,
            VaultError::ProtectedAccountInRemainingAccounts => 13,
            VaultError::SlippageExceeded => 14,
            VaultError::InvalidFeeRate => 15,
            VaultError::UnexpectedInputAmount => 16,
            VaultError::InvalidJupiterProgram => 17,
            VaultError::InsufficientBalance => 18,
        }
    }

    /// The text shown for the error.
    pub open spec fn message_text(&self) -> Seq<char> {
        match self {
            VaultError::MathOverflow => "Math overflow occurred"@,
            VaultError::ZeroAmount => "Cannot deposit/withdraw zero amount"@,
            VaultError::ZeroShares => "Cannot mint/burn zero shares"@,
            VaultError::ZeroAssets => "Calculated zero assets"@,
            VaultError::NoShares => "No shares exist in vault"@,
            VaultError::MintMismatch => "Mint mismatch"@,
            VaultError::InvalidOwner => "Invalid account owner"@,
            VaultError::InsufficientAssets => "Insufficient assets in vault"@,
            VaultError::Unauthorized => "Unauthorized"@,
            VaultError::StrategyDisabled => "Strategy not enabled"@,
            VaultError::InvalidFee => "Invalid fee (max 50%)"@,
            VaultError::StrategyNotImplemented => "Strategy not implemented"@,
            VaultError::InvalidAmount => "Invalid amount"@,
            VaultError::ProtectedAccountInRemainingAccounts => "Protected account in remaining accounts"@,
            VaultError::SlippageExceeded => "Slippage exceeded"@,
            VaultError::InvalidFeeRate => "Invalid fee rate"@,
            VaultError::UnexpectedInputAmount => "Unexpected input amount used in swap"@,
            VaultError::InvalidJupiterProgram => "Invalid Jupiter program ID"@,
            VaultError::InsufficientBalance => "Insufficient balance in vault's token account"@,
        }
    }

    /// Numeric code under which the error is reported: the offset plus the variant's index.
    pub fn code(&self) -> (r: u32)
        ensures
            r == ERROR_CODE_OFFSET + self.index(),
    {
        match self {
            VaultError::MathOverflow => 6000,
            VaultError::ZeroAmount => 6001,
            VaultError::ZeroShares => 6002,
            VaultError::ZeroAssets => 6003,
            VaultError::NoShares => 6004,
            VaultError::MintMismatch => 6005,
            VaultError::InvalidOwner => 6006,
            VaultError::InsufficientAssets => 6007,
            VaultError::Unauthorized => 6008,
            VaultError::StrategyDisabled => 6009,
            VaultError::InvalidFee => 6010,
            VaultError::StrategyNotImplemented => 6011,
            VaultError::InvalidAmount => 6012,
            VaultError::ProtectedAccountInRemainingAccounts => 6013,
            VaultError::SlippageExceeded => 6014,
            VaultError::InvalidFeeRate => 6015,
            VaultError::UnexpectedInputAmount => 6016,
            VaultError::InvalidJupiterProgram => 6017,
            VaultError::InsufficientBalance => 6018,
        }
    }

    /// Human-readable description of the error.
    pub fn message(&self) -> (r: &'static str)
        ensures
            r@ == self.message_text(),
    {
        match self {
            VaultError::MathOverflow => "Math overflow occurred",
            VaultError::ZeroAmount => "Cannot deposit/withdraw zero amount",
            VaultError::ZeroShares => "Cannot mint/burn zero shares",
            VaultError::ZeroAssets => "Calculated zero assets",
            VaultError::NoShares => "No shares exist in vault",
            VaultError::MintMismatch => "Mint mismatch",
            VaultError::InvalidOwner => "Invalid account owner",
            VaultError::InsufficientAssets => "Insufficient assets in vault",
            VaultError::Unauthorized => "Unauthorized",
            VaultError::StrategyDisabled => "Strategy not enabled",
            VaultError::InvalidFee => "Invalid fee (max 50%)",
            VaultError::StrategyNotImplemented => "Strategy not implemented",
            VaultError::InvalidAmount => "Invalid amount",
            VaultError::ProtectedAccountInRemainingAccounts => "Protected account in remaining accounts",
            VaultError::SlippageExceeded => "Slippage exceeded",
            VaultError::InvalidFeeRate => "Invalid fee rate",
            VaultError::UnexpectedInputAmount => "Unexpected input amount used in swap",
            VaultError::InvalidJupiterProgram => "Invalid Jupiter program ID",
            VaultError::InsufficientBalance => "Insufficient balance in vault's token account",
        }
    }
}

} // verus!
