use crate::error::ERROR_CODE_OFFSET;
use vstd::prelude::*;

verus! {

/// Ways in which a marketplace operation is refused.
#[derive(Clone, Copy, Debug, PartialEq, Eq, Structural)]
pub enum StrategyError {
    NameTooLong,
    DescriptionTooLong,
    StrategyInactive,
    InvalidPrice,
    Unauthorized,
}

impl StrategyError {
    /// Position of the variant in the declaration, counted from zero.
    pub open spec fn index(&self) -> nat {
        match self {
            StrategyError::NameTooLong => 0,
            StrategyError::DescriptionTooLong => 1,
            StrategyError::StrategyInactive => 2,
            StrategyError::InvalidPrice => 3,
            StrategyError::Unauthorized => 4,
        }
    }

    /// The text shown for the error.
    pub open spec fn message_text(&self) -> Seq<char> {
        match self {
            StrategyError::NameTooLong => "Strategy name too long (max 50 characters)"@,
            StrategyError::DescriptionTooLong => "Description too long (max 200 characters)"@,
            StrategyError::StrategyInactive => "Strategy is not active"@,
            StrategyError::InvalidPrice => "Invalid price"@,
            StrategyError::Unauthorized => "Unauthorized"@,
        }
    }

    /// Numeric code under which the error is reported: the offset plus the variant's index.
    pub fn code(&self) -> (r: u32)
        ensures
            r == ERROR_CODE_OFFSET + self.index(),
    {
        match self {
            StrategyError::NameTooLong => 6000,
            StrategyError::DescriptionTooLong => 6001,
            StrategyError::StrategyInactive => 6002,
            StrategyError::InvalidPrice => 6003,
            StrategyError::Unauthorized => 6004,
        }
    }

    /// Human-readable description of the error.
    pub fn message(&self) -> (r: &'static str)
        ensures
            r@ == self.message_text(),
    {
        match self {
            StrategyError::NameTooLong => "Strategy name too long (max 50 characters)",
            StrategyError::DescriptionTooLong => "Description too long (max 200 characters)",
            StrategyError::StrategyInactive => "Strategy is not active",
            StrategyError::InvalidPrice => "Invalid price",
            StrategyError::Unauthorized => "Unauthorized",
        }
    }
}

} // verus!
