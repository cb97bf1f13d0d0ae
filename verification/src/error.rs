//! The failure taxonomy of a mint.  Every failure is terminal for the call
//! and leaves the registry untouched.

use vstd::prelude::*;

verus! {

/// The reason a mint was refused.  Each variant is tied to exactly one
/// violated invariant of the minting path.
#[derive(Debug, Clone, Copy, PartialEq, Eq, Structural)]
pub enum MintError {
    /// The resolved token id is already present in the registry.
    DuplicateToken,
    /// The perpetual-royalty map holds seven or more entries.
    TooManyRoyalties,
    /// The perpetual royalties sum to 2001 basis points or more.
    RoyaltyTooHigh,
    /// The final royalty map does not sum to exactly 10000 basis points.
    RoyaltyImbalance,
    /// The metadata carries a token-type tag with no configured hard cap.
    UnknownTokenType,
    /// The issued supply of the token type is already at or above its cap.
    SupplyExhausted,
    /// The attached payment is below the required storage amount.
    InsufficientDeposit,
}

impl MintError {
    /// A human-readable description of the failure.
    pub fn message(&self) -> (r: &'static str)
        ensures
            r@ == match self {
                MintError::DuplicateToken => "Token already exists"@,
                MintError::TooManyRoyalties => "Cannot add more than 6 perpetual royalty amounts"@,
                MintError::RoyaltyTooHigh => "Perpetual royalties cannot be more than 20%"@,
                MintError::RoyaltyImbalance => "Royalties sum must be exactly 10000"@,
                MintError::UnknownTokenType => "Token type must have hard cap"@,
                MintError::SupplyExhausted => "Cannot mint anymore of token type"@,
                MintError::InsufficientDeposit => "Deposit is below the required storage amount"@,
            },
    {
        match self {
            MintError::DuplicateToken => "Token already exists",
            MintError::TooManyRoyalties => "Cannot add more than 6 perpetual royalty amounts",
            MintError::RoyaltyTooHigh => "Perpetual royalties cannot be more than 20%",
            MintError::RoyaltyImbalance => "Royalties sum must be exactly 10000",
            MintError::UnknownTokenType => "Token type must have hard cap",
            MintError::SupplyExhausted => "Cannot mint anymore of token type",
            MintError::InsufficientDeposit => "Deposit is below the required storage amount",
        }
    }
}

} // verus!
