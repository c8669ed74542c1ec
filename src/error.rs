use vstd::prelude::*;

verus! {

/// Every way in which initialization or settlement can be refused.
#[derive(Debug, Clone, Copy, PartialEq, Eq, Structural)]
pub enum ErrorCode {
    PayloadDecodeFailed,
    MarketMismatch,
    InvalidVaultAccount,
    InvalidMint,
    InvalidVaultBalance,
    NoNewFunds,
    MathError,
    InvalidOutcome,
    InvalidUserPosition,
    InvalidPayloadLength,
    MissingBump,
}

impl ErrorCode {
    /// The human-readable message attached to each error.
    pub fn message(&self) -> (r: String) {
        match self {
            ErrorCode::PayloadDecodeFailed => "Payload decode failed".to_string(),
            ErrorCode::MarketMismatch => "Market mismatch".to_string(),
            ErrorCode::InvalidVaultAccount => "Invalid vault account".to_string(),
            ErrorCode::InvalidMint => "Invalid mint for bridged token".to_string(),
            ErrorCode::InvalidVaultBalance => "Invalid vault balance".to_string(),
            ErrorCode::NoNewFunds => "No new funds detected".to_string(),
            ErrorCode::MathError => "Math overflow or underflow".to_string(),
            ErrorCode::InvalidOutcome => "Invalid outcome".to_string(),
            ErrorCode::InvalidUserPosition => "Invalid user position account".to_string(),
            ErrorCode::InvalidPayloadLength => "Invalid payload length".to_string(),
            ErrorCode::MissingBump => "Missing bump".to_string(),
        }
    }
}

} // verus!
