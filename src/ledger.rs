//! The records that settlement reads and writes.
use vstd::prelude::*;

verus! {

/// Aggregate state of one market.
#[derive(Debug, Clone, Copy, PartialEq, Eq)]
pub struct MarketAccount {
    /// Caller-chosen identity of the market.
    pub market_id: u64,
    /// Total deposited toward each of the two outcomes.
    pub outcomes: [u128; 2],
    /// The custodial vault bound to this market.
    pub vault: [u8; 32],
    /// The bump seed that made the vault derivation succeed.
    pub vault_bump: u8,
    /// The last custodial balance this market has accounted for.
    pub vault_balance: u64,
}

/// What one beneficiary has deposited into one market.
#[derive(Debug, Clone, Copy, PartialEq, Eq)]
pub struct UserPosition {
    pub market_id: u64,
    /// The beneficiary's 20-byte foreign-chain address.
    pub user_evm: [u8; 20],
    /// Cumulative deposits, saturating at `u64::MAX`.
    pub amount: u64,
    /// The outcome of the latest deposit.
    pub outcome: u8,
}

/// What settlement sees of the vault's token account.
#[derive(Debug, Clone, Copy, PartialEq, Eq)]
pub struct VaultTokenAccount {
    /// The token type the account holds.
    pub mint: [u8; 32],
    /// The current custodial balance.
    pub amount: u64,
}

/// The accounts that market creation is handed.
#[derive(Debug, Clone, Copy, PartialEq, Eq)]
pub struct InitializeMarket {
    /// The vault address proposed by the caller.
    pub vault: [u8; 32],
}

/// The accounts that settlement is handed.
#[derive(Debug, Clone, Copy, PartialEq, Eq)]
pub struct LzCompose {
    /// The market being settled into.
    pub market: MarketAccount,
    /// The vault address supplied by the caller.
    pub vault: [u8; 32],
    /// The vault's token account.
    pub token_account: VaultTokenAccount,
    /// The accepted settlement currency.
    pub usdc_mint: [u8; 32],
    /// Address of the supplied user-position account.
    pub user_position_key: [u8; 32],
    /// The record stored there, or `None` when the account was never provisioned.
    pub user_position: Option<UserPosition>,
}

} // verus!
