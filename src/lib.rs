//! Settlement of bridged deposits into two-outcome prediction markets.
//!
//! The library holds the market and user-position ledgers, the decoder for
//! the foreign-chain settlement message, the program-derived address scheme
//! that binds accounts to a market, and the settlement procedure itself.
pub mod address;
pub mod error;
pub mod laws;
pub mod ledger;
pub mod payload;
pub mod settlement;
