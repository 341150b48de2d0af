//! A verified model of a devnet token faucet contract.
//!
//! The contract issues a fungible token through the platform's token registry,
//! holds a treasury of tokens and native currency, and hands out its holdings
//! under a per-account, per-token daily rate limit.  Every decision the
//! contract makes — who may call what, when a claim is allowed, what is
//! transferred, and what is refunded when issuance fails — is a verified
//! function from plain values (the call context the execution environment
//! supplies) to plain values (the transfer instructions handed back to it).

pub mod faucet;
pub mod laws;
pub mod settlement;
pub mod table;
pub mod treasury;
pub mod types;

pub use faucet::DevNetFaucet;
