//! A timed, weighted lottery over a pool of deposited assets.
//!
//! An authority opens rounds, participants enter by depositing one asset
//! unit into a custody vault, the authority assigns each entry a weight,
//! and a random draw selects a winner in proportion to the weights. The
//! winner alone may release the vault's whole balance.
//!
//! The surrounding ledger substrate (signer verification, account storage,
//! the asset-transfer primitive, the randomness service call) is an external
//! collaborator: it hands these functions authenticated caller identities
//! and raw randomness responses, and performs the transfers that the
//! returned values authorize.

pub mod codec;
pub mod config;
pub mod errors;
pub mod history;
pub mod resolver;
pub mod round;
pub mod types;
pub mod vault;
