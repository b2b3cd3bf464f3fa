//! A fungible-token ledger with two linear vesting streams and a one-time
//! incentive distribution, kept under a single admin identity.
pub mod codec;
pub mod contract;
pub mod error;
pub mod ledger;
pub mod vesting;
