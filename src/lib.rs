//! Decision logic of two on-chain instructions, on plain values: funding a
//! house vault and staking a collection NFT.
//!
//! The host runtime checks the accounts, reads the clock and runs the
//! cross-program calls; the functions here decide what is written and what
//! is to be called, and say so in their contracts.

pub mod address;
pub mod staking;
pub mod vault;
