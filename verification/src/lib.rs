//! Codec and proof model for events that cross from an Ethereum-style log into
//! a NEAR-side contract: address validation, event signatures, the generic
//! event codec, the `Locked` event and the proof envelope handed to a prover.

pub mod error;
pub mod address;
pub mod signature;
pub mod abi;
pub mod wire;
pub mod schema;
pub mod topics;
pub mod event;
pub mod locked_event;
pub mod prover;
pub mod withdraw;
