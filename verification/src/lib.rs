//! In-memory simulation of an NFT mint's on-chain lifecycle.
//!
//! A caller registers a mint and receives a record carrying synthetic
//! transaction metadata; a scheduler advances every record through
//! `Pending -> Confirming -> Confirmed` purely as a function of elapsed
//! time, and eventually evicts terminal records from the registry.

pub mod blockchain_sim;
pub mod lifecycle;
pub mod minting_queue;
pub mod record_map;
pub mod responses;
