//! Deterministic key derivation, proof verification and consensus scoring
//! for the LUXBIN chain.
//!
//! Every function here is a pure function of its arguments. Storage, events,
//! clocks and currency belong to the caller.

pub mod acoustic_shielding;
pub mod ai_compute;
pub mod bitcoin_bridge;
pub mod bytes;
pub mod erc4337;
pub mod hash;
pub mod ldd;
pub mod photonic_laws;
pub mod quantum_ai;
pub mod quantum_diamond;
pub mod temporal_crypto;
pub mod temporal_gating;
pub mod consensus;
