//! Verification core of an airdrop claim engine: merkle membership proofs
//! over a symmetric hash chain, foreign-chain signature verification by
//! public-key recovery and address derivation, and the pool-depletion
//! coefficient formula. Persistence and dispatch live outside; every
//! function here is a pure computation over explicit inputs.

pub mod amount;
pub mod byteops;
pub mod coefficient;
pub mod crypto;
pub mod errors;
pub mod hashing;
pub mod hexcodec;
pub mod merkle;
pub mod msg;
