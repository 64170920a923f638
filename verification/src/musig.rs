//! Two-party aggregation of Schnorr signatures with per-signer
//! coefficients.
pub mod aggregation;
pub mod signature;
