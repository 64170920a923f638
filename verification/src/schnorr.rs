//! Schnorr signatures over the base point of the curve.
pub mod hash;
pub mod private;
pub mod public;
pub mod signature;
