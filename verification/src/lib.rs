//! A rank-1 constraint system for the cubic relation `out = x^3 + x + 5`,
//! with a verified synthesis contract and a Groth16 proof lifecycle around it.
//!
//! The circuit-description layer is verified: allocating the variables,
//! recording the bilinear constraints, and the dual-mode behaviour of the
//! sink (lenient during setup, strict during proving).  The finite-field
//! engine and the pairing-based proof backend are outside collaborators,
//! reached through a small set of trusted wrappers.

pub mod cube;
pub mod field;
pub mod lifecycle;
pub mod r1cs;
