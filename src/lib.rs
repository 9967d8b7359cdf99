//! Variational Monte Carlo engine: the discrete parts of the simulation
//! (dimensionality rules, the orbital table, Hermite coefficients, the
//! Markov-chain bookkeeping) with their contracts.
pub mod error;
pub mod dim;
pub mod chain;
pub mod orbitals;
pub mod hermite;
pub mod sampling;
pub mod matrix;
pub mod setup;
