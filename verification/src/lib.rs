//! A neuroevolution core: a genetic algorithm over fixed-length gene vectors
//! together with a small feedforward neural network whose weights round-trip
//! losslessly through that gene representation.
//!
//! Every scalar (gene, weight, bias, fitness) is an IEEE binary32 value and is
//! carried throughout the crate as its raw bit pattern (`u32`). Structure —
//! gene provenance, lengths, orderings, the flatten/restore protocol — is
//! verified; the arithmetic itself is delegated to IEEE-faithful software
//! floating point behind a handful of trusted wrappers.

pub mod arith;
pub mod chromosome;
pub mod crossover;
pub mod engine;
pub mod ieee;
pub mod individual;
pub mod mutation;
pub mod network;
pub mod rng;
pub mod selection;
pub mod statistics;
