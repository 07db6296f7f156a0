//! Evolving populations of small feedforward neural networks with a genetic
//! algorithm: a network evaluator with seeded random initialization, and a
//! generic driver implementing selection, crossover, mutation and
//! generational replacement over chromosomes that encode network weights.
//!
//! Every scalar (gene, weight, bias, signal) is a fixed-point number: an
//! `i64` counted in millionths, so that arithmetic is exact and verified.

pub mod chromosome;
pub mod genetic;
pub mod neural;
pub mod rng;
pub mod scalar;
