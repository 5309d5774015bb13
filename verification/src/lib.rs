//! A generational evolutionary simulation: a population of giraffes, each
//! encoded as fixed-length byte genomes, evolves under an environment that
//! rewards phenotypes close to target values (tree height, predator speed,
//! coloration). Selection is fitness-proportionate over a cumulative density
//! table; reproduction mutates each parent's genomes and blends them with a
//! configurable crossover strategy.
//!
//! All stochastic decisions are driven by uniform byte draws, so every
//! proportion has exactly 256 possible outcomes and the arithmetic on
//! proportions, rates and fitness scores is exact integer arithmetic:
//! a proportion is a numerator over 255, a mutation rate an exact fraction on
//! the 0..=100 percent scale, and a fitness score a fixed-point value in units
//! of 1/1000 (see `world::FITNESS_ONE`).

pub mod blending;
pub mod giraffe;
pub mod mutation;
pub mod options;
pub mod rng;
pub mod simulation;
pub mod world;
