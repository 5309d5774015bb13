//! Run configuration: environment targets, population size, mutation rate
//! and decay, blending mode and simulation length, consolidated into one
//! value that is built once at startup and passed into every world-level
//! call.

use vstd::prelude::*;
use crate::blending::BlendingMode;
use crate::mutation::{MutationDecay, Rate};

verus! {

/// The recognized options of a run.
#[derive(Clone, Copy, PartialEq, Eq, Structural, Debug)]
pub struct Options {
    pub blending_mode: BlendingMode,
    pub color: u32,
    pub lion_speed: u32,
    pub mutation_decay: MutationDecay,
    pub mutation_rate: Rate,
    pub simulation_length: u32,
    pub herd_size: u16,
    pub tree_height: u32,
}

impl Options {
    /// A valid configuration: every environment target is positive (fitness
    /// normalizes by the target, so a zero target is a configuration error),
    /// the population is non-empty, the simulation has at least one
    /// generation, and the mutation rate is a well-formed fraction.
    pub open spec fn wf(self) -> bool {
        &&& self.color >= 1
        &&& self.lion_speed >= 1
        &&& self.tree_height >= 1
        &&& self.simulation_length >= 1
        &&& self.herd_size >= 1
        &&& self.mutation_rate.wf()
    }

    /// Checks validity, for callers that take a configuration from outside.
    pub fn is_valid(&self) -> (b: bool)
        ensures
            b == self.wf(),
    {
        self.color >= 1 && self.lion_speed >= 1 && self.tree_height >= 1
            && self.simulation_length >= 1 && self.herd_size >= 1
            && self.mutation_rate.den >= 1
            && self.mutation_rate.den <= 0xFFFFFFFF
            && self.mutation_rate.num <= 100 * self.mutation_rate.den
    }
}

impl Default for Options {
    /// The stock configuration: one-point crossover, no decay, a base
    /// mutation rate of 1/1000 percent, a herd of 1000 over 1500 generations,
    /// trees of height 1500, lions of speed 500 and an ambient color of 500.
    fn default() -> (o: Options)
        ensures
            o.blending_mode == BlendingMode::OnePointCrossover,
            o.color == 500,
            o.lion_speed == 500,
            o.mutation_decay == MutationDecay::Constant,
            o.mutation_rate.num == 1,
            o.mutation_rate.den == 1000,
            o.simulation_length == 1500,
            o.herd_size == 1000,
            o.tree_height == 1500,
            o.wf(),
    {
        Options {
            blending_mode: BlendingMode::OnePointCrossover,
            color: 500,
            lion_speed: 500,
            mutation_decay: MutationDecay::Constant,
            mutation_rate: Rate { num: 1, den: 1000 },
            simulation_length: 1500,
            herd_size: 1000,
            tree_height: 1500,
        }
    }
}

} // verus!
