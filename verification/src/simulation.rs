//! An earlier variant of the evolution step, kept as a selectable engine: it
//! scores organisms on the height trait alone and compresses the fitness
//! range so no single extreme dominates selection. Each organism's distance
//! to the tree-height target is compared with the population's worst
//! distance, and fitness is the sixth root (a cube root followed by a square
//! root) of the headroom, applied uniformly to every organism before the
//! cumulative density table is built. Mating mutates both parents at the
//! base rate, with no decay, and blends uniformly.
//!
//! The sixth root is taken in the fixed-point fitness scale: the headroom is
//! scaled by `FITNESS_ONE` to the sixth power and the root rounded down, so
//! a headroom of one scores exactly `FITNESS_ONE`.

use vstd::prelude::*;
use crate::blending::BlendingMode;
use crate::giraffe::Giraffe;
use crate::mutation::EffectiveRate;
use crate::options::Options;
use crate::rng::random_proportion;
use crate::world::{
    abs_delta, cds_wf, generate_cumulative_densities, height_phenotype,
    lemma_total_fitness_bounded, lemma_total_fitness_nonneg, select_giraffe, World,
};

verus! {

/// `FITNESS_ONE` to the sixth power: the scale on which the sixth root is
/// taken.
pub const FITNESS_SCALE_SIXTH: u128 = 1000000000000000000;

/// An upper bound on any compressed fitness score: the sixth power of
/// anything larger exceeds every scaled headroom the genome can produce.
pub const COMPRESSED_FITNESS_BOUND: u64 = 40960;

/// The world this variant starts from: a randomly initialized population
/// under the stock configuration (a herd of 1000 under trees of height
/// 1500, at the base mutation rate of 1/1000 percent).
pub fn build_initial_world() -> (w: World)
    ensures
        w.wf(),
        w.generation == 0,
        w.tower.len() == 1000,
        w.options.tree_height == 1500,
{
    World::new(Options::default())
}

/// The sixth power of an integer.
pub open spec fn pow6(x: int) -> int {
    x * x * x * x * x * x
}

/// The sixth power is monotonic over the non-negative integers.
proof fn lemma_pow6_monotonic(a: int, b: int)
    requires
        0 <= a <= b,
    ensures
        pow6(a) <= pow6(b),
{
    assert(a * a * a * a * a * a <= b * b * b * b * b * b) by (nonlinear_arith)
        requires
            0 <= a <= b,
    ;
}

/// The sixth root of `x`, rounded down: the unique `r` with
/// `pow6(r) <= x < pow6(r + 1)`.
pub fn sixth_root(x: u128) -> (r: u64)
    requires
        x < 0x40000000000000000000000000000000,
    ensures
        pow6(r as int) <= x < pow6(r as int + 1),
{
    let mut lo: u64 = 0;
    let mut hi: u64 = 0x200000;
    proof {
        assert(pow6(0x200000) == 0x40000000000000000000000000000000);
    }
    while lo + 1 < hi
        invariant
            lo < hi <= 0x200000,
            pow6(lo as int) <= x,
            x < pow6(hi as int),
        decreases hi - lo,
    {
        let mid: u64 = lo + (hi - lo) / 2;
        assert(0 < mid < 0x200000);
        let m: u128 = mid as u128;
        assert(m * m < 0x40000000000000000000000000000000
            && m * m * m < 0x40000000000000000000000000000000
            && (m * m * m) * (m * m * m) <= 0x40000000000000000000000000000000
            && (m * m * m) * (m * m * m) == pow6(m as int)) by (nonlinear_arith)
            requires
                0 < m < 0x200000,
        ;
        let m3: u128 = m * m * m;
        let m6: u128 = m3 * m3;
        if m6 <= x {
            lo = mid;
        } else {
            hi = mid;
        }
    }
    proof {
        assert(lo as int + 1 == hi as int);
    }
    lo
}

/// How far an organism's height lies from the tree-height target.
pub fn calculate_tree_delta(world: &World, giraffe: &Giraffe) -> (d: u32)
    requires
        giraffe.wf(),
    ensures
        d == abs_delta(height_phenotype(*giraffe), world.options.tree_height as int),
{
    let height = giraffe.height();
    if world.options.tree_height >= height {
        world.options.tree_height - height
    } else {
        height - world.options.tree_height
    }
}

/// The population's worst distance to the tree-height target.
pub open spec fn max_tree_delta(options: Options, tower: Seq<Giraffe>) -> int
    decreases tower.len(),
{
    if tower.len() == 0 {
        0
    } else {
        let rest = max_tree_delta(options, tower.drop_last());
        let last = abs_delta(height_phenotype(tower.last()), options.tree_height as int);
        if last >= rest {
            last
        } else {
            rest
        }
    }
}

/// No organism's distance exceeds the population's worst.
proof fn lemma_max_tree_delta_bounds(options: Options, tower: Seq<Giraffe>, j: int)
    requires
        0 <= j < tower.len(),
    ensures
        abs_delta(height_phenotype(tower[j]), options.tree_height as int) <= max_tree_delta(
            options,
            tower,
        ),
    decreases tower.len(),
{
    if j < tower.len() - 1 {
        lemma_max_tree_delta_bounds(options, tower.drop_last(), j);
    }
}

/// Extending a population by one organism takes the larger of the worst
/// distance so far and the newcomer's.
proof fn lemma_max_tree_delta_take_succ(options: Options, tower: Seq<Giraffe>, i: int)
    requires
        0 <= i < tower.len(),
    ensures
        max_tree_delta(options, tower.take(i + 1)) == {
            let rest = max_tree_delta(options, tower.take(i));
            let this = abs_delta(height_phenotype(tower[i]), options.tree_height as int);
            if this >= rest {
                this
            } else {
                rest
            }
        },
{
    assert(tower.take(i + 1).drop_last() =~= tower.take(i));
    assert(tower.take(i + 1).last() == tower[i]);
}

/// The compressed fitness of every organism: the sixth root, in the
/// fixed-point fitness scale, of how far below the population's worst
/// tree-height distance the organism's own distance lies. The organism
/// farthest from the target scores zero; every score is the exact rounded
/// root of its scaled headroom.
pub fn calculate_fitnesses(world: &World, tower: &Vec<Giraffe>) -> (f: Vec<u64>)
    requires
        forall|i: int| 0 <= i < tower.len() ==> (#[trigger] tower[i]).wf(),
    ensures
        f.len() == tower.len(),
        forall|i: int| 0 <= i < f.len() ==> {
            let headroom = max_tree_delta(world.options, tower@) - abs_delta(
                height_phenotype(tower[i]),
                world.options.tree_height as int,
            );
            pow6(#[trigger] f[i] as int) <= headroom * FITNESS_SCALE_SIXTH < pow6(f[i] as int + 1)
        },
        forall|i: int| 0 <= i < f.len() ==> #[trigger] f[i] <= COMPRESSED_FITNESS_BOUND,
{
    let ghost opts = world.options;
    let mut deltas: Vec<u32> = Vec::new();
    let mut max_delta: u32 = 0;
    let mut i: usize = 0;
    while i < tower.len()
        invariant
            forall|j: int| 0 <= j < tower.len() ==> (#[trigger] tower[j]).wf(),
            opts == world.options,
            i <= tower.len(),
            deltas.len() == i,
            forall|j: int| 0 <= j < i ==> #[trigger] deltas[j] as int == abs_delta(
                height_phenotype(tower[j]),
                opts.tree_height as int,
            ),
            max_delta as int == max_tree_delta(opts, tower@.take(i as int)),
        decreases tower.len() - i,
    {
        proof {
            lemma_max_tree_delta_take_succ(opts, tower@, i as int);
        }
        let delta = calculate_tree_delta(world, &tower[i]);
        deltas.push(delta);
        if delta >= max_delta {
            max_delta = delta;
        }
        i += 1;
    }
    proof {
        assert(tower@.take(tower.len() as int) =~= tower@);
        assert forall|j: int| 0 <= j < deltas.len() implies #[trigger] deltas[j] as int
            <= max_delta as int by {
            lemma_max_tree_delta_bounds(opts, tower@, j);
        }
    }

    let mut f: Vec<u64> = Vec::new();
    let mut i: usize = 0;
    while i < deltas.len()
        invariant
            deltas.len() == tower.len(),
            opts == world.options,
            forall|j: int| 0 <= j < deltas.len() ==> #[trigger] deltas[j] as int == abs_delta(
                height_phenotype(tower[j]),
                opts.tree_height as int,
            ),
            max_delta as int == max_tree_delta(opts, tower@),
            forall|j: int| 0 <= j < deltas.len() ==> #[trigger] deltas[j] <= max_delta,
            i <= deltas.len(),
            f.len() == i,
            forall|j: int| 0 <= j < i ==> {
                let headroom = max_tree_delta(opts, tower@) - abs_delta(
                    height_phenotype(tower[j]),
                    opts.tree_height as int,
                );
                pow6(#[trigger] f[j] as int) <= headroom * FITNESS_SCALE_SIXTH < pow6(
                    f[j] as int + 1,
                )
            },
            forall|j: int| 0 <= j < i ==> #[trigger] f[j] <= COMPRESSED_FITNESS_BOUND,
        decreases deltas.len() - i,
    {
        let headroom: u128 = (max_delta - deltas[i]) as u128;
        assert(headroom * FITNESS_SCALE_SIXTH < 0x40000000000000000000000000000000)
            by (nonlinear_arith)
            requires
                0 <= headroom < 0x100000000,
                FITNESS_SCALE_SIXTH == 1000000000000000000,
        ;
        let score = sixth_root(headroom * FITNESS_SCALE_SIXTH);
        proof {
            if score > COMPRESSED_FITNESS_BOUND {
                lemma_pow6_monotonic(40961int, score as int);
                assert(pow6(40961) > 0x40000000000000000000000000000000);
            }
        }
        f.push(score);
        i += 1;
    }
    f
}

/// Mates two giraffes the earlier variant's way: both parents mutate at the
/// base mutation rate, with no decay, and blend by uniform crossover.
pub fn mate_giraffes(world: &World, giraffe1: &Giraffe, giraffe2: &Giraffe) -> (g: Giraffe)
    requires
        world.options.mutation_rate.wf(),
        giraffe1.wf(),
        giraffe2.wf(),
    ensures
        g.wf(),
{
    let rate = EffectiveRate::from_rate(&world.options.mutation_rate);
    Giraffe::mate(giraffe1, giraffe2, &rate, BlendingMode::UniformCrossover)
}

/// One generational step of the earlier variant: compressed height-only
/// fitness, fitness-proportionate selection, uniform-crossover mating at the
/// undecayed base rate, and the same rare tree-height drift. The population
/// size is preserved and the generation counter goes up by one.
pub fn evolve_world(world: World) -> (w: World)
    requires
        world.wf(),
        world.generation < u32::MAX,
    ensures
        w.wf(),
        w.generation == world.generation + 1,
        w.tower.len() == world.tower.len(),
        w.options.blending_mode == world.options.blending_mode,
        w.options.color == world.options.color,
        w.options.lion_speed == world.options.lion_speed,
        w.options.mutation_decay == world.options.mutation_decay,
        w.options.mutation_rate == world.options.mutation_rate,
        w.options.simulation_length == world.options.simulation_length,
        w.options.herd_size == world.options.herd_size,
        w.options.tree_height == world.options.tree_height || (500 <= w.options.tree_height
            <= 2000),
{
    let fitnesses = calculate_fitnesses(&world, &world.tower);
    proof {
        lemma_total_fitness_nonneg(fitnesses@);
        lemma_total_fitness_bounded(fitnesses@, COMPRESSED_FITNESS_BOUND as int);
        assert(COMPRESSED_FITNESS_BOUND * fitnesses@.len() <= COMPRESSED_FITNESS_BOUND * 0x100000000)
            by (nonlinear_arith)
            requires
                0 <= fitnesses@.len() <= 0x100000000,
        ;
    }
    let cds = generate_cumulative_densities(&fitnesses);

    let size = world.tower.len();
    let mut tower: Vec<Giraffe> = Vec::new();
    let mut i: usize = 0;
    while i < size
        invariant
            cds_wf(cds@),
            cds.len() == world.tower.len(),
            forall|j: int| 0 <= j < world.tower.len() ==> (#[trigger] world.tower[j]).wf(),
            world.options.mutation_rate.wf(),
            i <= size,
            tower.len() == i,
            forall|j: int| 0 <= j < i ==> (#[trigger] tower[j]).wf(),
        decreases size - i,
    {
        let giraffe1 = select_giraffe(&cds, &world.tower);
        let giraffe2 = select_giraffe(&cds, &world.tower);
        let child = mate_giraffes(&world, giraffe1, giraffe2);
        tower.push(child);
        i += 1;
    }

    let drift = random_proportion();
    let tree_height: u32 = if drift == 0 {
        let h = random_proportion();
        (h as u32) * 1500 / 255 + 500
    } else {
        world.options.tree_height
    };

    World {
        generation: world.generation + 1,
        options: Options { tree_height, ..world.options },
        tower,
    }
}

} // verus!
