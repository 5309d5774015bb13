//! The world: the population of giraffes, the environment's target values
//! and the generation counter. Evolution computes every organism's fitness
//! against the targets, builds a cumulative density table over the fitness
//! scores, samples parents fitness-proportionately and mates them into a
//! fresh population of the same size.
//!
//! Fitness is a fixed-point value in units of `1 / FITNESS_ONE`. For each
//! trait with target `t` and weight `w`, an organism whose phenotype is at
//! distance `delta` from the target scores `w * (t - delta) / t` when
//! `delta <= t` and zero otherwise; the total is the sum over the traits, so
//! an organism matching every target exactly scores `MAX_FITNESS`, the sum of
//! the weights.

use vstd::prelude::*;
use crate::giraffe::{speed_value, sum_genes, Giraffe};
use crate::mutation::calculate_mutation_rate;
use crate::options::Options;
use crate::rng::random_proportion;

verus! {

/// One unit of fitness: the score of a trait with weight 1.0 whose phenotype
/// matches its target exactly.
pub const FITNESS_ONE: u64 = 1000;

/// Weight of the color trait: 1.0 in fitness units.
pub const COLOR_WEIGHT: u64 = 1000;

/// Weight of the height trait: 1.5 in fitness units; height matters more
/// than color or speed.
pub const HEIGHT_WEIGHT: u64 = 1500;

/// Weight of the speed trait: 1.0 in fitness units.
pub const SPEED_WEIGHT: u64 = 1000;

/// The largest possible fitness: the sum of the trait weights, attained
/// exactly when every phenotype matches its target.
pub const MAX_FITNESS: u64 = 3500;

/// The world: a population, its environment and the generation index.
pub struct World {
    pub generation: u32,
    pub options: Options,
    pub tower: Vec<Giraffe>,
}

/// Distance between a phenotype and its target.
pub open spec fn abs_delta(phenotype: int, target: int) -> int {
    if phenotype >= target {
        phenotype - target
    } else {
        target - phenotype
    }
}

/// One trait's contribution to fitness: a score that peaks at the full
/// weight when the phenotype matches the target, degrades linearly with
/// distance normalized by the target's own magnitude, and floors at zero
/// once the distance exceeds the target.
pub open spec fn partial_fitness(phenotype: int, target: int, weight: int) -> int {
    let delta = abs_delta(phenotype, target);
    if delta <= target {
        (weight * (target - delta)) / target
    } else {
        0
    }
}

/// The decoded color phenotype of a giraffe.
pub open spec fn color_phenotype(g: Giraffe) -> int {
    sum_genes(g.color@)
}

/// The decoded height phenotype: legs plus neck.
pub open spec fn height_phenotype(g: Giraffe) -> int {
    sum_genes(g.legs@) + sum_genes(g.neck@)
}

/// The decoded speed phenotype.
pub open spec fn speed_phenotype(g: Giraffe) -> int {
    speed_value(sum_genes(g.legs@), sum_genes(g.neck@))
}

/// An organism's fitness against the environment: the weighted sum of the
/// per-trait scores.
pub open spec fn fitness(options: Options, g: Giraffe) -> int {
    partial_fitness(color_phenotype(g), options.color as int, COLOR_WEIGHT as int)
        + partial_fitness(height_phenotype(g), options.tree_height as int, HEIGHT_WEIGHT as int)
        + partial_fitness(speed_phenotype(g), options.lion_speed as int, SPEED_WEIGHT as int)
}

/// A per-trait score lies between zero and the trait's weight, and attains
/// the weight exactly when the phenotype matches the target.
pub proof fn lemma_partial_fitness_bounds(phenotype: int, target: int, weight: int)
    requires
        target >= 1,
        weight >= 0,
    ensures
        0 <= partial_fitness(phenotype, target, weight) <= weight,
        phenotype == target ==> partial_fitness(phenotype, target, weight) == weight,
{
    let delta = abs_delta(phenotype, target);
    if delta <= target {
        let numerator = weight * (target - delta);
        assert(0 <= weight * (target - delta) && weight * (target - delta) <= weight * target)
            by (nonlinear_arith)
            requires
                0 <= delta <= target,
                weight >= 0,
        ;
        vstd::arithmetic::div_mod::lemma_div_pos_is_pos(numerator, target);
        vstd::arithmetic::div_mod::lemma_div_is_ordered(numerator, weight * target, target);
        assert(weight * target == target * weight) by (nonlinear_arith);
        vstd::arithmetic::div_mod::lemma_div_multiples_vanish(weight, target);
        if delta == 0 {
            assert(numerator == weight * target);
        }
    }
}

/// Fitness is non-negative for every phenotype, target and weight
/// combination, at most the sum of the weights, and maximal exactly when
/// every phenotype matches its target.
pub proof fn lemma_fitness_bounds(options: Options, g: Giraffe)
    requires
        options.wf(),
    ensures
        0 <= fitness(options, g) <= MAX_FITNESS,
        (color_phenotype(g) == options.color && height_phenotype(g) == options.tree_height
            && speed_phenotype(g) == options.lion_speed) ==> fitness(options, g) == MAX_FITNESS,
{
    lemma_partial_fitness_bounds(color_phenotype(g), options.color as int, COLOR_WEIGHT as int);
    lemma_partial_fitness_bounds(
        height_phenotype(g),
        options.tree_height as int,
        HEIGHT_WEIGHT as int,
    );
    lemma_partial_fitness_bounds(
        speed_phenotype(g),
        options.lion_speed as int,
        SPEED_WEIGHT as int,
    );
}

/// One trait's score on the exact integers.
pub fn calculate_partial_fitness(phenotype: u32, target: u32, weight: u64) -> (f: u64)
    requires
        target >= 1,
        weight <= 0xFFFFFFFF,
    ensures
        f == partial_fitness(phenotype as int, target as int, weight as int),
        f <= weight,
{
    let delta: u32 = if phenotype >= target {
        phenotype - target
    } else {
        target - phenotype
    };
    if delta <= target {
        let remainder: u64 = (target - delta) as u64;
        assert(weight * remainder <= 0xFFFFFFFFu64 * 0xFFFFFFFFu64) by (nonlinear_arith)
            requires
                0 <= weight <= 0xFFFFFFFFu64,
                0 <= remainder <= 0xFFFFFFFFu64,
        ;
        proof {
            lemma_partial_fitness_bounds(phenotype as int, target as int, weight as int);
        }
        weight * remainder / (target as u64)
    } else {
        0
    }
}

/// An organism's fitness against the environment's targets.
pub fn calculate_fitness(options: &Options, giraffe: &Giraffe) -> (f: u64)
    requires
        options.wf(),
        giraffe.wf(),
    ensures
        f == fitness(*options, *giraffe),
        f <= MAX_FITNESS,
{
    let color_score = calculate_partial_fitness(giraffe.color(), options.color, COLOR_WEIGHT);
    let height_score = calculate_partial_fitness(
        giraffe.height(),
        options.tree_height,
        HEIGHT_WEIGHT,
    );
    let speed_score = calculate_partial_fitness(giraffe.speed(), options.lion_speed, SPEED_WEIGHT);
    color_score + height_score + speed_score
}

/// The fitness of every organism in the tower, against the same environment
/// snapshot.
pub fn calculate_fitnesses(world: &World, tower: &Vec<Giraffe>) -> (f: Vec<u64>)
    requires
        world.options.wf(),
        forall|i: int| 0 <= i < tower.len() ==> (#[trigger] tower[i]).wf(),
    ensures
        f.len() == tower.len(),
        forall|i: int| 0 <= i < f.len()
            ==> f[i] == fitness(world.options, tower[i]) && f[i] <= MAX_FITNESS,
{
    let mut f: Vec<u64> = Vec::new();
    let mut i: usize = 0;
    while i < tower.len()
        invariant
            world.options.wf(),
            forall|j: int| 0 <= j < tower.len() ==> (#[trigger] tower[j]).wf(),
            i <= tower.len(),
            f.len() == i,
            forall|j: int| 0 <= j < i
                ==> f[j] == fitness(world.options, tower[j]) && f[j] <= MAX_FITNESS,
        decreases tower.len() - i,
    {
        f.push(calculate_fitness(&world.options, &tower[i]));
        i += 1;
    }
    f
}

/// The sum of a fitness vector.
pub open spec fn total_fitness(f: Seq<u64>) -> int
    decreases f.len(),
{
    if f.len() == 0 {
        0
    } else {
        total_fitness(f.drop_last()) + f.last()
    }
}

/// Extending a prefix by one element adds that element to its sum.
pub proof fn lemma_take_succ(f: Seq<u64>, i: int)
    requires
        0 <= i < f.len(),
    ensures
        total_fitness(f.take(i + 1)) == total_fitness(f.take(i)) + f[i],
{
    assert(f.take(i + 1).drop_last() =~= f.take(i));
    assert(f.take(i + 1).last() == f[i]);
}

/// A fitness sum is non-negative.
pub proof fn lemma_total_fitness_nonneg(f: Seq<u64>)
    ensures
        total_fitness(f) >= 0,
    decreases f.len(),
{
    if f.len() > 0 {
        lemma_total_fitness_nonneg(f.drop_last());
    }
}

/// A prefix sums to no more than the whole.
pub proof fn lemma_prefix_bounded(f: Seq<u64>, i: int)
    requires
        0 <= i <= f.len(),
    ensures
        total_fitness(f.take(i)) <= total_fitness(f),
    decreases f.len() - i,
{
    if i < f.len() {
        lemma_take_succ(f, i);
        lemma_prefix_bounded(f, i + 1);
    } else {
        assert(f.take(i) =~= f);
    }
}

/// A vector of scores each at most `bound` sums to at most `bound` per
/// element.
pub proof fn lemma_total_fitness_bounded(f: Seq<u64>, bound: int)
    requires
        forall|i: int| 0 <= i < f.len() ==> f[i] <= bound,
    ensures
        total_fitness(f) <= bound * f.len(),
    decreases f.len(),
{
    if f.len() == 0 {
    } else {
        assert(forall|i: int| 0 <= i < f.drop_last().len() ==> f.drop_last()[i] <= bound);
        lemma_total_fitness_bounded(f.drop_last(), bound);
        assert(f.last() <= bound);
        assert(bound * (f.len() - 1) + bound == bound * f.len()) by (nonlinear_arith);
    }
}

/// A well-formed cumulative density table: the first interval starts at
/// zero, each interval's upper bound is the next one's lower bound, and the
/// last interval is widened by one fitness unit beyond the true cumulative
/// total so that the largest possible sample still falls inside it.
pub open spec fn cds_wf(s: Seq<(u64, u64)>) -> bool {
    &&& s.len() >= 1
    &&& s[0].0 == 0
    &&& forall|i: int| 0 <= i < s.len() - 1
        ==> (#[trigger] s[i]).0 <= s[i].1 && s[i + 1].0 == s[i].1
    &&& s[s.len() - 1].0 + FITNESS_ONE <= s[s.len() - 1].1
}

/// The true cumulative fitness total of a table: the last upper bound minus
/// the widening unit.
pub open spec fn selection_total(s: Seq<(u64, u64)>) -> int {
    s[s.len() - 1].1 - FITNESS_ONE
}

/// The sample `draw/255 * total` falls in interval `i`, compared exactly on
/// the cross-multiplied integers.
pub open spec fn interval_contains(s: Seq<(u64, u64)>, i: int, draw: u8) -> bool {
    &&& 255 * s[i].0 <= draw * selection_total(s)
    &&& draw * selection_total(s) <= 255 * s[i].1
}

/// Builds the cumulative density table of a fitness vector: interval `i`
/// spans the cumulative fitness mass below organism `i` up to the mass
/// including it, and the last interval is widened by one fitness unit.
pub fn generate_cumulative_densities(fitnesses: &Vec<u64>) -> (cds: Vec<(u64, u64)>)
    requires
        fitnesses.len() >= 1,
        total_fitness(fitnesses@) + FITNESS_ONE <= u64::MAX,
    ensures
        cds.len() == fitnesses.len(),
        forall|i: int| 0 <= i < cds.len() ==> (#[trigger] cds[i]).0 == total_fitness(
            fitnesses@.take(i),
        ),
        forall|i: int| 0 <= i < cds.len() ==> (#[trigger] cds[i]).1 == total_fitness(
            fitnesses@.take(i + 1),
        ) + (if i == cds.len() - 1 { FITNESS_ONE as int } else { 0 }),
        cds_wf(cds@),
        selection_total(cds@) == total_fitness(fitnesses@),
{
    let n = fitnesses.len();
    let mut cds: Vec<(u64, u64)> = Vec::new();
    let mut total: u64 = 0;
    let mut i: usize = 0;
    proof {
        lemma_total_fitness_nonneg(fitnesses@);
    }
    while i < n
        invariant
            n == fitnesses.len(),
            n >= 1,
            total_fitness(fitnesses@) + FITNESS_ONE <= u64::MAX,
            total_fitness(fitnesses@) >= 0,
            i <= n,
            cds.len() == i,
            total == total_fitness(fitnesses@.take(i as int)),
            forall|j: int| 0 <= j < i ==> (#[trigger] cds[j]).0 == total_fitness(
                fitnesses@.take(j),
            ),
            forall|j: int| 0 <= j < i ==> (#[trigger] cds[j]).1 == total_fitness(
                fitnesses@.take(j + 1),
            ) + (if j == n - 1 { FITNESS_ONE as int } else { 0 }),
        decreases n - i,
    {
        proof {
            lemma_take_succ(fitnesses@, i as int);
            lemma_prefix_bounded(fitnesses@, i as int + 1);
            lemma_total_fitness_nonneg(fitnesses@.take(i as int));
        }
        let first = total;
        total = total + fitnesses[i];
        let second = if i == n - 1 {
            total + FITNESS_ONE
        } else {
            total
        };
        cds.push((first, second));
        i += 1;
    }
    proof {
        assert(fitnesses@.take(n as int) =~= fitnesses@);
        assert forall|j: int| 0 <= j < n - 1 implies (#[trigger] cds@[j]).0 <= cds@[j].1
            && cds@[j + 1].0 == cds@[j].1 by {
            lemma_take_succ(fitnesses@, j);
            lemma_total_fitness_nonneg(fitnesses@.take(j));
        }
        assert(cds@[0].0 == total_fitness(fitnesses@.take(0)) == 0);
        assert(cds@[n - 1].0 + FITNESS_ONE <= cds@[n - 1].1) by {
            lemma_take_succ(fitnesses@, n - 1 as int);
        }
    }
    cds
}

/// Lower and upper bounds are non-decreasing along a well-formed table.
proof fn lemma_cds_monotonic_pair(s: Seq<(u64, u64)>, i: int, j: int)
    requires
        cds_wf(s),
        0 <= i <= j < s.len(),
    ensures
        s[i].0 <= s[j].0,
        s[i].1 <= s[j].1,
        s[i].0 <= s[i].1,
    decreases j - i,
{
    if i == j {
        if i == s.len() - 1 {
            assert(s[i].0 + FITNESS_ONE <= s[i].1);
        }
    } else {
        lemma_cds_monotonic_pair(s, i, j - 1);
        assert(s[j].0 == s[j - 1].1);
        if j == s.len() - 1 {
            assert(s[j].0 + FITNESS_ONE <= s[j].1);
        }
    }
}

/// Any sample value at most `255 * s[k].1` falls in some interval up to `k`.
proof fn lemma_exists_containing(s: Seq<(u64, u64)>, sv: int, k: int)
    requires
        cds_wf(s),
        0 <= k < s.len(),
        0 <= sv,
        sv <= 255 * s[k].1,
    ensures
        exists|i: int| 0 <= i <= k && 255 * (#[trigger] s[i]).0 <= sv && sv <= 255 * s[i].1,
    decreases k,
{
    if 255 * s[k].0 <= sv {
        assert(0 <= k <= k && 255 * s[k].0 <= sv && sv <= 255 * s[k].1);
    } else {
        assert(k > 0) by {
            if k == 0 {
                assert(s[0].0 == 0);
            }
        }
        assert(s[k].0 == s[k - 1].1);
        lemma_exists_containing(s, sv, k - 1);
    }
}

/// Samples one interval of the cumulative density table: the sample value is
/// the proportion draw times the true cumulative total, and the returned
/// index is the interval containing it. A table whose total is zero (every
/// organism at fitness zero) deterministically selects index zero. The
/// index is always inside the population.
pub fn select_index(cds: &Vec<(u64, u64)>, draw: u8) -> (index: usize)
    requires
        cds_wf(cds@),
    ensures
        index < cds.len(),
        selection_total(cds@) == 0 ==> index == 0,
        selection_total(cds@) != 0 ==> interval_contains(cds@, index as int, draw),
{
    let n = cds.len();
    let last_high: u64 = cds[n - 1].1;
    proof {
        lemma_cds_monotonic_pair(cds@, 0, n - 1 as int);
    }
    let total: u64 = last_high - FITNESS_ONE;
    if total == 0 {
        return 0;
    }

    assert((draw as u128) * (total as u128) <= 255 * (total as u128)) by (nonlinear_arith)
        requires
            draw <= 255,
    ;
    let sv: u128 = (draw as u128) * (total as u128);
    let ghost svi: int = draw as int * selection_total(cds@);
    proof {
        assert(sv as int == svi);
        assert(svi <= 255 * (cds@[n - 1].1 as int));
        lemma_exists_containing(cds@, svi, n - 1 as int);
        assert forall|i: int, j: int| 0 <= i <= j < n implies (#[trigger] cds@[i]).0
            <= (#[trigger] cds@[j]).0 && cds@[i].1 <= cds@[j].1 by {
            lemma_cds_monotonic_pair(cds@, i, j);
        }
    }

    let mut lo: usize = 0;
    let mut hi: usize = n;
    while lo < hi
        invariant
            n == cds.len(),
            cds_wf(cds@),
            lo <= hi <= n,
            sv as int == svi,
            svi == draw as int * selection_total(cds@),
            selection_total(cds@) != 0,
            exists|i: int| lo <= i < hi && 255 * (#[trigger] cds@[i]).0 <= svi && svi <= 255
                * cds@[i].1,
            forall|i: int, j: int| 0 <= i <= j < n ==> (#[trigger] cds@[i]).0
                <= (#[trigger] cds@[j]).0 && cds@[i].1 <= cds@[j].1,
        decreases hi - lo,
    {
        let mid = lo + (hi - lo) / 2;
        let low: u64 = cds[mid].0;
        let high: u64 = cds[mid].1;
        if 255 * (low as u128) > sv {
            hi = mid;
        } else if sv > 255 * (high as u128) {
            lo = mid + 1;
        } else {
            return mid;
        }
    }
    proof {
        assert(false);
    }
    0
}

/// Samples one giraffe from the tower, fitness-proportionately through the
/// cumulative density table. The result is always an organism of the tower.
pub fn select_giraffe<'a>(cds: &Vec<(u64, u64)>, tower: &'a Vec<Giraffe>) -> (g: &'a Giraffe)
    requires
        cds_wf(cds@),
        tower.len() == cds.len(),
    ensures
        exists|i: int| 0 <= i < tower.len() && *g == #[trigger] tower[i],
{
    let draw = random_proportion();
    let index = select_index(cds, draw);
    let g = &tower[index];
    proof {
        assert(0 <= index < tower@.len() && *g == tower@[index as int]);
    }
    g
}

impl World {
    /// A well-formed world: valid options, a non-empty population of
    /// bounded size, every organism well-formed.
    pub open spec fn wf(self) -> bool {
        &&& self.options.wf()
        &&& 1 <= self.tower.len() <= 0xFFFFFFFF
        &&& forall|i: int| 0 <= i < self.tower.len() ==> (#[trigger] self.tower[i]).wf()
    }

    /// Generation zero: a randomly initialized population of the configured
    /// herd size.
    pub fn new(options: Options) -> (w: World)
        requires
            options.wf(),
        ensures
            w.wf(),
            w.generation == 0,
            w.options == options,
            w.tower.len() == options.herd_size as int,
    {
        let size = options.herd_size as usize;
        let mut tower: Vec<Giraffe> = Vec::new();
        let mut i: usize = 0;
        while i < size
            invariant
                i <= size,
                tower.len() == i,
                forall|j: int| 0 <= j < i ==> (#[trigger] tower[j]).wf(),
            decreases size - i,
        {
            tower.push(Giraffe::random());
            i += 1;
        }
        World::new_from_tower(tower, options)
    }

    /// Generation zero over a given population.
    pub fn new_from_tower(tower: Vec<Giraffe>, options: Options) -> (w: World)
        requires
            options.wf(),
            1 <= tower.len() <= 0xFFFFFFFF,
            forall|i: int| 0 <= i < tower.len() ==> (#[trigger] tower[i]).wf(),
        ensures
            w.wf(),
            w.generation == 0,
            w.options == options,
            w.tower@ == tower@,
    {
        World { generation: 0, options, tower }
    }

    /// One generational step: computes the effective mutation rate for the
    /// generation being produced, scores every organism against the same
    /// environment snapshot, builds the cumulative density table, samples two
    /// parents per offspring slot (with replacement; self-mating is allowed)
    /// and mates them, then rarely drifts the tree-height target. The new
    /// population has exactly the old one's size and the generation counter
    /// goes up by one; every other option is kept, and the tree height either
    /// stays or drifts into the range 500..=2000.
    pub fn evolve(&self) -> (w: World)
        requires
            self.wf(),
            self.generation < u32::MAX,
        ensures
            w.wf(),
            w.generation == self.generation + 1,
            w.tower.len() == self.tower.len(),
            w.options.blending_mode == self.options.blending_mode,
            w.options.color == self.options.color,
            w.options.lion_speed == self.options.lion_speed,
            w.options.mutation_decay == self.options.mutation_decay,
            w.options.mutation_rate == self.options.mutation_rate,
            w.options.simulation_length == self.options.simulation_length,
            w.options.herd_size == self.options.herd_size,
            w.options.tree_height == self.options.tree_height || (500 <= w.options.tree_height
                <= 2000),
    {
        let mutation_rate = calculate_mutation_rate(
            self.options.mutation_decay,
            &self.options.mutation_rate,
            self.generation + 1,
            self.options.simulation_length,
        );

        let fitnesses = calculate_fitnesses(self, &self.tower);
        proof {
            lemma_total_fitness_nonneg(fitnesses@);
            lemma_total_fitness_bounded(fitnesses@, MAX_FITNESS as int);
            assert(MAX_FITNESS * fitnesses@.len() <= MAX_FITNESS * 0x100000000)
                by (nonlinear_arith)
                requires
                    0 <= fitnesses@.len() <= 0x100000000,
            ;
        }
        let cds = generate_cumulative_densities(&fitnesses);

        let size = self.tower.len();
        let mut tower: Vec<Giraffe> = Vec::new();
        let mut i: usize = 0;
        while i < size
            invariant
                cds_wf(cds@),
                cds.len() == self.tower.len(),
                forall|j: int| 0 <= j < self.tower.len() ==> (#[trigger] self.tower[j]).wf(),
                mutation_rate.wf(),
                i <= size,
                tower.len() == i,
                forall|j: int| 0 <= j < i ==> (#[trigger] tower[j]).wf(),
            decreases size - i,
        {
            let giraffe1 = select_giraffe(&cds, &self.tower);
            let giraffe2 = select_giraffe(&cds, &self.tower);
            let child = Giraffe::mate(giraffe1, giraffe2, &mutation_rate, self.options.blending_mode);
            tower.push(child);
            i += 1;
        }

        let drift = random_proportion();
        let tree_height: u32 = if drift == 0 {
            let h = random_proportion();
            (h as u32) * 1500 / 255 + 500
        } else {
            self.options.tree_height
        };

        World {
            generation: self.generation + 1,
            options: Options { tree_height, ..self.options },
            tower,
        }
    }
}

} // verus!
