//! Mutation: per-gene Bernoulli replacement driven by a mutation rate on the
//! 0..=100 percent scale, with optional decay of the rate over the
//! simulation's time horizon. Rates are exact fractions, never floating
//! point: a gene whose proportion draw is `p/255` mutates exactly when
//! `p/255 * 100 <= rate`, decided on the cross-multiplied integers.

use vstd::prelude::*;
use crate::rng::random_gene_draws;

verus! {

/// Decay schedule applied to the base mutation rate as generations pass.
#[derive(Clone, Copy, PartialEq, Eq, Structural, Debug)]
pub enum MutationDecay {
    Constant,
    Linear,
    Quadratic,
}

/// A base mutation rate: the exact fraction `num / den` on the 0..=100
/// percent scale.
#[derive(Clone, Copy, PartialEq, Eq, Structural, Debug)]
pub struct Rate {
    pub num: u64,
    pub den: u64,
}

impl Rate {
    /// The denominator is positive and small enough for the decay products to
    /// fit, and the rate is at most 100 percent.
    pub open spec fn wf(self) -> bool {
        &&& 1 <= self.den <= u32::MAX
        &&& self.num <= 100 * self.den
    }

    pub fn new(num: u64, den: u64) -> (r: Rate)
        requires
            1 <= den <= u32::MAX,
            num <= 100 * den,
        ensures
            r.num == num,
            r.den == den,
            r.wf(),
    {
        Rate { num, den }
    }
}

/// The effective per-generation rate after decay: the exact fraction
/// `num / den` on the percent scale. Past the simulation's horizon the
/// numerator can be negative, which simply means no gene ever mutates.
#[derive(Clone, Copy, PartialEq, Eq, Structural, Debug)]
pub struct EffectiveRate {
    pub num: i128,
    pub den: u128,
}

impl EffectiveRate {
    /// Bounds under which every comparison against a proportion draw fits in
    /// an i128: the denominator is a base denominator times at most the
    /// square of a generation count, and the numerator a base numerator times
    /// at most that square.
    pub open spec fn wf(self) -> bool {
        &&& 1 <= self.den <= 0x1000000000000000000000000u128
        &&& -0x80000000000000000000000000i128 <= self.num <= 100 * (self.den as int)
    }

    /// A base rate taken as-is, with no decay.
    pub fn from_rate(base: &Rate) -> (r: EffectiveRate)
        requires
            base.wf(),
        ensures
            r.num == base.num,
            r.den == base.den,
            r.wf(),
    {
        EffectiveRate { num: base.num as i128, den: base.den as u128 }
    }
}

/// A gene mutates when its proportion draw, scaled to the percent scale, is
/// at most the rate: `draw/255 * 100 <= num/den`, cross-multiplied.
pub open spec fn gene_mutates(draw: u8, num: int, den: int) -> bool {
    100 * draw * den <= 255 * num
}

/// Decides `gene_mutates` on the exact integers.
pub fn mutates(draw: u8, rate: &EffectiveRate) -> (m: bool)
    requires
        rate.wf(),
    ensures
        m == gene_mutates(draw, rate.num as int, rate.den as int),
{
    let lhs_factor: i128 = 100 * (draw as i128);
    assert(lhs_factor * rate.den <= 25500 * 0x1000000000000000000000000i128) by (nonlinear_arith)
        requires
            0 <= lhs_factor <= 25500,
            0 <= rate.den <= 0x1000000000000000000000000u128,
    ;
    assert(lhs_factor * rate.den >= 0) by (nonlinear_arith)
        requires
            lhs_factor >= 0,
            rate.den >= 0,
    ;
    lhs_factor * (rate.den as i128) <= 255 * rate.num
}

/// The chromosome after mutation: gene `i` is replaced by its drawn
/// replacement exactly when its proportion draw satisfies the rate.
pub open spec fn mutated_spec(c: Seq<u8>, draws: Seq<(u8, u8)>, num: int, den: int) -> Seq<u8> {
    Seq::new(c.len(), |i: int| if gene_mutates(draws[i].0, num, den) { draws[i].1 } else { c[i] })
}

/// Applies per-gene replacement mutation with the given draws: gene `i`
/// mutates to `draws[i].1` exactly when `draws[i].0` satisfies the rate,
/// and is kept unchanged otherwise.
pub fn apply_mutations_with(chromosome: &Vec<u8>, rate: &EffectiveRate, draws: &Vec<(u8, u8)>) -> (r: Vec<u8>)
    requires
        rate.wf(),
        draws.len() == chromosome.len(),
    ensures
        r.len() == chromosome.len(),
        r@ == mutated_spec(chromosome@, draws@, rate.num as int, rate.den as int),
{
    let ghost num: int = rate.num as int;
    let ghost den: int = rate.den as int;
    let mut r: Vec<u8> = Vec::new();
    let mut i: usize = 0;
    while i < chromosome.len()
        invariant
            rate.wf(),
            num == rate.num as int,
            den == rate.den as int,
            draws.len() == chromosome.len(),
            i <= chromosome.len(),
            r.len() == i,
            forall|j: int| 0 <= j < i
                ==> r[j] == (if gene_mutates(draws[j].0, num, den) { draws[j].1 } else { chromosome[j] }),
        decreases chromosome.len() - i,
    {
        let (p, replacement) = draws[i];
        if mutates(p, rate) {
            r.push(replacement);
        } else {
            r.push(chromosome[i]);
        }
        i += 1;
    }
    assert(r@ =~= mutated_spec(chromosome@, draws@, num, den));
    r
}

/// A negative effective rate mutates nothing: no proportion draw can satisfy
/// it, so the chromosome comes back unchanged.
pub proof fn lemma_negative_rate_is_inert(c: Seq<u8>, draws: Seq<(u8, u8)>, num: int, den: int)
    requires
        num < 0,
        den >= 1,
        draws.len() == c.len(),
    ensures
        mutated_spec(c, draws, num, den) == c,
{
    assert forall|i: int| 0 <= i < c.len() implies !gene_mutates(draws[i].0, num, den) by {
        assert(100 * draws[i].0 * den >= 0) by (nonlinear_arith)
            requires
                draws[i].0 >= 0,
                den >= 1,
        ;
        assert(255 * num < 0);
    }
    assert(mutated_spec(c, draws, num, den) =~= c);
}

/// At a rate of zero, a gene mutates only on the one proportion draw whose
/// numerator is zero; every positive draw leaves its gene untouched, so a
/// chromosome whose draws are all positive comes back unchanged.
pub proof fn lemma_zero_rate_keeps_genome(c: Seq<u8>, draws: Seq<(u8, u8)>, den: int)
    requires
        den >= 1,
        draws.len() == c.len(),
        forall|i: int| 0 <= i < draws.len() ==> draws[i].0 > 0,
    ensures
        mutated_spec(c, draws, 0, den) == c,
{
    assert forall|i: int| 0 <= i < c.len() implies !gene_mutates(draws[i].0, 0, den) by {
        assert(draws[i].0 > 0);
        assert(100 * draws[i].0 * den > 0) by (nonlinear_arith)
            requires
                draws[i].0 > 0,
                den >= 1,
        ;
    }
    assert(mutated_spec(c, draws, 0, den) =~= c);
}

/// At the full rate of 100 percent, every proportion draw satisfies the rate,
/// so every gene of the result is its freshly drawn replacement.
pub proof fn lemma_full_rate_redraws_genome(c: Seq<u8>, draws: Seq<(u8, u8)>, num: int, den: int)
    requires
        den >= 1,
        num == 100 * den,
        draws.len() == c.len(),
    ensures
        forall|i: int| 0 <= i < c.len() ==> mutated_spec(c, draws, num, den)[i] == draws[i].1,
{
    assert forall|i: int| 0 <= i < c.len() implies gene_mutates(draws[i].0, num, den) by {
        assert(100 * draws[i].0 * den <= 255 * (100 * den)) by (nonlinear_arith)
            requires
                0 <= draws[i].0 <= 255,
                den >= 1,
        ;
    }
}

/// Applies per-gene replacement mutation, drawing a proportion and a
/// replacement for each gene. Whatever the draws, the result has the
/// chromosome's length and is its gene-wise mutation under the rate; a
/// negative effective rate leaves the chromosome unchanged.
pub fn apply_mutations(chromosome: &Vec<u8>, rate: &EffectiveRate) -> (r: Vec<u8>)
    requires
        rate.wf(),
    ensures
        r.len() == chromosome.len(),
        exists|ds: Seq<(u8, u8)>|
            ds.len() == chromosome@.len()
                && r@ == mutated_spec(chromosome@, ds, rate.num as int, rate.den as int),
        rate.num < 0 ==> r@ == chromosome@,
{
    let draws = random_gene_draws(chromosome.len());
    let r = apply_mutations_with(chromosome, rate, &draws);
    proof {
        assert(draws@.len() == chromosome@.len()
            && r@ == mutated_spec(chromosome@, draws@, rate.num as int, rate.den as int));
        if rate.num < 0 {
            lemma_negative_rate_is_inert(chromosome@, draws@, rate.num as int, rate.den as int);
        }
    }
    r
}

/// The effective mutation rate for a generation, as an exact fraction.
///
/// - `Constant`: the base rate, unchanged.
/// - `Linear`: base * (1 - generation/length); zero at the final generation.
/// - `Quadratic`: base - (base/length^2) * generation^2, a downward parabola
///   from the base rate at generation zero to zero at the final generation.
///
/// Past the horizon (generation > length) the numerator goes negative, which
/// downstream means no gene ever mutates; that is intended, not an error.
pub fn calculate_mutation_rate(
    decay: MutationDecay,
    base_rate: &Rate,
    generation: u32,
    simulation_length: u32,
) -> (r: EffectiveRate)
    requires
        base_rate.wf(),
        simulation_length >= 1,
    ensures
        r.wf(),
        decay == MutationDecay::Constant ==> r.num == base_rate.num && r.den == base_rate.den,
        decay == MutationDecay::Linear ==> {
            &&& r.num == base_rate.num * (simulation_length - generation)
            &&& r.den == base_rate.den * simulation_length
        },
        decay == MutationDecay::Quadratic ==> {
            &&& r.num == base_rate.num
                * (simulation_length * simulation_length - generation * generation)
            &&& r.den == base_rate.den * (simulation_length * simulation_length)
        },
{
    match decay {
        MutationDecay::Constant => EffectiveRate::from_rate(base_rate),
        MutationDecay::Linear => {
            proof {
                lemma_decay_bounds(
                    base_rate.num as int,
                    base_rate.den as int,
                    simulation_length as int - generation as int,
                    simulation_length as int,
                );
            }
            let num: i128 = (base_rate.num as i128)
                * (simulation_length as i128 - generation as i128);
            let den: u128 = (base_rate.den as u128) * (simulation_length as u128);
            EffectiveRate { num, den }
        }
        MutationDecay::Quadratic => {
            proof {
                assert(0 <= generation as int * generation as int <= 0x10000000000000000)
                    by (nonlinear_arith)
                    requires
                        0 <= generation <= u32::MAX,
                ;
                assert(1 <= simulation_length as int * simulation_length as int
                    <= 0x10000000000000000) by (nonlinear_arith)
                    requires
                        1 <= simulation_length <= u32::MAX,
                ;
                lemma_decay_bounds(
                    base_rate.num as int,
                    base_rate.den as int,
                    simulation_length as int * simulation_length as int
                        - generation as int * generation as int,
                    simulation_length as int * simulation_length as int,
                );
            }
            let len2: i128 = (simulation_length as i128) * (simulation_length as i128);
            let gen2: i128 = (generation as i128) * (generation as i128);
            let num: i128 = (base_rate.num as i128) * (len2 - gen2);
            let den: u128 = (base_rate.den as u128) * (len2 as u128);
            EffectiveRate { num, den }
        }
    }
}

/// Bounds for a decayed rate `(base_num * scale_num) / (base_den * scale_den)`
/// where the scale is at most one and no smaller than minus the square of a
/// generation count: the products fit the effective-rate type and the rate
/// stays at most 100 percent.
proof fn lemma_decay_bounds(base_num: int, base_den: int, scale_num: int, scale_den: int)
    requires
        0 <= base_num <= 100 * base_den,
        1 <= base_den <= u32::MAX,
        1 <= scale_den <= 0x10000000000000000,
        -0x10000000000000000 <= scale_num <= scale_den,
    ensures
        1 <= base_den * scale_den <= 0x1000000000000000000000000,
        -0x80000000000000000000000000 <= base_num * scale_num,
        base_num * scale_num <= 100 * (base_den * scale_den),
{
    assert(1 <= base_den * scale_den <= 0x1000000000000000000000000) by (nonlinear_arith)
        requires
            1 <= base_den <= u32::MAX,
            1 <= scale_den <= 0x10000000000000000,
    ;
    assert(-0x80000000000000000000000000 <= base_num * scale_num) by (nonlinear_arith)
        requires
            0 <= base_num <= 100 * base_den,
            base_den <= u32::MAX,
            -0x10000000000000000 <= scale_num,
    ;
    assert(base_num * scale_num <= 100 * (base_den * scale_den)) by (nonlinear_arith)
        requires
            0 <= base_num <= 100 * base_den,
            scale_num <= scale_den,
            1 <= scale_den,
            1 <= base_den,
    ;
}

} // verus!
