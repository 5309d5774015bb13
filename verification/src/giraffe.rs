//! Organisms: a giraffe bundles one fixed-length byte chromosome per trait
//! (color, legs, neck). A chromosome decodes to its phenotype value by
//! summation; height and speed derive from the leg and neck phenotypes.
//! Giraffes are immutable: mutation and mating build new ones.

use vstd::prelude::*;
use crate::blending::{blend_chromosomes, BlendingMode};
use crate::mutation::{apply_mutations, EffectiveRate};
use crate::rng::random_draws;

verus! {

pub const COLOR_SEGMENTS: usize = 4;
pub const LEG_SEGMENTS: usize = 4;
pub const NECK_SEGMENTS: usize = 8;

/// The sum of a chromosome's gene values: its decoded phenotype value.
pub open spec fn sum_genes(s: Seq<u8>) -> int
    decreases s.len(),
{
    if s.len() == 0 {
        0
    } else {
        sum_genes(s.drop_last()) + s.last()
    }
}

/// A phenotype value is non-negative and at most 255 per gene.
pub proof fn lemma_sum_genes_bounds(s: Seq<u8>)
    ensures
        0 <= sum_genes(s) <= 255 * s.len(),
    decreases s.len(),
{
    if s.len() > 0 {
        lemma_sum_genes_bounds(s.drop_last());
    }
}

/// An organism: one chromosome per modeled trait.
#[derive(Clone, Debug)]
pub struct Giraffe {
    pub color: Vec<u8>,
    pub legs: Vec<u8>,
    pub neck: Vec<u8>,
}

impl Giraffe {
    /// Every chromosome has its trait's fixed length.
    pub open spec fn wf(self) -> bool {
        &&& self.color.len() == COLOR_SEGMENTS
        &&& self.legs.len() == LEG_SEGMENTS
        &&& self.neck.len() == NECK_SEGMENTS
    }

    /// A giraffe whose genes are all drawn uniformly at random.
    pub fn random() -> (g: Giraffe)
        ensures
            g.wf(),
    {
        Giraffe {
            color: random_draws(COLOR_SEGMENTS),
            legs: random_draws(LEG_SEGMENTS),
            neck: random_draws(NECK_SEGMENTS),
        }
    }

    /// Builds a giraffe whose phenotype values are as close to the requested
    /// ones as the genome allows: each phenotype is the requested value
    /// capped at 255 per gene.
    pub fn new_from_phenotypic_values(color: u32, legs: u32, neck: u32) -> (g: Giraffe)
        ensures
            g.wf(),
            sum_genes(g.color@) == capped(color as int, 255 * COLOR_SEGMENTS as int),
            sum_genes(g.legs@) == capped(legs as int, 255 * LEG_SEGMENTS as int),
            sum_genes(g.neck@) == capped(neck as int, 255 * NECK_SEGMENTS as int),
    {
        Giraffe {
            color: fill_chromosome(color, COLOR_SEGMENTS),
            legs: fill_chromosome(legs, LEG_SEGMENTS),
            neck: fill_chromosome(neck, NECK_SEGMENTS),
        }
    }

    /// The leg phenotype: the sum of the leg chromosome's genes.
    pub fn leg_length(&self) -> (r: u32)
        requires
            self.wf(),
        ensures
            r == sum_genes(self.legs@),
    {
        sum_chromosome(&self.legs)
    }

    /// The neck phenotype: the sum of the neck chromosome's genes.
    pub fn neck_length(&self) -> (r: u32)
        requires
            self.wf(),
        ensures
            r == sum_genes(self.neck@),
    {
        sum_chromosome(&self.neck)
    }

    /// The color phenotype: the sum of the color chromosome's genes.
    pub fn color(&self) -> (r: u32)
        requires
            self.wf(),
        ensures
            r == sum_genes(self.color@),
    {
        sum_chromosome(&self.color)
    }

    /// Height: leg phenotype plus neck phenotype.
    pub fn height(&self) -> (r: u32)
        requires
            self.wf(),
        ensures
            r == sum_genes(self.legs@) + sum_genes(self.neck@),
    {
        proof {
            lemma_sum_genes_bounds(self.legs@);
            lemma_sum_genes_bounds(self.neck@);
        }
        self.leg_length() + self.neck_length()
    }

    /// Speed: a biomechanical trade-off. Longer legs add speed, but the mass
    /// of legs and neck slows the organism down quadratically; negative
    /// results clamp to zero.
    pub fn speed(&self) -> (r: u32)
        requires
            self.wf(),
        ensures
            r == speed_value(sum_genes(self.legs@), sum_genes(self.neck@)),
    {
        proof {
            lemma_sum_genes_bounds(self.legs@);
            lemma_sum_genes_bounds(self.neck@);
        }
        let legs: u64 = self.leg_length() as u64;
        let neck: u64 = self.neck_length() as u64;
        let weight: u64 = 4 * legs + neck;
        let thrust: u64 = 40000 * legs;
        assert(weight * weight <= 6120 * 6120) by (nonlinear_arith)
            requires
                0 <= weight <= 6120,
        ;
        if thrust > weight * weight {
            ((thrust - weight * weight) / 10000) as u32
        } else {
            0
        }
    }

    /// A giraffe with every chromosome put through per-gene replacement
    /// mutation at the given effective rate. A negative rate mutates nothing.
    pub fn mutate(&self, rate: &EffectiveRate) -> (g: Giraffe)
        requires
            self.wf(),
            rate.wf(),
        ensures
            g.wf(),
            rate.num < 0 ==> g.color@ == self.color@ && g.legs@ == self.legs@
                && g.neck@ == self.neck@,
    {
        Giraffe {
            color: apply_mutations(&self.color, rate),
            legs: apply_mutations(&self.legs, rate),
            neck: apply_mutations(&self.neck, rate),
        }
    }

    /// Mates two giraffes: both parents' chromosomes are first mutated
    /// independently at the same effective rate, then each corresponding
    /// pair is blended under the same mode. Mutate-then-blend is deliberate:
    /// each parent's contribution mutates before any genetic material mixes.
    /// When the rate mutates nothing and the mode is `Mean`, the offspring
    /// is exactly the gene-wise mean of the parents.
    pub fn mate(a: &Giraffe, b: &Giraffe, rate: &EffectiveRate, mode: BlendingMode) -> (g: Giraffe)
        requires
            a.wf(),
            b.wf(),
            rate.wf(),
        ensures
            g.wf(),
            rate.num < 0 && mode == BlendingMode::Mean ==> {
                &&& forall|i: int| 0 <= i < g.color@.len()
                    ==> g.color[i] == (a.color[i] + b.color[i]) / 2
                &&& forall|i: int| 0 <= i < g.legs@.len()
                    ==> g.legs[i] == (a.legs[i] + b.legs[i]) / 2
                &&& forall|i: int| 0 <= i < g.neck@.len()
                    ==> g.neck[i] == (a.neck[i] + b.neck[i]) / 2
            },
    {
        let mutated_a = a.mutate(rate);
        let mutated_b = b.mutate(rate);

        Giraffe {
            color: blend_chromosomes(&mutated_a.color, &mutated_b.color, mode),
            legs: blend_chromosomes(&mutated_a.legs, &mutated_b.legs, mode),
            neck: blend_chromosomes(&mutated_a.neck, &mutated_b.neck, mode),
        }
    }
}

/// Speed as a function of the leg and neck phenotypes: with
/// weight = 4*legs + neck, the speed is 4*legs - weight^2/10000, clamped to
/// zero and rounded down.
pub open spec fn speed_value(legs: int, neck: int) -> int {
    let weight = 4 * legs + neck;
    if 40000 * legs > weight * weight {
        (40000 * legs - weight * weight) / 10000
    } else {
        0
    }
}

/// `value` capped at `cap`.
pub open spec fn capped(value: int, cap: int) -> int {
    if value <= cap {
        value
    } else {
        cap
    }
}

/// Sums a chromosome's genes.
fn sum_chromosome(c: &Vec<u8>) -> (r: u32)
    requires
        c.len() <= 0xFFFFFF,
    ensures
        r == sum_genes(c@),
{
    let mut total: u32 = 0;
    let mut i: usize = 0;
    while i < c.len()
        invariant
            c.len() <= 0xFFFFFF,
            i <= c.len(),
            total == sum_genes(c@.take(i as int)),
            total <= 255 * i,
        decreases c.len() - i,
    {
        proof {
            assert(c@.take(i + 1).drop_last() =~= c@.take(i as int));
            assert(c@.take(i + 1).last() == c@[i as int]);
        }
        total = total + c[i] as u32;
        i += 1;
    }
    proof {
        assert(c@.take(c.len() as int) =~= c@);
    }
    total
}

/// Fills a chromosome of `segments` genes greedily from `value`: each gene
/// takes as much of the remaining value as a byte can hold. The resulting
/// phenotype is `value` capped at the chromosome's capacity.
fn fill_chromosome(value: u32, segments: usize) -> (c: Vec<u8>)
    ensures
        c.len() == segments,
        sum_genes(c@) == capped(value as int, 255 * segments as int),
{
    let mut c: Vec<u8> = Vec::new();
    let mut remaining: u32 = value;
    let mut i: usize = 0;
    while i < segments
        invariant
            i <= segments,
            c.len() == i,
            sum_genes(c@) == capped(value as int, 255 * i as int),
            remaining == value - capped(value as int, 255 * i as int),
        decreases segments - i,
    {
        let to_push: u8;
        if remaining >= 255 {
            to_push = 255;
            remaining = remaining - 255;
        } else {
            to_push = remaining as u8;
            remaining = 0;
        }
        proof {
            assert(c@.push(to_push).drop_last() =~= c@);
        }
        c.push(to_push);
        i += 1;
    }
    c
}

} // verus!
