//! Blending (crossover): combines two equal-length parent chromosomes into
//! one offspring chromosome under a strategy chosen once per run.

use vstd::prelude::*;
use crate::rng::{random_draws, random_proportion};

verus! {

/// Strategy for combining two parent chromosomes into one offspring.
#[derive(Clone, Copy, PartialEq, Eq, Structural, Debug)]
pub enum BlendingMode {
    Mean,
    OnePointCrossover,
    UniformCrossover,
}

/// The crossover index chosen by a proportion draw: floor(draw/255 * len).
/// Genes at indices below it come from the first parent, the rest from the
/// second.
pub open spec fn crossover_point(draw: u8, len: int) -> int {
    (draw * len) / 255
}

/// A proportion draw sides with the first parent when it is at most one half:
/// draw/255 <= 1/2 exactly when 2*draw <= 255, that is, draw <= 127.
pub open spec fn takes_first(draw: u8) -> bool {
    2 * draw <= 255
}

/// Gene-wise arithmetic mean of the parents, rounded down.
pub fn mean(a: &Vec<u8>, b: &Vec<u8>) -> (r: Vec<u8>)
    requires
        a.len() == b.len(),
    ensures
        r.len() == a.len(),
        forall|i: int| 0 <= i < r.len() ==> r[i] == (a[i] + b[i]) / 2,
{
    let mut r: Vec<u8> = Vec::new();
    let mut i: usize = 0;
    while i < a.len()
        invariant
            a.len() == b.len(),
            i <= a.len(),
            r.len() == i,
            forall|j: int| 0 <= j < i ==> r[j] == (a[j] + b[j]) / 2,
        decreases a.len() - i,
    {
        let g: u8 = ((a[i] as u16 + b[i] as u16) / 2) as u8;
        r.push(g);
        i += 1;
    }
    r
}

/// One-point crossover at the index picked by `draw`: a contiguous prefix of
/// the first parent followed by the matching suffix of the second.
pub fn one_point_crossover(a: &Vec<u8>, b: &Vec<u8>, draw: u8) -> (r: Vec<u8>)
    requires
        a.len() == b.len(),
    ensures
        r.len() == a.len(),
        0 <= crossover_point(draw, a.len() as int) <= a.len(),
        r@ == a@.take(crossover_point(draw, a.len() as int))
            + b@.skip(crossover_point(draw, a.len() as int)),
{
    let len = a.len();
    let d128: u128 = draw as u128;
    let l128: u128 = len as u128;
    assert(d128 * l128 <= 255 * l128) by (nonlinear_arith)
        requires
            d128 <= 255,
    ;
    let scaled: u128 = d128 * l128 / 255;
    assert(scaled <= l128) by (nonlinear_arith)
        requires
            d128 * l128 <= 255 * l128,
            scaled == d128 * l128 / 255,
    ;
    let k = scaled as usize;
    assert(k == crossover_point(draw, len as int));

    let mut r: Vec<u8> = Vec::new();
    let mut i: usize = 0;
    while i < len
        invariant
            a.len() == len,
            b.len() == len,
            k <= len,
            i <= len,
            r.len() == i,
            forall|j: int| 0 <= j < i ==> r[j] == (if j < k { a[j] } else { b[j] }),
        decreases len - i,
    {
        if i < k {
            r.push(a[i]);
        } else {
            r.push(b[i]);
        }
        i += 1;
    }
    assert(r@ =~= a@.take(k as int) + b@.skip(k as int));
    r
}

/// Uniform crossover: per gene, a proportion draw of at most one half takes
/// the first parent's gene, otherwise the second's.
pub fn uniform_crossover(a: &Vec<u8>, b: &Vec<u8>, draws: &Vec<u8>) -> (r: Vec<u8>)
    requires
        a.len() == b.len(),
        draws.len() == a.len(),
    ensures
        r.len() == a.len(),
        forall|i: int| 0 <= i < r.len()
            ==> r[i] == (if takes_first(draws[i]) { a[i] } else { b[i] }),
{
    let mut r: Vec<u8> = Vec::new();
    let mut i: usize = 0;
    while i < a.len()
        invariant
            a.len() == b.len(),
            draws.len() == a.len(),
            i <= a.len(),
            r.len() == i,
            forall|j: int| 0 <= j < i
                ==> r[j] == (if takes_first(draws[j]) { a[j] } else { b[j] }),
        decreases a.len() - i,
    {
        if draws[i] <= 127 {
            r.push(a[i]);
        } else {
            r.push(b[i]);
        }
        i += 1;
    }
    r
}

/// Blends two equal-length chromosomes under `mode`, drawing whatever
/// randomness the strategy calls for. The offspring always has the parents'
/// length; under `Mean` every gene is the exact floored mean, under
/// `OnePointCrossover` the offspring is a prefix of `a` followed by a suffix
/// of `b`, and under `UniformCrossover` every gene comes from one parent or
/// the other.
pub fn blend_chromosomes(a: &Vec<u8>, b: &Vec<u8>, mode: BlendingMode) -> (r: Vec<u8>)
    requires
        a.len() == b.len(),
    ensures
        r.len() == a.len(),
        mode == BlendingMode::Mean
            ==> forall|i: int| 0 <= i < r.len() ==> r[i] == (a[i] + b[i]) / 2,
        mode == BlendingMode::OnePointCrossover
            ==> exists|k: int| 0 <= k <= a.len() && r@ == a@.take(k) + b@.skip(k),
        mode == BlendingMode::UniformCrossover
            ==> forall|i: int| 0 <= i < r.len() ==> r[i] == a[i] || r[i] == b[i],
{
    match mode {
        BlendingMode::Mean => mean(a, b),
        BlendingMode::OnePointCrossover => {
            let draw = random_proportion();
            let r = one_point_crossover(a, b, draw);
            proof {
                let k = crossover_point(draw, a.len() as int);
                assert(0 <= k <= a.len() && r@ == a@.take(k) + b@.skip(k));
            }
            r
        }
        BlendingMode::UniformCrossover => {
            let draws = random_draws(a.len());
            uniform_crossover(a, b, &draws)
        }
    }
}

} // verus!
