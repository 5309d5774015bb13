//! Source of random draws. Every stochastic decision in the simulation goes
//! through uniform byte draws: a proportion in [0, 1) is represented exactly
//! by its numerator over the denominator 255, so the distribution has exactly
//! 256 discrete outcomes.

use vstd::prelude::*;

verus! {

/// Relies on rand::random: a fresh sample of the standard distribution of `T`
/// from the thread-local generator. Nothing is promised of the value.
pub assume_specification<T>[ rand::random::<T> ]() -> (r: T)
    where
        rand::distributions::Standard: rand::distributions::Distribution<T>,
;

/// Draws the numerator of a uniform proportion with denominator 255.
/// The proportion `r / 255` lies in [0, 1]; comparisons against it are made
/// exactly on the numerators, never in floating point.
pub fn random_proportion() -> u8 {
    rand::random::<u8>()
}

/// Draws `n` independent uniform bytes.
pub fn random_draws(n: usize) -> (r: Vec<u8>)
    ensures
        r.len() == n,
{
    let mut r: Vec<u8> = Vec::new();
    let mut i: usize = 0;
    while i < n
        invariant
            i <= n,
            r.len() == i,
        decreases n - i,
    {
        r.push(rand::random::<u8>());
        i += 1;
    }
    r
}

/// Draws `n` independent pairs of uniform bytes. Per gene, the first byte is
/// the proportion numerator that decides whether the gene mutates and the
/// second is the replacement gene used if it does.
pub fn random_gene_draws(n: usize) -> (r: Vec<(u8, u8)>)
    ensures
        r.len() == n,
{
    let mut r: Vec<(u8, u8)> = Vec::new();
    let mut i: usize = 0;
    while i < n
        invariant
            i <= n,
            r.len() == i,
        decreases n - i,
    {
        let p: u8 = rand::random::<u8>();
        let g: u8 = rand::random::<u8>();
        r.push((p, g));
        i += 1;
    }
    r
}

} // verus!
