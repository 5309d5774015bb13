use giraffe::mutation::{
    apply_mutations, apply_mutations_with, calculate_mutation_rate, mutates, EffectiveRate,
    MutationDecay, Rate,
};

fn pair_draws(proportions: &[u8], replacements: &[u8]) -> Vec<(u8, u8)> {
    proportions.iter().copied().zip(replacements.iter().copied()).collect()
}

#[test]
fn zero_rate_keeps_every_gene_on_positive_draws() {
    let chromosome: Vec<u8> = vec![10, 20, 30, 40];
    let rate = EffectiveRate { num: 0, den: 1 };
    let draws = pair_draws(&[1, 50, 200, 255], &[99, 99, 99, 99]);
    let r = apply_mutations_with(&chromosome, &rate, &draws);
    assert_eq!(r, chromosome);
}

#[test]
fn zero_rate_still_redraws_on_the_zero_draw() {
    // the one proportion draw that satisfies a zero rate: numerator 0
    let chromosome: Vec<u8> = vec![10];
    let rate = EffectiveRate { num: 0, den: 1 };
    let draws = pair_draws(&[0], &[99]);
    let r = apply_mutations_with(&chromosome, &rate, &draws);
    assert_eq!(r, vec![99]);
}

#[test]
fn full_rate_redraws_every_gene() {
    let chromosome: Vec<u8> = vec![10, 20, 30, 40];
    let rate = EffectiveRate { num: 100, den: 1 };
    let draws = pair_draws(&[0, 127, 254, 255], &[1, 2, 3, 4]);
    let r = apply_mutations_with(&chromosome, &rate, &draws);
    assert_eq!(r, vec![1, 2, 3, 4]);
}

#[test]
fn fifty_percent_rate_boundary_draw() {
    // draw/255*100 <= 50 exactly when draw <= 127.5, so 127 mutates, 128 not
    let rate = EffectiveRate { num: 50, den: 1 };
    assert!(mutates(127, &rate));
    assert!(!mutates(128, &rate));
}

#[test]
fn negative_rate_never_mutates() {
    let base = Rate::new(10, 1);
    // past the horizon: generation 150 of 100 gives a negative numerator
    let rate = calculate_mutation_rate(MutationDecay::Linear, &base, 150, 100);
    assert!(rate.num < 0);
    let chromosome: Vec<u8> = vec![1, 2, 3, 4, 5, 6, 7, 8];
    let r = apply_mutations(&chromosome, &rate);
    assert_eq!(r, chromosome);
    for draw in [0u8, 1, 128, 255] {
        assert!(!mutates(draw, &rate));
    }
}

#[test]
fn constant_decay_keeps_the_base_rate() {
    let base = Rate::new(7, 2);
    let rate = calculate_mutation_rate(MutationDecay::Constant, &base, 123, 1000);
    assert_eq!(rate.num, 7);
    assert_eq!(rate.den, 2);
}

#[test]
fn linear_decay_is_exact() {
    let base = Rate::new(10, 1);
    // 10 * (1 - 25/100) = 10 * 75/100
    let rate = calculate_mutation_rate(MutationDecay::Linear, &base, 25, 100);
    assert_eq!(rate.num, 10 * 75);
    assert_eq!(rate.den, 100);
}

#[test]
fn linear_decay_reaches_zero_at_the_final_generation() {
    let base = Rate::new(10, 1);
    let rate = calculate_mutation_rate(MutationDecay::Linear, &base, 100, 100);
    assert_eq!(rate.num, 0);
}

#[test]
fn quadratic_decay_is_exact() {
    let base = Rate::new(10, 1);
    // 10 * (100^2 - 30^2) / 100^2
    let rate = calculate_mutation_rate(MutationDecay::Quadratic, &base, 30, 100);
    assert_eq!(rate.num, 10 * (10000 - 900));
    assert_eq!(rate.den, 10000);
}

#[test]
fn quadratic_decay_reaches_zero_at_the_final_generation() {
    let base = Rate::new(10, 1);
    let rate = calculate_mutation_rate(MutationDecay::Quadratic, &base, 100, 100);
    assert_eq!(rate.num, 0);
}

#[test]
fn apply_mutations_preserves_length() {
    let chromosome: Vec<u8> = vec![0; 64];
    let rate = EffectiveRate { num: 50, den: 1 };
    let r = apply_mutations(&chromosome, &rate);
    assert_eq!(r.len(), 64);
}
