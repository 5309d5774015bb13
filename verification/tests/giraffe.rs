use giraffe::blending::BlendingMode;
use giraffe::giraffe::{Giraffe, COLOR_SEGMENTS, LEG_SEGMENTS, NECK_SEGMENTS};
use giraffe::mutation::EffectiveRate;

#[test]
fn random_giraffe_has_the_fixed_chromosome_lengths() {
    let g = Giraffe::random();
    assert_eq!(g.color.len(), COLOR_SEGMENTS);
    assert_eq!(g.legs.len(), LEG_SEGMENTS);
    assert_eq!(g.neck.len(), NECK_SEGMENTS);
}

#[test]
fn phenotypic_construction_hits_the_requested_values() {
    let g = Giraffe::new_from_phenotypic_values(500, 600, 1300);
    assert_eq!(g.color(), 500);
    assert_eq!(g.leg_length(), 600);
    assert_eq!(g.neck_length(), 1300);
    assert_eq!(g.height(), 1900);
}

#[test]
fn phenotypic_construction_caps_at_the_genome_capacity() {
    // capacities: 4*255 = 1020 for color and legs, 8*255 = 2040 for neck
    let g = Giraffe::new_from_phenotypic_values(5000, 5000, 5000);
    assert_eq!(g.color(), 1020);
    assert_eq!(g.leg_length(), 1020);
    assert_eq!(g.neck_length(), 2040);
}

#[test]
fn phenotypic_construction_of_zero_is_zero() {
    let g = Giraffe::new_from_phenotypic_values(0, 0, 0);
    assert_eq!(g.color(), 0);
    assert_eq!(g.height(), 0);
    assert_eq!(g.speed(), 0);
}

#[test]
fn speed_formula_is_exact() {
    // legs 1020, neck 2040: weight = 4*1020 + 2040 = 6120,
    // speed = (40000*1020 - 6120^2) / 10000 = (40800000 - 37454400) / 10000
    let g = Giraffe::new_from_phenotypic_values(0, 1020, 2040);
    assert_eq!(g.speed(), 334);

    // legs 100, neck 0: weight = 400, speed = (4000000 - 160000) / 10000
    let g2 = Giraffe::new_from_phenotypic_values(0, 100, 0);
    assert_eq!(g2.speed(), 384);
}

#[test]
fn speed_clamps_to_zero_when_mass_wins() {
    // legs 1, neck 2040: weight = 2044, 40000*1 < 2044^2
    let g = Giraffe::new_from_phenotypic_values(0, 1, 2040);
    assert_eq!(g.speed(), 0);
}

#[test]
fn mutate_at_negative_rate_is_identity() {
    let g = Giraffe::new_from_phenotypic_values(300, 400, 500);
    let rate = EffectiveRate { num: -1, den: 1 };
    let m = g.mutate(&rate);
    assert_eq!(m.color, g.color);
    assert_eq!(m.legs, g.legs);
    assert_eq!(m.neck, g.neck);
}

#[test]
fn mutate_preserves_chromosome_lengths() {
    let g = Giraffe::random();
    let rate = EffectiveRate { num: 100, den: 1 };
    let m = g.mutate(&rate);
    assert_eq!(m.color.len(), COLOR_SEGMENTS);
    assert_eq!(m.legs.len(), LEG_SEGMENTS);
    assert_eq!(m.neck.len(), NECK_SEGMENTS);
}

#[test]
fn mate_produces_a_well_formed_offspring() {
    let a = Giraffe::random();
    let b = Giraffe::random();
    let rate = EffectiveRate { num: 1, den: 1000 };
    for mode in [BlendingMode::Mean, BlendingMode::OnePointCrossover, BlendingMode::UniformCrossover] {
        let child = Giraffe::mate(&a, &b, &rate, mode);
        assert_eq!(child.color.len(), COLOR_SEGMENTS);
        assert_eq!(child.legs.len(), LEG_SEGMENTS);
        assert_eq!(child.neck.len(), NECK_SEGMENTS);
    }
}

#[test]
fn mate_at_inert_rate_with_mean_blending_averages_the_parents() {
    let a = Giraffe::new_from_phenotypic_values(0, 0, 0);
    let b = Giraffe::new_from_phenotypic_values(1020, 1020, 2040);
    let rate = EffectiveRate { num: -1, den: 1 };
    let child = Giraffe::mate(&a, &b, &rate, BlendingMode::Mean);
    // every gene of a is 0 and of b is 255, so every child gene is 127
    assert!(child.color.iter().all(|&g| g == 127));
    assert!(child.legs.iter().all(|&g| g == 127));
    assert!(child.neck.iter().all(|&g| g == 127));
}
