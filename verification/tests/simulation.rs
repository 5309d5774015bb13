use giraffe::giraffe::Giraffe;
use giraffe::options::Options;
use giraffe::simulation::{
    calculate_fitnesses, calculate_tree_delta, evolve_world, mate_giraffes, sixth_root,
    FITNESS_SCALE_SIXTH,
};
use giraffe::world::World;

fn variant_options() -> Options {
    let mut o = Options::default();
    o.herd_size = 20;
    o.tree_height = 1000;
    o
}

#[test]
fn sixth_root_exact_values() {
    assert_eq!(sixth_root(0), 0);
    assert_eq!(sixth_root(1), 1);
    assert_eq!(sixth_root(63), 1); // 1^6 = 1 <= 63 < 64 = 2^6
    assert_eq!(sixth_root(64), 2);
    assert_eq!(sixth_root(728), 2); // 3^6 = 729
    assert_eq!(sixth_root(729), 3);
    assert_eq!(sixth_root(FITNESS_SCALE_SIXTH), 1000);
    assert_eq!(sixth_root(FITNESS_SCALE_SIXTH - 1), 999);
}

#[test]
fn sixth_root_brackets_its_argument() {
    for x in [2u128, 100, 4097, 1 << 40, (1 << 90) + 12345] {
        let r = sixth_root(x) as u128;
        assert!(r.pow(6) <= x);
        assert!((r + 1).pow(6) > x);
    }
}

#[test]
fn tree_delta_is_the_absolute_distance_to_the_target() {
    let options = variant_options();
    let world = World::new_from_tower(vec![Giraffe::random()], options);
    let tall = Giraffe::new_from_phenotypic_values(0, 1020, 2040); // height 3060
    let short = Giraffe::new_from_phenotypic_values(0, 100, 200); // height 300
    assert_eq!(calculate_tree_delta(&world, &tall), 2060);
    assert_eq!(calculate_tree_delta(&world, &short), 700);
}

#[test]
fn compressed_fitnesses_score_the_farthest_organism_zero() {
    // tree height 1000: heights 1000 (delta 0) and 0 (delta 1000)
    let tower = vec![
        Giraffe::new_from_phenotypic_values(0, 500, 500),
        Giraffe::new_from_phenotypic_values(0, 0, 0),
    ];
    let world = World::new_from_tower(tower, variant_options());
    let f = calculate_fitnesses(&world, &world.tower);
    // headroom of the first organism is 1000; its score is the sixth root of
    // 1000 * 10^18 = 10^21, which is floor(10^3.5) = 3162
    assert_eq!(f, vec![3162, 0]);
}

#[test]
fn compressed_fitnesses_of_a_uniform_population_are_all_zero() {
    let tower = vec![
        Giraffe::new_from_phenotypic_values(0, 300, 300),
        Giraffe::new_from_phenotypic_values(0, 300, 300),
        Giraffe::new_from_phenotypic_values(0, 300, 300),
    ];
    let world = World::new_from_tower(tower, variant_options());
    let f = calculate_fitnesses(&world, &world.tower);
    assert_eq!(f, vec![0, 0, 0]);
}

#[test]
fn mate_giraffes_produces_a_well_formed_offspring() {
    let options = variant_options();
    let world = World::new_from_tower(vec![Giraffe::random()], options);
    let a = Giraffe::random();
    let b = Giraffe::random();
    let child = mate_giraffes(&world, &a, &b);
    assert_eq!(child.color.len(), a.color.len());
    assert_eq!(child.legs.len(), a.legs.len());
    assert_eq!(child.neck.len(), a.neck.len());
}

#[test]
fn evolve_world_preserves_size_and_increments_the_generation() {
    let options = variant_options();
    let mut world = World::new(options);
    for expected_generation in 1..=5u32 {
        world = evolve_world(world);
        assert_eq!(world.generation, expected_generation);
        assert_eq!(world.tower.len(), 20);
    }
}
