use giraffe::blending::BlendingMode;
use giraffe::giraffe::Giraffe;
use giraffe::mutation::{MutationDecay, Rate};
use giraffe::options::Options;
use giraffe::world::{
    calculate_fitness, calculate_fitnesses, calculate_partial_fitness,
    generate_cumulative_densities, select_giraffe, select_index, World, FITNESS_ONE, MAX_FITNESS,
};

fn small_options() -> Options {
    Options {
        blending_mode: BlendingMode::OnePointCrossover,
        color: 500,
        lion_speed: 334,
        mutation_decay: MutationDecay::Constant,
        mutation_rate: Rate::new(1, 1000),
        simulation_length: 50,
        herd_size: 20,
        tree_height: 1500,
    }
}

#[test]
fn default_options_are_valid() {
    let o = Options::default();
    assert!(o.is_valid());
    assert_eq!(o.color, 500);
    assert_eq!(o.lion_speed, 500);
    assert_eq!(o.tree_height, 1500);
    assert_eq!(o.simulation_length, 1500);
    assert_eq!(o.herd_size, 1000);
}

#[test]
fn zero_targets_are_rejected_as_configuration_errors() {
    let mut o = Options::default();
    o.tree_height = 0;
    assert!(!o.is_valid());
    let mut o2 = Options::default();
    o2.color = 0;
    assert!(!o2.is_valid());
    let mut o3 = Options::default();
    o3.herd_size = 0;
    assert!(!o3.is_valid());
}

#[test]
fn partial_fitness_peaks_at_the_target_and_degrades_linearly() {
    assert_eq!(calculate_partial_fitness(500, 500, 1000), 1000);
    assert_eq!(calculate_partial_fitness(250, 500, 1000), 500);
    assert_eq!(calculate_partial_fitness(750, 500, 1000), 500);
    assert_eq!(calculate_partial_fitness(0, 500, 1000), 0);
    assert_eq!(calculate_partial_fitness(1000, 500, 1000), 0);
    assert_eq!(calculate_partial_fitness(1200, 500, 1000), 0);
}

#[test]
fn fitness_is_maximal_on_an_exact_match_of_every_target() {
    // phenotypes: color 500, height 3060, speed 334 (see the speed formula)
    let g = Giraffe::new_from_phenotypic_values(500, 1020, 2040);
    let mut options = small_options();
    options.tree_height = 3060;
    options.lion_speed = 334;
    options.color = 500;
    assert_eq!(calculate_fitness(&options, &g), MAX_FITNESS);
}

#[test]
fn fitness_is_zero_when_maximally_distant_from_every_target() {
    let g = Giraffe::new_from_phenotypic_values(0, 0, 0);
    let mut options = small_options();
    options.tree_height = 1;
    options.lion_speed = 1;
    options.color = 1;
    // every delta equals its target, so every partial score is zero... except
    // that delta == target still scores: (t - t)/t = 0. All partials are 0.
    assert_eq!(calculate_fitness(&options, &g), 0);
}

#[test]
fn fitness_weights_height_more_heavily() {
    // only height matches; color and speed are maximally off
    let g = Giraffe::new_from_phenotypic_values(0, 1020, 2040);
    let mut options = small_options();
    options.tree_height = 3060;
    options.lion_speed = 100;
    options.color = 400;
    // color: delta 400 equals the target, scores 0; speed: 334 is further
    // from 100 than the target itself, scores 0; height: exact, scores the
    // full 1.5 weight
    assert_eq!(calculate_fitness(&options, &g), 1500);
}

#[test]
fn cumulative_density_table_of_three_records() {
    // the fitness vector [1.0, 2.0, 1.0] in fixed-point units
    let fitnesses: Vec<u64> = vec![FITNESS_ONE, 2 * FITNESS_ONE, FITNESS_ONE];
    let cds = generate_cumulative_densities(&fitnesses);
    assert_eq!(
        cds,
        vec![
            (0, FITNESS_ONE),
            (FITNESS_ONE, 3 * FITNESS_ONE),
            (3 * FITNESS_ONE, 5 * FITNESS_ONE),
        ]
    );
}

#[test]
fn cumulative_density_table_widens_only_the_last_interval() {
    let fitnesses: Vec<u64> = vec![0, 0, 0];
    let cds = generate_cumulative_densities(&fitnesses);
    assert_eq!(cds, vec![(0, 0), (0, 0), (0, FITNESS_ONE)]);
}

#[test]
fn selector_on_a_zero_fitness_population_returns_index_zero() {
    let fitnesses: Vec<u64> = vec![0, 0, 0, 0];
    let cds = generate_cumulative_densities(&fitnesses);
    for draw in [0u8, 1, 127, 255] {
        assert_eq!(select_index(&cds, draw), 0);
    }
}

#[test]
fn selector_picks_the_interval_containing_the_sample() {
    let fitnesses: Vec<u64> = vec![FITNESS_ONE, 2 * FITNESS_ONE, FITNESS_ONE];
    let cds = generate_cumulative_densities(&fitnesses);
    // sample = draw/255 * 4000 (in fixed-point units)
    assert_eq!(select_index(&cds, 0), 0); // sample 0
    assert_eq!(select_index(&cds, 128), 1); // sample about 2007.8
    assert_eq!(select_index(&cds, 255), 2); // sample 4000
}

#[test]
fn selector_never_leaves_the_population() {
    let fitnesses: Vec<u64> = vec![3, 0, 0, 17, 1, 0, 2500, 3500];
    let cds = generate_cumulative_densities(&fitnesses);
    for draw in 0..=255u8 {
        assert!(select_index(&cds, draw) < fitnesses.len());
    }
}

#[test]
fn select_giraffe_returns_an_organism_of_the_tower() {
    let tower: Vec<Giraffe> = (0..5).map(|i| Giraffe::new_from_phenotypic_values(i, i, i)).collect();
    let world = World::new_from_tower(tower, small_options());
    let fitnesses = calculate_fitnesses(&world, &world.tower);
    let cds = generate_cumulative_densities(&fitnesses);
    for _ in 0..100 {
        let g = select_giraffe(&cds, &world.tower);
        assert!(world.tower.iter().any(|t| t.color == g.color && t.legs == g.legs && t.neck == g.neck));
    }
}

#[test]
fn new_world_has_the_configured_herd_size_at_generation_zero() {
    let options = small_options();
    let world = World::new(options);
    assert_eq!(world.generation, 0);
    assert_eq!(world.tower.len(), 20);
}

#[test]
fn evolve_preserves_population_size_and_increments_the_generation() {
    let options = small_options();
    let mut world = World::new(options);
    for expected_generation in 1..=5u32 {
        world = world.evolve();
        assert_eq!(world.generation, expected_generation);
        assert_eq!(world.tower.len(), 20);
    }
}

#[test]
fn evolve_keeps_every_option_but_possibly_the_tree_height() {
    let options = small_options();
    let world = World::new(options);
    let next = world.evolve();
    assert_eq!(next.options.blending_mode, options.blending_mode);
    assert_eq!(next.options.color, options.color);
    assert_eq!(next.options.lion_speed, options.lion_speed);
    assert_eq!(next.options.mutation_decay, options.mutation_decay);
    assert_eq!(next.options.mutation_rate, options.mutation_rate);
    assert_eq!(next.options.simulation_length, options.simulation_length);
    assert_eq!(next.options.herd_size, options.herd_size);
    assert!(
        next.options.tree_height == options.tree_height
            || (500..=2000).contains(&next.options.tree_height)
    );
}

#[test]
fn fitnesses_are_computed_per_organism_and_bounded() {
    let tower: Vec<Giraffe> = vec![
        Giraffe::new_from_phenotypic_values(500, 1020, 2040),
        Giraffe::new_from_phenotypic_values(0, 0, 0),
    ];
    let mut options = small_options();
    options.tree_height = 3060;
    options.lion_speed = 334;
    let world = World::new_from_tower(tower, options);
    let f = calculate_fitnesses(&world, &world.tower);
    assert_eq!(f.len(), 2);
    assert_eq!(f[0], MAX_FITNESS);
    assert!(f[1] <= MAX_FITNESS);
}
