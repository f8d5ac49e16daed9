use moon_lander::rng::{random_initial_conditions, SimpleRng};
use moon_lander::units::SPEED_PER_FPS;

#[test]
fn the_generator_steps_as_a_congruence() {
    let mut rng = SimpleRng::from_seed(42);
    assert_eq!(rng.next(), 1_052_313_527);
    assert_eq!(rng.seed, 9_039_304_369_631_583_587);
    assert_eq!(rng.next(), 1_006_665_568);
    assert_eq!(rng.seed, 8_647_191_391_818_483_560);
}

#[test]
fn the_generator_wraps_around() {
    let mut zero = SimpleRng::from_seed(0);
    assert_eq!(zero.next(), 0);
    assert_eq!(zero.seed, 1);
    let mut top = SimpleRng::from_seed(u64::MAX);
    assert_eq!(top.next(), 1_406_600_681);
    assert_eq!(top.seed, 12_082_607_849_862_758_612);
}

#[test]
fn a_draw_lies_in_its_range() {
    let mut rng = SimpleRng::from_seed(42);
    assert_eq!(rng.gen_range(0..=500), 101);
    assert_eq!(rng.gen_range(0..=150), 59);
    let mut signed = SimpleRng::from_seed(42);
    assert_eq!(signed.gen_range(-5..=5), -4);
    let mut single = SimpleRng::from_seed(42);
    assert_eq!(single.gen_range(7..=7), 7);
    assert_eq!(single.seed, 9_039_304_369_631_583_587);
}

#[test]
fn draws_stay_between_the_bounds() {
    let mut rng = SimpleRng::from_seed(7);
    for _ in 0..1_000 {
        let drawn = rng.gen_range(-3..=12);
        assert!((-3..=12).contains(&drawn));
    }
    let mut wide = SimpleRng::from_seed(7);
    for _ in 0..1_000 {
        let drawn = wide.gen_range(i32::MIN..=-2);
        assert!(drawn <= -2);
    }
}

#[test]
fn a_generator_from_the_clock_runs() {
    let mut rng = SimpleRng::new();
    let seed = rng.seed;
    let mut again = SimpleRng::from_seed(seed);
    assert_eq!(rng.next(), again.next());
}

#[test]
fn starting_speeds_are_whole_feet_per_second_in_range() {
    let mut rng = SimpleRng::from_seed(42);
    let (down, along) = random_initial_conditions(&mut rng);
    assert_eq!(down, 301 * SPEED_PER_FPS);
    assert_eq!(along, 109 * SPEED_PER_FPS);
    assert_eq!(rng.seed, 8_647_191_391_818_483_560);
    let mut other = SimpleRng::from_seed(1);
    for _ in 0..500 {
        let (down, along) = random_initial_conditions(&mut other);
        assert!(200 * SPEED_PER_FPS <= down && down <= 700 * SPEED_PER_FPS);
        assert!(50 * SPEED_PER_FPS <= along && along <= 200 * SPEED_PER_FPS);
        assert_eq!(down % SPEED_PER_FPS, 0);
        assert_eq!(along % SPEED_PER_FPS, 0);
    }
}

#[test]
fn a_clock_reading_seeds_the_generator() {
    assert_eq!(SimpleRng::from_clock(Some(1_700_000_000)).seed, 1_700_000_000);
    assert_eq!(SimpleRng::from_clock(Some(0)).seed, 0);
    assert_eq!(SimpleRng::from_clock(None).seed, 0);
    assert_eq!(SimpleRng::from_clock(None), SimpleRng::from_seed(0));
}
