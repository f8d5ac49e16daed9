use moon_lander::abort::AbortResult;
use moon_lander::advisory::{AdvisoryQueue, Correction};
use moon_lander::engine::{apply_burn, execute, Turn};
use moon_lander::landing::{landing_report, Landing};
use moon_lander::projector::project_and_queue_advisory;
use moon_lander::units::{POSITION_PER_FOOT, SPEED_PER_FPS, TIME_LIMIT};
use moon_lander::vehicle::{BurnCommand, VehicleState};

fn start() -> VehicleState {
    VehicleState::new(
        7_500 * POSITION_PER_FOOT,
        400 * SPEED_PER_FPS,
        100 * SPEED_PER_FPS,
        15_000_000,
        51_870_000,
    )
    .unwrap()
}

fn burn(duration_ms: i64, v_burn_rate: i64, h_burn_rate: i64) -> BurnCommand {
    BurnCommand { duration_ms, v_burn_rate, h_burn_rate }
}

fn advisory(eval_time: u64) -> Correction {
    Correction {
        eval_time,
        display_time: eval_time + 46,
        v_burn_diff: 50_000,
        h_burn_diff: 5_000,
        is_confirmation: false,
    }
}

#[test]
fn a_burn_flies_its_whole_length() {
    let mut state = start();
    let mut queue = AdvisoryQueue::new();
    let delivered = apply_burn(&mut state, &mut queue, &burn(1_000, 200_000, -10_000));
    assert!(delivered.is_empty());
    assert_eq!(
        state,
        VehicleState {
            altitude: 7_159_230_830_930,
            v_down: 14_063_584_666,
            horiz_pos: 96_905_174_392,
            horiz_speed: 4_689_850_828,
            descent_fuel_mass: 12_900_000,
            ascent_fuel_mass: 51_870_000,
            time: 10,
        }
    );
}

#[test]
fn a_burn_is_its_sub_steps_one_by_one() {
    let mut flown = start();
    let mut queue = AdvisoryQueue::new();
    apply_burn(&mut flown, &mut queue, &burn(2_500, 120_000, 3_000));
    let mut stepped = start();
    for _ in 0..25 {
        stepped.sub_step(120_000, 3_000);
    }
    assert_eq!(flown, stepped);
}

#[test]
fn a_burn_of_no_length_changes_nothing() {
    let mut state = start();
    let mut queue = AdvisoryQueue::new();
    queue.insert(advisory(0));
    let delivered = apply_burn(&mut state, &mut queue, &burn(99, 200_000, 0));
    assert!(delivered.is_empty());
    assert_eq!(state, start());
    assert_eq!(queue.len(), 1);
}

#[test]
fn a_burn_stops_at_the_surface() {
    let mut state = VehicleState::new(1_000_000_000, 200_000_000, 0, 0, 51_870_000).unwrap();
    let mut queue = AdvisoryQueue::new();
    apply_burn(&mut state, &mut queue, &burn(10_000, 0, 0));
    assert_eq!(state.time, 3);
    assert_eq!(state.altitude, -439_911_416 + 0);
    assert_eq!(state.v_down, 279_970_472);
    let landed = state;
    apply_burn(&mut state, &mut queue, &burn(10_000, 250_000, 0));
    assert_eq!(state, landed);
}

#[test]
fn a_burn_stops_at_the_time_limit() {
    let mut state = start();
    state.v_down = 0;
    state.horiz_speed = 0;
    state.time = 5_998;
    let mut queue = AdvisoryQueue::new();
    apply_burn(&mut state, &mut queue, &burn(10_000, 250_000, 0));
    assert_eq!(state.time, TIME_LIMIT);
    assert_eq!(state.altitude, 7_502_978_698_734);
    assert_eq!(state.v_down, -1_489_944_778);
    assert_eq!(state.descent_fuel_mass, 14_500_000);
    assert!(state.timed_out());
    let stopped = state;
    apply_burn(&mut state, &mut queue, &burn(10_000, 250_000, 0));
    assert_eq!(state, stopped);
}

#[test]
fn advisories_are_shown_at_the_first_sub_step_at_or_after_their_time() {
    let mut state = start();
    let mut queue = AdvisoryQueue::new();
    let early = Correction { display_time: 3, ..advisory(0) };
    let late = Correction { display_time: 8, ..advisory(1) };
    let later = Correction { display_time: 50, ..advisory(2) };
    queue.insert(late);
    queue.insert(early);
    queue.insert(later);
    let first = apply_burn(&mut state, &mut queue, &burn(200, 0, 0));
    assert!(first.is_empty());
    assert_eq!(queue.len(), 3);
    let second = apply_burn(&mut state, &mut queue, &burn(100, 0, 0));
    assert_eq!(second, vec![early]);
    let third = apply_burn(&mut state, &mut queue, &burn(400, 0, 0));
    assert!(third.is_empty());
    let fourth = apply_burn(&mut state, &mut queue, &burn(100, 0, 0));
    assert_eq!(fourth, vec![late]);
    assert_eq!(queue.len(), 1);
    assert_eq!(queue.get(0), Some(later));
}

#[test]
fn advisories_shown_in_one_burn_come_sub_step_by_sub_step() {
    let mut state = start();
    let mut queue = AdvisoryQueue::new();
    let at_five = Correction { display_time: 5, ..advisory(0) };
    let at_two = Correction { display_time: 2, ..advisory(1) };
    let also_five = Correction { display_time: 5, ..advisory(2) };
    let overdue = Correction { display_time: 0, ..advisory(3) };
    queue.insert(at_five);
    queue.insert(at_two);
    queue.insert(also_five);
    queue.insert(overdue);
    let delivered = apply_burn(&mut state, &mut queue, &burn(1_000, 0, 0));
    assert_eq!(delivered, vec![overdue, at_two, at_five, also_five]);
    assert_eq!(queue.len(), 0);
}

#[test]
fn repeated_burns_end_in_a_judged_touchdown() {
    let mut state = start();
    let mut queue = AdvisoryQueue::new();
    let command = burn(10_000, 200_000, 0);
    let mut commands = 0;
    let mut fuel = state.descent_fuel_mass;
    while state.is_airborne() && !state.timed_out() {
        let delivered = apply_burn(&mut state, &mut queue, &command);
        if commands == 0 {
            assert!(delivered.is_empty());
            assert_eq!(
                state,
                VehicleState {
                    altitude: 9_236_775_272_938,
                    v_down: -25_831_299_666,
                    horiz_pos: 1_000_000_000_000,
                    horiz_speed: 5_000_000_000,
                    descent_fuel_mass: 0,
                    ascent_fuel_mass: 51_870_000,
                    time: 100,
                }
            );
        } else if state.is_airborne() {
            assert_eq!(delivered, vec![advisory(100 * commands)]);
        }
        assert!(state.descent_fuel_mass <= fuel);
        fuel = state.descent_fuel_mass;
        project_and_queue_advisory(&state, &mut queue, &command);
        commands += 1;
        assert!(commands <= 60);
    }
    assert_eq!(commands, 23);
    assert_eq!(
        state,
        VehicleState {
            altitude: -9_488_065_682,
            v_down: 30_228_001_206,
            horiz_pos: 22_030_000_000_000,
            horiz_speed: 5_000_000_000,
            descent_fuel_mass: 0,
            ascent_fuel_mass: 51_870_000,
            time: 2_203,
        }
    );
    assert!(state.time <= TIME_LIMIT);
    assert_eq!(queue.len(), 1);
    assert_eq!(queue.get(0), Some(advisory(2_200)));
    assert_eq!(landing_report(&state), Some(Landing::Crash));
}

#[test]
fn executing_a_burn_flies_it_and_queues_the_advisory() {
    let mut state = start();
    let mut queue = AdvisoryQueue::new();
    let turn = execute(&mut state, &mut queue, &burn(10_000, 200_000, 0), 0);
    match turn {
        Turn::Burn(delivered) => assert!(delivered.is_empty()),
        _ => panic!("the burn was not flown"),
    }
    assert_eq!(state.time, 100);
    assert_eq!(queue.len(), 1);
    assert_eq!(queue.get(0), Some(advisory(100)));
    let next = execute(&mut state, &mut queue, &burn(10_000, 200_000, 0), 0);
    match next {
        Turn::Burn(delivered) => assert_eq!(delivered, vec![advisory(100)]),
        _ => panic!("the burn was not flown"),
    }
}

#[test]
fn executing_undeliverable_rates_changes_nothing() {
    let mut state = start();
    let mut queue = AdvisoryQueue::new();
    let turn = execute(&mut state, &mut queue, &burn(10_000, 250_001, 0), 0);
    assert!(matches!(turn, Turn::Rejected));
    assert_eq!(state, start());
    assert_eq!(queue.len(), 0);
}

#[test]
fn executing_an_abort_attempts_it() {
    let mut state = start();
    let mut queue = AdvisoryQueue::new();
    queue.insert(advisory(0));
    let short = execute(&mut state, &mut queue, &burn(-1_000, 0, 0), 1);
    assert!(matches!(short, Turn::Abort(AbortResult::InsufficientDeltaV(1))));
    assert_eq!(state, start());
    assert_eq!(queue.len(), 1);
    let enough = execute(&mut state, &mut queue, &burn(-1_000, 999_999, 0), 270_600_000_000);
    assert!(matches!(enough, Turn::Abort(AbortResult::Success(270_600_000_000))));
    assert_eq!(state, start());
}
