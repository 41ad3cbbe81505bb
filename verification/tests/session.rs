use fishing_sim::bar::{FishingRodBar, YVelocity};
use fishing_sim::column::{Column, ConfigError};
use fishing_sim::fish::{Fish, FishBehaviour, FishType};
use fishing_sim::progress::CatchProgress;
use fishing_sim::simulation::{Simulation, TickInput};

const ONE: i64 = 1_000_000;
const STEP: i64 = 15_625;

fn wave_at(tick: u32) -> i64 {
    let elapsed = f64::from(tick) / 64.0;
    ((elapsed * 4.0).sin() * 1_000_000.0) as i64
}

#[test]
fn setup_rejects_a_degenerate_column() {
    assert_eq!(Simulation::setup(0, 0), Err(ConfigError::DegenerateColumn));
    assert_eq!(Simulation::setup(128 * ONE, -128 * ONE), Err(ConfigError::DegenerateColumn));
}

#[test]
fn setup_builds_the_starting_state() {
    let sim = Simulation::setup(-128 * ONE, 128 * ONE).unwrap();
    assert!(sim.is_valid());
    assert_eq!(sim.column, Column { lower: -128 * ONE, upper: 128 * ONE });
    assert_eq!(
        sim.bar,
        FishingRodBar { y: -96 * ONE, velocity: YVelocity(0), half_height: 32 * ONE }
    );
    assert_eq!(sim.fish.fish_behaviour, FishBehaviour::Smooth);
    assert_eq!(sim.fish.y, 0);
    assert_eq!(sim.fish.velocity, YVelocity(0));
    assert_eq!(sim.fish.half_height, 16 * ONE);
    assert_eq!(sim.fish.capture_offset, 0);
    assert_eq!(sim.catch_progress, CatchProgress(300_000));
    assert!(75 * ONE <= sim.fish.fish_speed && sim.fish.fish_speed <= 150 * ONE);
}

#[test]
fn setup_draws_the_speed_from_the_range() {
    let mut speeds: Vec<i64> = Vec::new();
    for _ in 0..32 {
        let sim = Simulation::setup(-128 * ONE, 128 * ONE).unwrap();
        assert!(75 * ONE <= sim.fish.fish_speed && sim.fish.fish_speed <= 150 * ONE);
        speeds.push(sim.fish.fish_speed);
    }
    assert!(speeds.iter().any(|s| *s != speeds[0]));
}

#[test]
fn new_takes_the_given_speed() {
    let column = Column::new(-10 * ONE, 200 * ONE).unwrap();
    let sim = Simulation::new(column, FishType::Simple, 100 * ONE);
    assert_eq!(
        sim,
        Simulation {
            bar: FishingRodBar { y: 22 * ONE, velocity: YVelocity(0), half_height: 32 * ONE },
            fish: Fish {
                fish_behaviour: FishBehaviour::Smooth,
                fish_speed: 100 * ONE,
                y: 0,
                velocity: YVelocity(0),
                half_height: 16 * ONE,
                capture_offset: 0,
            },
            column,
            catch_progress: CatchProgress(300_000),
        }
    );
}

#[test]
fn invalid_states_are_recognised() {
    let column = Column::new(-128 * ONE, 128 * ONE).unwrap();
    let mut sim = Simulation::new(column, FishType::Simple, 100 * ONE);
    assert!(sim.is_valid());
    sim.fish.fish_speed = -1;
    assert!(!sim.is_valid());
    sim.fish.fish_speed = 1;
    sim.fish.fish_behaviour = FishBehaviour::Puffer;
    assert!(!sim.is_valid());
    sim.fish.fish_behaviour = FishBehaviour::Smooth;
    sim.column = Column { lower: 1, upper: 1 };
    assert!(!sim.is_valid());
}

#[test]
fn first_tick_of_a_resting_bar() {
    let column = Column::new(-128 * ONE, 128 * ONE).unwrap();
    let mut sim = Simulation::new(column, FishType::Simple, 100 * ONE);
    let over = sim.tick(TickInput { held: false, dt: STEP, wave: 0 });
    assert!(!over);
    // gravity pushes the bar into the floor; the small rebound snaps to rest
    assert_eq!(
        sim.bar,
        FishingRodBar { y: -96 * ONE, velocity: YVelocity(0), half_height: 32 * ONE }
    );
    assert_eq!(sim.fish.y, 0);
    assert_eq!(sim.fish.velocity, YVelocity(0));
    assert_eq!(sim.catch_progress, CatchProgress(299_219));
}

#[test]
fn held_input_lifts_the_bar() {
    let column = Column::new(-128 * ONE, 128 * ONE).unwrap();
    let mut sim = Simulation::new(column, FishType::Simple, 100 * ONE);
    let over = sim.tick(TickInput { held: true, dt: ONE, wave: ONE });
    // bar: 0 - 70 + 300 = 230 per second, carried from -96 to the upper bound
    assert_eq!(sim.bar.y, 96 * ONE);
    assert_eq!(sim.bar.velocity, YVelocity(-115 * ONE));
    // fish: swing of 100 * 1 * 0.05 = 5 per second, carried for one second
    assert_eq!(sim.fish.velocity, YVelocity(5 * ONE));
    assert_eq!(sim.fish.y, 5 * ONE);
    assert!(!over);
    assert_eq!(sim.catch_progress, CatchProgress(250_000));
}

#[test]
fn a_body_that_bounced_is_not_moved_again() {
    let column = Column::new(-128 * ONE, 128 * ONE).unwrap();
    let mut sim = Simulation::new(column, FishType::Simple, 100 * ONE);
    sim.bar.y = 96 * ONE;
    sim.bar.velocity = YVelocity(120 * ONE);
    sim.fish.y = 112 * ONE;
    sim.fish.velocity = YVelocity(100 * ONE);
    let over = sim.tick(TickInput { held: false, dt: ONE, wave: 0 });
    assert_eq!(sim.bar.y, 96 * ONE);
    assert_eq!(sim.bar.velocity, YVelocity(-25 * ONE));
    assert_eq!(sim.fish.y, 112 * ONE);
    assert_eq!(sim.fish.velocity, YVelocity(0));
    assert!(over);
    assert_eq!(sim.catch_progress, CatchProgress(400_000));
}

#[test]
fn invariants_hold_over_a_long_session() {
    let mut sim = Simulation::setup(-128 * ONE, 128 * ONE).unwrap();
    let speed = sim.fish.fish_speed;
    for tick in 0..20_000u32 {
        let held = (tick / 40) % 3 != 0;
        sim.tick(TickInput { held, dt: STEP, wave: wave_at(tick) });
        assert!(-96 * ONE <= sim.bar.y && sim.bar.y <= 96 * ONE);
        assert!(-112 * ONE <= sim.fish.y && sim.fish.y <= 112 * ONE);
        assert!(-speed <= sim.fish.velocity.0 && sim.fish.velocity.0 <= speed);
        assert!(sim.bar.velocity.0 >= -200 * ONE);
        assert!(0 <= sim.catch_progress.0 && sim.catch_progress.0 <= ONE);
        assert!(sim.is_valid());
    }
}

#[test]
fn extreme_inputs_keep_the_invariants() {
    let column = Column::new(-128 * ONE, 128 * ONE).unwrap();
    let mut sim = Simulation::new(column, FishType::Simple, i64::MAX);
    sim.bar.y = i64::MIN;
    sim.bar.velocity = YVelocity(i64::MAX);
    sim.fish.y = i64::MAX;
    sim.fish.velocity = YVelocity(i64::MIN);
    for (dt, wave) in [(i64::MAX, i64::MAX), (i64::MIN, i64::MIN), (0, 0), (STEP, -ONE)] {
        sim.tick(TickInput { held: true, dt, wave });
        assert!(-96 * ONE <= sim.bar.y && sim.bar.y <= 96 * ONE);
        assert!(-112 * ONE <= sim.fish.y && sim.fish.y <= 112 * ONE);
        assert!(0 <= sim.catch_progress.0 && sim.catch_progress.0 <= ONE);
    }
}

#[test]
fn a_fast_bar_rebounds_faster_than_terminal_velocity() {
    let column = Column::new(-128 * ONE, 128 * ONE).unwrap();
    let mut sim = Simulation::new(column, FishType::Simple, 100 * ONE);
    sim.bar.y = 96 * ONE;
    sim.bar.velocity = YVelocity(570 * ONE);
    sim.tick(TickInput { held: false, dt: ONE, wave: 0 });
    assert_eq!(sim.bar.y, 96 * ONE);
    assert_eq!(sim.bar.velocity, YVelocity(-250 * ONE));
}
