//! The whole simulation state and its fixed-order tick.

use vstd::prelude::*;
use rand::Rng;
use crate::bar::{
    apply_gravity, apply_player_accel, gravity_velocity, handle_bar_bounce, rebound_velocity,
    FishingRodBar, YVelocity,
};
use crate::column::{apply_y_velocity, Column, ConfigError};
use crate::config::{
    BASE_FISHING_ROD_BAR_SIZE, FISHING_ROD_BAR_HALF_HEIGHT, FISH_CAPTURE_POINT, FISH_HALF_HEIGHT,
    INITIAL_CATCH_FILL, INITIAL_FISH_Y, PLAYER_ACCEL, TERMINAL_VELOCITY,
};
use crate::fish::{fish_handle_bar_edge, fish_movement_system, Fish, FishBehaviour, FishType};
use crate::fixed::{add_scalars, product, sum};
use crate::progress::{
    covers, progress_step, trigger_over_fish_event, update_catch_progress, CatchProgress,
};

verus! {

/// What the outside hands to one tick.
#[derive(Clone, Copy, Debug, PartialEq, Eq)]
pub struct TickInput {
    /// Whether the capture input is held.
    pub held: bool,
    /// The tick's duration in seconds.
    pub dt: i64,
    /// The fish's oscillator: the sine of its phase at the elapsed
    /// simulation time.
    pub wave: i64,
}

/// The bar, the fish, the column they move in, and the catch progress.
#[derive(Clone, Copy, Debug, PartialEq, Eq)]
pub struct Simulation {
    pub bar: FishingRodBar,
    pub fish: Fish,
    pub column: Column,
    pub catch_progress: CatchProgress,
}

/// The state in which a session starts: the bar at rest on the column's lower
/// bound, a fish of the given kind and speed at rest at its starting position,
/// and the starting progress.
pub open spec fn initial_state(column: Column, fish_speed: int) -> Simulation {
    Simulation {
        bar: FishingRodBar {
            y: sum(column.lower as int, FISHING_ROD_BAR_HALF_HEIGHT as int) as i64,
            velocity: YVelocity(0),
            half_height: FISHING_ROD_BAR_HALF_HEIGHT,
        },
        fish: Fish {
            fish_behaviour: FishBehaviour::Smooth,
            fish_speed: fish_speed as i64,
            y: INITIAL_FISH_Y,
            velocity: YVelocity(0),
            half_height: FISH_HALF_HEIGHT,
            capture_offset: FISH_CAPTURE_POINT,
        },
        column,
        catch_progress: CatchProgress(INITIAL_CATCH_FILL),
    }
}

/// Draws an integer between `low` and `high`, both included, by
/// `rand::Rng::random_range` on the thread's generator `rand::rng()`. Nothing
/// is claimed of the value but that it lies in the range. That function
/// rejects an empty range, so `low <= high` is asked for.
#[verifier::external_body]
fn random_between(low: i64, high: i64) -> (r: i64)
    requires
        low <= high,
    ensures
        low <= r <= high,
{
    rand::rng().random_range(low..=high)
}

impl Simulation {
    /// The column is valid and the fish has a speed and a motion rule.
    pub open spec fn wf(self) -> bool {
        &&& self.column.wf()
        &&& self.fish.wf()
        &&& self.fish.fish_behaviour.implemented()
    }

    /// Bar and fish both have room in the column.
    pub open spec fn roomy(self) -> bool {
        &&& self.column.fits(self.bar.half_height as int)
        &&& self.column.fits(self.fish.half_height as int)
    }

    /// Bar and fish both lie within the column, inset by their half-heights.
    pub open spec fn in_column(self) -> bool {
        &&& self.column.holds(self.bar.half_height as int, self.bar.y as int)
        &&& self.column.holds(self.fish.half_height as int, self.fish.y as int)
    }

    /// The state after one tick with the given input.
    pub open spec fn next_state(self, input: TickInput) -> Simulation {
        let bar = self.bar.stepped(self.column, input.held, input.dt as int);
        let fish = self.fish.stepped(self.column, input.wave as int, input.dt as int);
        Simulation {
            bar,
            fish,
            column: self.column,
            catch_progress: CatchProgress(
                progress_step(self.catch_progress.0 as int, covers(bar, fish), input.dt as int) as i64,
            ),
        }
    }

    /// The state after the ticks whose inputs are given, first to last.
    pub open spec fn after_ticks(self, inputs: Seq<TickInput>) -> Simulation
        decreases inputs.len(),
    {
        if inputs.len() == 0 {
            self
        } else {
            self.after_ticks(inputs.drop_last()).next_state(inputs.last())
        }
    }

    /// Builds the starting state for a column and a fish of the given kind
    /// and speed. A column at least as tall as the bar has room for the bar
    /// and the fish.
    pub fn new(column: Column, fish_type: FishType, fish_speed: i64) -> (sim: Simulation)
        ensures
            sim == initial_state(column, fish_speed as int),
            column.wf() && fish_speed >= 0 ==> sim.wf(),
            column.upper - column.lower >= BASE_FISHING_ROD_BAR_SIZE ==> sim.roomy(),
    {
        Simulation {
            bar: FishingRodBar {
                y: add_scalars(column.lower, FISHING_ROD_BAR_HALF_HEIGHT),
                velocity: YVelocity(0),
                half_height: FISHING_ROD_BAR_HALF_HEIGHT,
            },
            fish: Fish {
                fish_behaviour: fish_type.get_behaviour_type(),
                fish_speed,
                y: fish_type.get_default_y(),
                velocity: YVelocity(0),
                half_height: FISH_HALF_HEIGHT,
                capture_offset: FISH_CAPTURE_POINT,
            },
            column,
            catch_progress: CatchProgress::default(),
        }
    }

    /// Sets a session up in the column from `lower` to `upper`, with a simple
    /// fish whose speed is drawn at random from the range of its kind. A
    /// column whose upper extent does not exceed its lower extent is turned
    /// down.
    pub fn setup(lower: i64, upper: i64) -> (r: Result<Simulation, ConfigError>)
        ensures
            lower >= upper ==> r == Err::<Simulation, ConfigError>(ConfigError::DegenerateColumn),
            lower < upper ==> r.is_ok() && r.unwrap().wf() && 75_000_000
                <= r.unwrap().fish.fish_speed <= 150_000_000 && r.unwrap() == initial_state(
                Column { lower, upper },
                r.unwrap().fish.fish_speed as int,
            ),
            upper - lower >= BASE_FISHING_ROD_BAR_SIZE ==> r.is_ok() && r.unwrap().roomy(),
    {
        match Column::new(lower, upper) {
            Err(e) => Err(e),
            Ok(column) => {
                let fish_type = FishType::Simple;
                let fish_speed_range = fish_type.get_speed_range();
                let fish_speed: i64 = random_between(fish_speed_range.0, fish_speed_range.1);
                Ok(Simulation::new(column, fish_type, fish_speed))
            },
        }
    }

    /// Whether the state meets what a tick asks of it.
    pub fn is_valid(&self) -> (r: bool)
        ensures
            r == self.wf(),
    {
        self.column.is_valid() && self.fish.fish_speed >= 0
            && self.fish.fish_behaviour.is_implemented()
    }

    /// Runs one tick: gravity and thrust on the bar, the bar's bounce, the
    /// fish's motion and its stop at the bounds, the move of whatever did not
    /// reach a bound, and the progress for the overlap that results. Returns
    /// whether the bar covers the fish at the end of the tick.
    pub fn tick(&mut self, input: TickInput) -> (over_fish: bool)
        requires
            old(self).wf(),
        ensures
            *final(self) == old(self).next_state(input),
            over_fish == covers(final(self).bar, final(self).fish),
            final(self).wf(),
            final(self).catch_progress.wf(),
            final(self).fish.within_speed(),
            old(self).roomy() ==> final(self).in_column(),
    {
        apply_gravity(&mut self.bar.velocity, true, input.dt);
        apply_player_accel(&mut self.bar.velocity, input.held, input.dt);
        let bar_settled = handle_bar_bounce(&mut self.bar, &self.column, input.dt);
        let _ = fish_movement_system(&mut self.fish, input.wave);
        let fish_settled = fish_handle_bar_edge(&mut self.fish, &self.column, input.dt);
        if !bar_settled {
            apply_y_velocity(&mut self.bar.y, self.bar.velocity.0, input.dt);
        }
        if !fish_settled {
            apply_y_velocity(&mut self.fish.y, self.fish.velocity.0, input.dt);
        }
        let over_fish = trigger_over_fish_event(&self.bar, &self.fish);
        update_catch_progress(&mut self.catch_progress, over_fish, input.dt);
        over_fish
    }
}

/// At the end of every tick the bar and the fish lie within the column, inset
/// by their half-heights, wherever they stood before it.
pub proof fn lemma_tick_keeps_bodies_in_column(sim: Simulation, input: TickInput)
    requires
        sim.wf(),
        sim.roomy(),
    ensures
        sim.next_state(input).in_column(),
        sim.next_state(input).roomy(),
        sim.next_state(input).wf(),
{
}

/// After any number of ticks, one at least, whatever their inputs: the bar and
/// the fish lie within the column, the fish moves no faster than its speed,
/// and the catch progress lies between zero and one.
pub proof fn lemma_session_invariants(sim: Simulation, inputs: Seq<TickInput>)
    requires
        sim.wf(),
        sim.roomy(),
        inputs.len() > 0,
    ensures
        sim.after_ticks(inputs).wf(),
        sim.after_ticks(inputs).roomy(),
        sim.after_ticks(inputs).in_column(),
        sim.after_ticks(inputs).fish.within_speed(),
        sim.after_ticks(inputs).catch_progress.wf(),
    decreases inputs.len(),
{
    let earlier = inputs.drop_last();
    if earlier.len() > 0 {
        lemma_session_invariants(sim, earlier);
    }
    lemma_tick_keeps_bodies_in_column(sim.after_ticks(earlier), inputs.last());
}

/// At the end of every tick the fish moves no faster than its speed.
pub proof fn lemma_tick_bounds_fish_velocity(sim: Simulation, input: TickInput)
    requires
        sim.wf(),
    ensures
        sim.next_state(input).fish.within_speed(),
{
}

/// A bar that falls no faster than terminal velocity still does so at the end
/// of the tick, provided that the thrust does not run backwards in time and
/// that, once accelerated, the bar rises no faster than twice the terminal
/// speed: a rebound halves a speed, and a faster bar would leave a bound
/// faster than gravity alone could make it fall.
pub proof fn lemma_tick_keeps_bar_above_terminal(sim: Simulation, input: TickInput)
    requires
        sim.bar.velocity.0 >= TERMINAL_VELOCITY,
        input.held ==> input.dt >= 0,
        sim.bar.accelerated(input.held, input.dt as int).velocity.0 <= -2 * TERMINAL_VELOCITY,
    ensures
        sim.next_state(input).bar.velocity.0 >= TERMINAL_VELOCITY,
{
    let dt = input.dt as int;
    let fallen = gravity_velocity(sim.bar.velocity.0 as int, true, dt);
    assert(fallen >= TERMINAL_VELOCITY);
    if input.held {
        assert(PLAYER_ACCEL * dt >= 0) by (nonlinear_arith)
            requires
                dt >= 0,
                PLAYER_ACCEL > 0,
        ;
        assert(product(PLAYER_ACCEL as int, dt) >= 0);
    }
    let moving = sim.bar.accelerated(input.held, dt);
    assert(moving.velocity.0 >= TERMINAL_VELOCITY);
    assert(rebound_velocity(moving.velocity.0 as int) >= TERMINAL_VELOCITY);
}

/// At the end of every tick the catch progress lies between zero and one.
pub proof fn lemma_tick_bounds_progress(sim: Simulation, input: TickInput)
    ensures
        sim.next_state(input).catch_progress.wf(),
{
}

} // verus!
