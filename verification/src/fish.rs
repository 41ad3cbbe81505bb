//! The fish: its kinds, its oscillating motion and its stop at the column's
//! bounds.

use vstd::prelude::*;
use crate::bar::YVelocity;
use crate::column::{predicted, Column};
use crate::config::{FISH_ACCEL_MODIFIER, FISH_OSCILLATION_FREQUENCY, INITIAL_FISH_Y};
use crate::fixed::{add_scalars, bounded, clamp_scalar, mul_scalars, product, sum};

verus! {

/// The least and the greatest speed that a kind of fish is given.
#[derive(Clone, Copy, Debug, PartialEq, Eq)]
pub struct SpeedRange(pub i64, pub i64);

/// The kinds of fish.
#[derive(Clone, Copy, Debug, PartialEq, Eq)]
pub enum FishType {
    Simple,
}

/// The ways in which a fish may move. Only `Smooth` has a motion rule.
#[derive(Clone, Copy, Debug, PartialEq, Eq)]
pub enum FishBehaviour {
    Smooth,
    Dart,
    Sinker,
    Wobble,
    Runner,
    Puffer,
}

/// Why a fish was not moved.
#[derive(Clone, Copy, Debug, PartialEq, Eq)]
pub enum MotionError {
    /// The fish's behaviour has no motion rule.
    UnimplementedBehaviour,
}

/// The autonomously moving target.
#[derive(Clone, Copy, Debug, PartialEq, Eq)]
pub struct Fish {
    pub fish_behaviour: FishBehaviour,
    pub fish_speed: i64,
    pub y: i64,
    pub velocity: YVelocity,
    pub half_height: i64,
    pub capture_offset: i64,
}

/// The velocity of a smoothly moving fish of the given speed after one tick
/// in which the oscillator stands at `wave`: the swing is added, and the sum
/// is kept within the speed in either direction.
pub open spec fn swim_velocity(velocity: int, speed: int, wave: int) -> int {
    let accel = product(product(speed, wave), FISH_ACCEL_MODIFIER as int);
    bounded(sum(accel, velocity), -speed, speed)
}

impl FishBehaviour {
    /// The behaviour has a motion rule.
    pub open spec fn implemented(self) -> bool {
        self == FishBehaviour::Smooth
    }

    /// Whether the behaviour has a motion rule.
    pub fn is_implemented(&self) -> (r: bool)
        ensures
            r == self.implemented(),
    {
        match self {
            FishBehaviour::Smooth => true,
            FishBehaviour::Dart => false,
            FishBehaviour::Sinker => false,
            FishBehaviour::Wobble => false,
            FishBehaviour::Runner => false,
            FishBehaviour::Puffer => false,
        }
    }
}

impl FishType {
    /// The range from which the speed of a fish of this kind is drawn.
    pub fn get_speed_range(&self) -> (r: SpeedRange)
        ensures
            r == SpeedRange(75_000_000, 150_000_000),
    {
        match self {
            FishType::Simple => SpeedRange(75_000_000, 150_000_000),
        }
    }

    /// The way in which a fish of this kind moves.
    pub fn get_behaviour_type(&self) -> (r: FishBehaviour)
        ensures
            r == FishBehaviour::Smooth,
    {
        match self {
            FishType::Simple => FishBehaviour::Smooth,
        }
    }

    /// Where the picture of a fish of this kind is kept.
    pub fn get_sprite_path(&self) -> (r: &'static str)
        ensures
            r@ == "fish\\simple_fish_sprite.png"@,
    {
        match self {
            FishType::Simple => "fish\\simple_fish_sprite.png",
        }
    }

    /// The position at which a fish of this kind starts.
    pub fn get_default_y(&self) -> (r: i64)
        ensures
            r == INITIAL_FISH_Y,
    {
        match self {
            FishType::Simple => INITIAL_FISH_Y,
        }
    }
}

impl Fish {
    /// The speed is a magnitude.
    pub open spec fn wf(self) -> bool {
        self.fish_speed >= 0
    }

    /// The velocity stays within the fish's speed in either direction.
    pub open spec fn within_speed(self) -> bool {
        -self.fish_speed <= self.velocity.0 <= self.fish_speed
    }

    /// The fish after its motion generator has run with the oscillator at
    /// `wave`.
    pub open spec fn swum(self, wave: int) -> Fish {
        Fish {
            fish_behaviour: self.fish_behaviour,
            fish_speed: self.fish_speed,
            y: self.y,
            velocity: YVelocity(
                swim_velocity(self.velocity.0 as int, self.fish_speed as int, wave) as i64,
            ),
            half_height: self.half_height,
            capture_offset: self.capture_offset,
        }
    }

    /// The fish's predicted position leaves the range that the column allows
    /// it.
    pub open spec fn reaches_bound(self, column: Column, dt: int) -> bool {
        column.contact(self.half_height as int, self.y as int, self.velocity.0 as int, dt)
    }

    /// The fish after its velocity has carried it for `dt` seconds.
    pub open spec fn carried(self, dt: int) -> Fish {
        Fish {
            fish_behaviour: self.fish_behaviour,
            fish_speed: self.fish_speed,
            y: predicted(self.y as int, self.velocity.0 as int, dt) as i64,
            velocity: self.velocity,
            half_height: self.half_height,
            capture_offset: self.capture_offset,
        }
    }

    /// The fish after one whole tick: its velocity swung by the oscillator,
    /// then either stopped on the bound that it reached, or carried by its
    /// velocity.
    pub open spec fn stepped(self, column: Column, wave: int, dt: int) -> Fish {
        let moving = self.swum(wave);
        if moving.reaches_bound(column, dt) {
            moving.bumped(column, dt)
        } else {
            moving.bumped(column, dt).carried(dt)
        }
    }

    /// The fish after its boundary resolver has run for a tick of `dt`
    /// seconds.
    pub open spec fn bumped(self, column: Column, dt: int) -> Fish {
        let y = column.resolved(self.half_height as int, self.y as int, self.velocity.0 as int, dt);
        let contact = column.contact(
            self.half_height as int,
            self.y as int,
            self.velocity.0 as int,
            dt,
        );
        Fish {
            fish_behaviour: self.fish_behaviour,
            fish_speed: self.fish_speed,
            y: y as i64,
            velocity: YVelocity(
                if contact {
                    0
                } else {
                    self.velocity.0
                },
            ),
            half_height: self.half_height,
            capture_offset: self.capture_offset,
        }
    }
}

/// The angle, in radians, at which the fish's oscillator stands once
/// `elapsed` seconds of simulation time have passed. It depends on the
/// absolute time alone, not on how that time was cut into ticks.
pub fn fish_oscillator_phase(elapsed: i64) -> (phase: i64)
    ensures
        phase == product(elapsed as int, FISH_OSCILLATION_FREQUENCY as int),
{
    mul_scalars(elapsed, FISH_OSCILLATION_FREQUENCY)
}

/// Moves the fish's velocity by the oscillator's swing. `wave` is the sine of
/// the oscillator's phase, which the caller samples. A fish whose behaviour
/// has no motion rule is left as it is and reported.
pub fn fish_movement_system(fish: &mut Fish, wave: i64) -> (r: Result<(), MotionError>)
    requires
        old(fish).wf(),
    ensures
        old(fish).fish_behaviour.implemented() ==> r.is_ok() && *final(fish) == old(fish).swum(
            wave as int,
        ) && final(fish).within_speed(),
        !old(fish).fish_behaviour.implemented() ==> r == Err::<(), MotionError>(
            MotionError::UnimplementedBehaviour,
        ) && *final(fish) == *old(fish),
{
    if !fish.fish_behaviour.is_implemented() {
        return Err(MotionError::UnimplementedBehaviour);
    }
    let fish_y_accel: i64 = mul_scalars(mul_scalars(fish.fish_speed, wave), FISH_ACCEL_MODIFIER);
    fish.velocity.0 = clamp_scalar(
        add_scalars(fish_y_accel, fish.velocity.0),
        -fish.fish_speed,
        fish.fish_speed,
    );
    Ok(())
}

/// Holds the fish's predicted position against the column. On reaching a
/// bound the fish is placed on it and stops; the result says whether it did,
/// and so whether its position for this tick is already settled.
pub fn fish_handle_bar_edge(fish: &mut Fish, column: &Column, dt: i64) -> (hit: bool)
    ensures
        *final(fish) == old(fish).bumped(*column, dt as int),
        hit == column.contact(
            old(fish).half_height as int,
            old(fish).y as int,
            old(fish).velocity.0 as int,
            dt as int,
        ),
        hit && column.fits(old(fish).half_height as int) ==> column.holds(
            final(fish).half_height as int,
            final(fish).y as int,
        ),
        old(fish).wf() && old(fish).within_speed() ==> final(fish).within_speed(),
{
    let found = column.resolve(fish.half_height, fish.y, fish.velocity.0, dt);
    fish.y = found.y;
    if found.contact {
        fish.velocity.0 = 0;
    }
    found.contact
}

/// Resolving the fish against the column a second time, with no time elapsed
/// in either run, leaves it where the first run put it.
pub proof fn lemma_fish_edge_idempotent(fish: Fish, column: Column)
    requires
        column.fits(fish.half_height as int),
    ensures
        fish.bumped(column, 0).bumped(column, 0).y == fish.bumped(column, 0).y,
{
    let once = fish.bumped(column, 0);
    assert(product(fish.velocity.0 as int, 0) == 0);
    assert(product(once.velocity.0 as int, 0) == 0);
}

/// Whatever the oscillator's value and whatever the velocity was, a smoothly
/// moving fish never moves faster than its speed after its motion generator
/// has run.
pub proof fn lemma_swim_within_speed(fish: Fish, wave: int)
    requires
        fish.wf(),
    ensures
        fish.swum(wave).within_speed(),
{
}

} // verus!
