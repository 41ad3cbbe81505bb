//! The player's bar: gravity, thrust and the bounce off the column's bounds.

use vstd::prelude::*;
use crate::column::{predicted, Column};
use crate::config::{
    BOUNCE_DAMPENING_FACTOR, GRAVITY, PLAYER_ACCEL, TERMINAL_VELOCITY, ZERO_VEL_THRESHOLD,
};
use crate::fixed::{add_scalars, mul_scalars, product, sum, SCALE};

verus! {

/// A vertical velocity, in units per second.
#[derive(Clone, Copy, Debug, PartialEq, Eq)]
pub struct YVelocity(pub i64);

/// The player-controlled vertical segment.
#[derive(Clone, Copy, Debug, PartialEq, Eq)]
pub struct FishingRodBar {
    pub y: i64,
    pub velocity: YVelocity,
    pub half_height: i64,
}

/// How the bar is to be shown.
#[derive(Clone, Copy, Debug, PartialEq, Eq)]
pub enum BarVisual {
    Normal,
    OverFish,
}

/// The velocity that gravity leaves after `dt` seconds: one above terminal
/// velocity falls towards it and never past it; any other is kept.
pub open spec fn gravity_velocity(velocity: int, gravity_affected: bool, dt: int) -> int {
    if gravity_affected && velocity > TERMINAL_VELOCITY {
        let fallen = sum(velocity, product(GRAVITY as int, dt));
        if fallen > TERMINAL_VELOCITY {
            fallen
        } else {
            TERMINAL_VELOCITY as int
        }
    } else {
        velocity
    }
}

/// The velocity after `dt` seconds of the player's thrust, if it is applied.
pub open spec fn thrust_velocity(velocity: int, held: bool, dt: int) -> int {
    if held {
        sum(velocity, product(PLAYER_ACCEL as int, dt))
    } else {
        velocity
    }
}

/// The velocity with which the bar leaves a bound that it reached with
/// `velocity`: reversed and damped, and zero where little is left of it.
pub open spec fn rebound_velocity(velocity: int) -> int {
    let damped = product(velocity, -(BOUNCE_DAMPENING_FACTOR as int));
    if -(ZERO_VEL_THRESHOLD as int) < damped < ZERO_VEL_THRESHOLD as int {
        0
    } else {
        damped
    }
}

impl FishingRodBar {
    /// The bar after gravity and the player's thrust have acted on its
    /// velocity for `dt` seconds.
    pub open spec fn accelerated(self, held: bool, dt: int) -> FishingRodBar {
        FishingRodBar {
            y: self.y,
            velocity: YVelocity(
                thrust_velocity(gravity_velocity(self.velocity.0 as int, true, dt), held, dt) as i64,
            ),
            half_height: self.half_height,
        }
    }

    /// The bar's predicted position leaves the range that the column allows
    /// it.
    pub open spec fn reaches_bound(self, column: Column, dt: int) -> bool {
        column.contact(self.half_height as int, self.y as int, self.velocity.0 as int, dt)
    }

    /// The bar after its velocity has carried it for `dt` seconds.
    pub open spec fn carried(self, dt: int) -> FishingRodBar {
        FishingRodBar {
            y: predicted(self.y as int, self.velocity.0 as int, dt) as i64,
            velocity: self.velocity,
            half_height: self.half_height,
        }
    }

    /// The bar after one whole tick: accelerated, then either placed on the
    /// bound that it reached, or carried by its velocity.
    pub open spec fn stepped(self, column: Column, held: bool, dt: int) -> FishingRodBar {
        let moving = self.accelerated(held, dt);
        if moving.reaches_bound(column, dt) {
            moving.bounced(column, dt)
        } else {
            moving.bounced(column, dt).carried(dt)
        }
    }

    /// The bar after its boundary resolver has run for a tick of `dt` seconds.
    pub open spec fn bounced(self, column: Column, dt: int) -> FishingRodBar {
        let y = column.resolved(self.half_height as int, self.y as int, self.velocity.0 as int, dt);
        let contact = column.contact(
            self.half_height as int,
            self.y as int,
            self.velocity.0 as int,
            dt,
        );
        FishingRodBar {
            y: y as i64,
            velocity: YVelocity(
                if contact {
                    rebound_velocity(self.velocity.0 as int) as i64
                } else {
                    self.velocity.0
                },
            ),
            half_height: self.half_height,
        }
    }
}

/// Lets gravity act on a velocity for `dt` seconds.
pub fn apply_gravity(velocity: &mut YVelocity, gravity_affected: bool, dt: i64)
    ensures
        final(velocity).0 == gravity_velocity(old(velocity).0 as int, gravity_affected, dt as int),
        gravity_affected && old(velocity).0 >= TERMINAL_VELOCITY ==> final(velocity).0
            >= TERMINAL_VELOCITY,
{
    if gravity_affected && velocity.0 > TERMINAL_VELOCITY {
        let fallen: i64 = add_scalars(velocity.0, mul_scalars(GRAVITY, dt));
        velocity.0 = if fallen > TERMINAL_VELOCITY {
            fallen
        } else {
            TERMINAL_VELOCITY
        };
    }
}

/// Adds the player's thrust to the bar's velocity while the capture input is
/// held.
pub fn apply_player_accel(velocity: &mut YVelocity, held: bool, dt: i64)
    ensures
        final(velocity).0 == thrust_velocity(old(velocity).0 as int, held, dt as int),
{
    if held {
        velocity.0 = add_scalars(velocity.0, mul_scalars(PLAYER_ACCEL, dt));
    }
}

/// Holds the bar's predicted position against the column. On reaching a bound
/// the bar is placed on it and bounces; the result says whether it did, and so
/// whether its position for this tick is already settled.
pub fn handle_bar_bounce(bar: &mut FishingRodBar, column: &Column, dt: i64) -> (bounce: bool)
    ensures
        *final(bar) == old(bar).bounced(*column, dt as int),
        bounce == column.contact(
            old(bar).half_height as int,
            old(bar).y as int,
            old(bar).velocity.0 as int,
            dt as int,
        ),
        bounce && column.fits(old(bar).half_height as int) ==> column.holds(
            final(bar).half_height as int,
            final(bar).y as int,
        ),
{
    let found = column.resolve(bar.half_height, bar.y, bar.velocity.0, dt);
    bar.y = found.y;
    if found.contact {
        let damped: i64 = mul_scalars(bar.velocity.0, -BOUNCE_DAMPENING_FACTOR);
        bar.velocity.0 = if -ZERO_VEL_THRESHOLD < damped && damped < ZERO_VEL_THRESHOLD {
            0
        } else {
            damped
        };
    }
    found.contact
}

/// Resolving the bar against the column a second time, with no time elapsed
/// in either run, leaves it where the first run put it.
pub proof fn lemma_bar_bounce_idempotent(bar: FishingRodBar, column: Column)
    requires
        column.fits(bar.half_height as int),
    ensures
        bar.bounced(column, 0).bounced(column, 0).y == bar.bounced(column, 0).y,
{
    let once = bar.bounced(column, 0);
    assert(product(bar.velocity.0 as int, 0) == 0);
    assert(product(once.velocity.0 as int, 0) == 0);
}

/// A bar that reaches the upper bound while rising leaves it falling, with
/// its speed multiplied by the dampening factor, or at rest where less than
/// the snap threshold is left of that speed.
pub proof fn lemma_bounce_reverses_and_damps(bar: FishingRodBar, column: Column, dt: int)
    requires
        predicted(bar.y as int, bar.velocity.0 as int, dt) > column.highest(bar.half_height as int),
        bar.velocity.0 > 0,
    ensures
        ({
            let left = (bar.velocity.0 * BOUNCE_DAMPENING_FACTOR) / (SCALE as int);
            bar.bounced(column, dt).velocity.0 == if left < ZERO_VEL_THRESHOLD {
                0
            } else {
                -left
            }
        }),
        bar.bounced(column, dt).velocity.0 <= 0,
        bar.bounced(column, dt).y == column.highest(bar.half_height as int),
{
}

/// The look of the bar for a tick in which it does or does not cover the fish.
pub fn bar_visual(over_fish: bool) -> (r: BarVisual)
    ensures
        r == if over_fish {
            BarVisual::OverFish
        } else {
            BarVisual::Normal
        },
{
    if over_fish {
        BarVisual::OverFish
    } else {
        BarVisual::Normal
    }
}

} // verus!
