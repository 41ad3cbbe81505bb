//! The playable column and the clamping of a moving body to it.

use vstd::prelude::*;
use crate::fixed::{add_scalars, difference, mul_scalars, product, sub_scalars, sum};

verus! {

/// Why a configuration was turned down.
#[derive(Clone, Copy, Debug, PartialEq, Eq)]
pub enum ConfigError {
    /// The column's upper extent does not lie above its lower extent.
    DegenerateColumn,
}

/// The bounded vertical range within which the bar and the fish move.
#[derive(Clone, Copy, Debug, PartialEq, Eq)]
pub struct Column {
    pub lower: i64,
    pub upper: i64,
}

/// What a boundary resolver found: whether the body reached a bound, and the
/// position it holds afterwards.
#[derive(Clone, Copy, Debug, PartialEq, Eq)]
pub struct Resolution {
    pub contact: bool,
    pub y: i64,
}

/// Where a body at `y` moving with `velocity` stands after `dt` seconds.
pub open spec fn predicted(y: int, velocity: int, dt: int) -> int {
    sum(y, product(velocity, dt))
}

impl Column {
    /// The upper extent lies above the lower one.
    pub open spec fn wf(self) -> bool {
        self.lower < self.upper
    }

    /// The lowest position that the centre of a body of the given half-height
    /// may take.
    pub open spec fn lowest(self, half_height: int) -> int {
        sum(self.lower as int, half_height)
    }

    /// The highest position that the centre of a body of the given half-height
    /// may take.
    pub open spec fn highest(self, half_height: int) -> int {
        difference(self.upper as int, half_height)
    }

    /// A body of the given half-height has room in the column.
    pub open spec fn fits(self, half_height: int) -> bool {
        self.lowest(half_height) <= self.highest(half_height)
    }

    /// The position `y` keeps a body of the given half-height inside the
    /// column.
    pub open spec fn holds(self, half_height: int, y: int) -> bool {
        self.lowest(half_height) <= y <= self.highest(half_height)
    }

    /// The body's predicted position leaves the range allowed to it.
    pub open spec fn contact(self, half_height: int, y: int, velocity: int, dt: int) -> bool {
        let next = predicted(y, velocity, dt);
        next > self.highest(half_height) || next < self.lowest(half_height)
    }

    /// The position that a boundary resolver commits: the bound that the
    /// predicted position crosses, and else the position as it was.
    pub open spec fn resolved(self, half_height: int, y: int, velocity: int, dt: int) -> int {
        let next = predicted(y, velocity, dt);
        if next > self.highest(half_height) {
            self.highest(half_height)
        } else if next < self.lowest(half_height) {
            self.lowest(half_height)
        } else {
            y
        }
    }

    /// Builds a column, turning down one whose upper extent does not exceed
    /// its lower extent.
    pub fn new(lower: i64, upper: i64) -> (r: Result<Column, ConfigError>)
        ensures
            lower < upper ==> r == Ok::<Column, ConfigError>(Column { lower, upper }),
            lower >= upper ==> r == Err::<Column, ConfigError>(ConfigError::DegenerateColumn),
    {
        if lower < upper {
            Ok(Column { lower, upper })
        } else {
            Err(ConfigError::DegenerateColumn)
        }
    }

    /// Whether the upper extent lies above the lower one.
    pub fn is_valid(&self) -> (r: bool)
        ensures
            r == self.wf(),
    {
        self.lower < self.upper
    }

    /// Predicts where a body stands after `dt` seconds and holds that against
    /// the column: on crossing a bound the body is placed on it.
    pub fn resolve(&self, half_height: i64, y: i64, velocity: i64, dt: i64) -> (r: Resolution)
        ensures
            r.contact == self.contact(half_height as int, y as int, velocity as int, dt as int),
            r.y == self.resolved(half_height as int, y as int, velocity as int, dt as int),
    {
        let highest_pos: i64 = sub_scalars(self.upper, half_height);
        let lowest_pos: i64 = add_scalars(self.lower, half_height);
        let next_y: i64 = add_scalars(y, mul_scalars(velocity, dt));
        if next_y > highest_pos {
            Resolution { contact: true, y: highest_pos }
        } else if next_y < lowest_pos {
            Resolution { contact: true, y: lowest_pos }
        } else {
            Resolution { contact: false, y }
        }
    }
}

/// Applies a velocity to a position for `dt` seconds.
pub fn apply_y_velocity(y: &mut i64, velocity: i64, dt: i64)
    ensures
        *final(y) == predicted(*old(y) as int, velocity as int, dt as int),
{
    *y = add_scalars(*y, mul_scalars(velocity, dt));
}

} // verus!
