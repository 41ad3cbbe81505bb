//! The fixed constants of the game, as fixed-point scalars.

use vstd::prelude::*;

verus! {

/// Lower and upper extent of the playable column.
pub const BAR_EXTENTS: (i64, i64) = (-128_000_000, 128_000_000);

/// Full height of the player's bar.
pub const BASE_FISHING_ROD_BAR_SIZE: i64 = 64_000_000;

/// Half of the height of the player's bar.
pub const FISHING_ROD_BAR_HALF_HEIGHT: i64 = 32_000_000;

/// Half of the height of a fish.
pub const FISH_HALF_HEIGHT: i64 = 16_000_000;

/// Acceleration that gravity adds to a velocity, per second.
pub const GRAVITY: i64 = -70_000_000;

/// The fastest downward velocity that gravity imparts.
pub const TERMINAL_VELOCITY: i64 = -200_000_000;

/// Acceleration that the held capture input adds to the bar, per second.
pub const PLAYER_ACCEL: i64 = 300_000_000;

/// Fraction of the bar's speed that survives a bounce.
pub const BOUNCE_DAMPENING_FACTOR: i64 = 500_000;

/// A bounced velocity of smaller magnitude than this becomes zero.
pub const ZERO_VEL_THRESHOLD: i64 = 3_000_000;

/// Offset of the fish's capture point from its position.
pub const FISH_CAPTURE_POINT: i64 = 0;

/// Position at which a fish starts.
pub const INITIAL_FISH_Y: i64 = 0;

/// Angular frequency of the fish's oscillator, in radians per second.
pub const FISH_OSCILLATION_FREQUENCY: i64 = 4_000_000;

/// Fraction of the oscillator's swing that reaches the fish's velocity.
pub const FISH_ACCEL_MODIFIER: i64 = 50_000;

/// Progress gained per second while the bar covers the fish.
pub const OVER_FILL_RATE: i64 = 100_000;

/// Progress gained per second while the bar misses the fish (a loss).
pub const NOT_OVER_FILL_RATE: i64 = -50_000;

/// Catch progress at the start of a session.
pub const INITIAL_CATCH_FILL: i64 = 300_000;

} // verus!
