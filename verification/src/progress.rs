//! Overlap of bar and fish, and the catch progress that it drives.

use vstd::prelude::*;
use crate::bar::FishingRodBar;
use crate::config::{INITIAL_CATCH_FILL, NOT_OVER_FILL_RATE, OVER_FILL_RATE};
use crate::fish::Fish;
use crate::fixed::{
    add_scalars, bounded, clamp_scalar, difference, mul_scalars, product, sub_scalars, sum, SCALE,
};

verus! {

/// How close the player is to a catch, from zero to one (`SCALE`).
#[derive(Clone, Copy, Debug, PartialEq, Eq)]
pub struct CatchProgress(pub i64);

/// The fish's capture point lies within the bar's vertical extent, the edges
/// included.
pub open spec fn covers(bar: FishingRodBar, fish: Fish) -> bool {
    let check_point = sum(fish.y as int, fish.capture_offset as int);
    difference(bar.y as int, bar.half_height as int) <= check_point <= sum(
        bar.y as int,
        bar.half_height as int,
    )
}

/// The rate at which progress changes while the bar does or does not cover
/// the fish.
pub open spec fn fill_rate(is_over: bool) -> int {
    if is_over {
        OVER_FILL_RATE as int
    } else {
        NOT_OVER_FILL_RATE as int
    }
}

/// The progress after `dt` seconds at the rate that `is_over` selects, kept
/// between zero and one.
pub open spec fn progress_step(progress: int, is_over: bool, dt: int) -> int {
    bounded(sum(progress, product(fill_rate(is_over), dt)), 0, SCALE as int)
}

impl CatchProgress {
    /// The progress lies between zero and one.
    pub open spec fn wf(self) -> bool {
        0 <= self.0 <= SCALE
    }

    /// The progress as a percentage, for an indicator that fills with it.
    pub fn percent(&self) -> (r: i64)
        ensures
            r == product(self.0 as int, 100 * SCALE),
    {
        mul_scalars(self.0, 100_000_000)
    }
}

impl Default for CatchProgress {
    fn default() -> (r: CatchProgress)
        ensures
            r == CatchProgress(INITIAL_CATCH_FILL),
    {
        CatchProgress(INITIAL_CATCH_FILL)
    }
}

/// Tells whether the bar covers the fish's capture point in this tick.
pub fn trigger_over_fish_event(bar: &FishingRodBar, fish: &Fish) -> (is_over: bool)
    ensures
        is_over == covers(*bar, *fish),
{
    let fish_check_point: i64 = add_scalars(fish.y, fish.capture_offset);
    sub_scalars(bar.y, bar.half_height) <= fish_check_point && fish_check_point <= add_scalars(
        bar.y,
        bar.half_height,
    )
}

/// Fills the progress while the bar covers the fish and drains it otherwise,
/// for `dt` seconds, never leaving the range from zero to one.
pub fn update_catch_progress(catch_progress: &mut CatchProgress, is_over: bool, dt: i64)
    ensures
        final(catch_progress).0 == progress_step(old(catch_progress).0 as int, is_over, dt as int),
        final(catch_progress).wf(),
{
    let fill_diff: i64 = if is_over {
        mul_scalars(OVER_FILL_RATE, dt)
    } else {
        mul_scalars(NOT_OVER_FILL_RATE, dt)
    };
    catch_progress.0 = clamp_scalar(add_scalars(catch_progress.0, fill_diff), 0, SCALE);
}

} // verus!
