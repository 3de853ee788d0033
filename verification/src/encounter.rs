//! The encounter clock: a repeating accumulator that advances only while
//! the player has just moved and stands on encounter ground, and requests
//! the switch to combat when it reaches its interval.
use vstd::prelude::*;

use crate::player::Player;
use crate::tilemap::kind_at;
use crate::tilemap::round_to_tile;
use crate::tilemap::tile_index_of;
use crate::tilemap::TileGrid;
use crate::tilemap::TileKind;

verus! {

/// The repeating clock armed while the player dwells on encounter ground.
pub struct EncounterTimer {
    /// Qualifying milliseconds accumulated since the clock last fired or
    /// combat was last entered.
    pub elapsed_ms: u32,
    /// The trigger interval, in milliseconds.
    pub interval_ms: u32,
}

impl EncounterTimer {
    /// The accumulator always sits strictly below the positive interval.
    pub open spec fn wf(&self) -> bool {
        0 < self.interval_ms && self.elapsed_ms < self.interval_ms
    }
}

impl Default for EncounterTimer {
    /// A freshly armed clock with one second between encounters.
    fn default() -> (t: EncounterTimer)
        ensures
            t.elapsed_ms == 0 && t.interval_ms == 1000,
    {
        EncounterTimer { elapsed_ms: 0, interval_ms: 1000 }
    }
}

/// The accumulator after one qualifying tick: advanced by the frame time,
/// and rearmed at zero on reaching the interval.
pub open spec fn ticked_elapsed(elapsed: int, interval: int, dt_ms: int) -> int {
    if elapsed + dt_ms >= interval {
        0
    } else {
        elapsed + dt_ms
    }
}

/// Whether one qualifying tick reaches the interval and fires.
pub open spec fn tick_fires(elapsed: int, interval: int, dt_ms: int) -> bool {
    elapsed + dt_ms >= interval
}

impl EncounterTimer {
    /// Advances the clock by one qualifying frame, reporting — and rearming
    /// on — reaching the interval: a repeating countdown, not a one-shot.
    pub fn tick(&mut self, dt_ms: u32) -> (fired: bool)
        requires
            old(self).wf(),
        ensures
            final(self).wf(),
            final(self).interval_ms == old(self).interval_ms,
            fired == tick_fires(
                old(self).elapsed_ms as int,
                old(self).interval_ms as int,
                dt_ms as int,
            ),
            final(self).elapsed_ms == ticked_elapsed(
                old(self).elapsed_ms as int,
                old(self).interval_ms as int,
                dt_ms as int,
            ),
    {
        let sum: u64 = self.elapsed_ms as u64 + dt_ms as u64;
        if sum >= self.interval_ms as u64 {
            self.elapsed_ms = 0;
            true
        } else {
            self.elapsed_ms = sum as u32;
            false
        }
    }
}

/// The grid column under the player: its x coordinate rounded to the
/// nearest cell center.
pub open spec fn tile_col_of(p: Player) -> int {
    tile_index_of(p.x as int)
}

/// The grid row under the player; world y grows upward while rows grow
/// downward, so the y coordinate is negated first.
pub open spec fn tile_row_of(p: Player) -> int {
    tile_index_of(-(p.y as int))
}

/// Whether a frame qualifies to advance the clock: the player attempted a
/// move this frame and the tile under it is an encounter zone.
pub open spec fn qualifies(rows: Seq<Seq<TileKind>>, p: Player) -> bool {
    p.just_moved && kind_at(rows, tile_col_of(p), tile_row_of(p)) == TileKind::EncounterZone
}

/// One exploration-frame check of the encounter clock. On a qualifying
/// frame the clock advances and may fire, requesting combat; on any other
/// frame the clock keeps its value — it is never reset merely because the
/// player stood still or stepped off the zone.
pub fn player_encounter_checking(
    player: &Player,
    grid: &TileGrid,
    timer: &mut EncounterTimer,
    dt_ms: u32,
) -> (fired: bool)
    requires
        grid.wf(),
        old(timer).wf(),
        player.in_bounds(),
    ensures
        final(timer).wf(),
        final(timer).interval_ms == old(timer).interval_ms,
        qualifies(grid@, *player) ==> fired == tick_fires(
            old(timer).elapsed_ms as int,
            old(timer).interval_ms as int,
            dt_ms as int,
        ) && final(timer).elapsed_ms == ticked_elapsed(
            old(timer).elapsed_ms as int,
            old(timer).interval_ms as int,
            dt_ms as int,
        ),
        !qualifies(grid@, *player) ==> !fired && final(timer).elapsed_ms == old(
            timer,
        ).elapsed_ms,
{
    if !player.just_moved {
        return false;
    }
    let col = round_to_tile(player.x);
    let row = round_to_tile(-player.y);
    let k = grid.classify(col, row);
    if k == TileKind::EncounterZone {
        timer.tick(dt_ms)
    } else {
        false
    }
}

} // verus!
