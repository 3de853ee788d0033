//! The top-level simulation: the application mode machine (overworld
//! exploration vs. the combat screen), the entry and exit hooks it runs,
//! and the fixed per-frame order — movement, camera follow, encounter
//! check — that the mode gates.
use vstd::prelude::*;

use crate::encounter::qualifies;
use crate::encounter::tick_fires;
use crate::encounter::ticked_elapsed;
use crate::encounter::player_encounter_checking;
use crate::encounter::EncounterTimer;
use crate::player::moved_player;
use crate::player::player_movement;
use crate::player::InputState;
use crate::player::Player;
use crate::tilemap::TileGrid;

verus! {

/// The application mode: which systems run each frame. Transitions happen
/// only through explicit requests, never implicitly.
#[derive(Clone, Copy, PartialEq, Eq, Structural, Debug)]
pub enum GameState {
    /// Free exploration over the tile map; the initial mode.
    Overworld,
    /// The combat screen; exploration systems are suspended.
    Combat,
}

/// The whole simulation: the loaded grid and every piece of per-session
/// state the systems share. One of each exists per run.
pub struct Game {
    /// The world map, read-only after loading.
    pub grid: TileGrid,
    /// The one player.
    pub player: Player,
    /// The encounter clock.
    pub timer: EncounterTimer,
    /// The current application mode.
    pub state: GameState,
    /// How many enemy marker entities stand on the combat screen.
    pub enemy_count: u32,
    /// Whether the player sprite is shown; it is hidden, not destroyed,
    /// while combat is on screen.
    pub player_visible: bool,
    /// Camera center, x axis.
    pub camera_x: i64,
    /// Camera center, y axis.
    pub camera_y: i64,
}

impl Game {
    /// Every piece of state is internally consistent: the grid and clock
    /// are well formed, the player is in range, and the mode determines
    /// both the enemy marker count and the player sprite's visibility.
    pub open spec fn wf(&self) -> bool {
        &&& self.grid.wf()
        &&& self.player.in_bounds()
        &&& self.timer.wf()
        &&& self.enemy_count == (if self.state == GameState::Combat {
            1int
        } else {
            0int
        })
        &&& self.player_visible == (self.state == GameState::Overworld)
    }

    /// A fresh session on a loaded grid: exploration mode, the player two
    /// tiles right and two tiles down of the origin at three tiles per
    /// second, a one-second encounter clock, and the camera at the origin.
    pub fn new(grid: TileGrid) -> (g: Game)
        requires
            grid.wf(),
        ensures
            g.wf(),
            g.grid == grid,
            g.player.x == 2000 && g.player.y == -2000,
            g.player.speed == 3000 && !g.player.just_moved,
            g.timer.elapsed_ms == 0 && g.timer.interval_ms == 1000,
            g.state == GameState::Overworld,
            g.enemy_count == 0,
            g.player_visible,
            g.camera_x == 0 && g.camera_y == 0,
    {
        Game {
            grid,
            player: Player { x: 2000, y: -2000, speed: 3000, just_moved: false },
            timer: EncounterTimer::default(),
            state: GameState::Overworld,
            enemy_count: 0,
            player_visible: true,
            camera_x: 0,
            camera_y: 0,
        }
    }

    /// Requests the switch to the combat screen. From exploration this is
    /// the combat entry hook: spawn the single enemy marker, recenter the
    /// camera on the origin (the combat screen does not scroll), hide the
    /// player sprite and rearm the encounter clock. Requested while combat
    /// is already on screen it is ignored: an invalid transition is a
    /// no-op, never an error.
    pub fn enter_combat(&mut self) -> (changed: bool)
        requires
            old(self).wf(),
        ensures
            final(self).wf(),
            changed == (old(self).state == GameState::Overworld),
            final(self).state == GameState::Combat,
            final(self).enemy_count == 1,
            !final(self).player_visible,
            final(self).grid == old(self).grid,
            final(self).player == old(self).player,
            final(self).timer.interval_ms == old(self).timer.interval_ms,
            changed ==> final(self).timer.elapsed_ms == 0 && final(self).camera_x == 0
                && final(self).camera_y == 0,
            !changed ==> final(self).timer.elapsed_ms == old(self).timer.elapsed_ms
                && final(self).camera_x == old(self).camera_x && final(self).camera_y == old(
                self,
            ).camera_y,
    {
        match self.state {
            GameState::Overworld => {
                self.state = GameState::Combat;
                self.enemy_count = 1;
                self.player_visible = false;
                self.camera_x = 0;
                self.camera_y = 0;
                self.timer.elapsed_ms = 0;
                true
            },
            GameState::Combat => false,
        }
    }

    /// Requests the retreat back to exploration. From combat this is the
    /// exit hook: despawn the enemy marker and show the player sprite
    /// again — position and clock persist untouched for re-entry.
    /// Requested during exploration it is ignored as a no-op.
    pub fn exit_combat(&mut self) -> (changed: bool)
        requires
            old(self).wf(),
        ensures
            final(self).wf(),
            changed == (old(self).state == GameState::Combat),
            final(self).state == GameState::Overworld,
            final(self).enemy_count == 0,
            final(self).player_visible,
            final(self).grid == old(self).grid,
            final(self).player == old(self).player,
            final(self).timer.elapsed_ms == old(self).timer.elapsed_ms,
            final(self).timer.interval_ms == old(self).timer.interval_ms,
            final(self).camera_x == old(self).camera_x,
            final(self).camera_y == old(self).camera_y,
    {
        match self.state {
            GameState::Combat => {
                self.state = GameState::Overworld;
                self.enemy_count = 0;
                self.player_visible = true;
                true
            },
            GameState::Overworld => false,
        }
    }
}

/// The player value one frame leaves behind: moved during exploration,
/// untouched on the combat screen.
pub open spec fn frame_player(g: Game, input: InputState, dt_ms: u32) -> Player {
    if g.state == GameState::Overworld {
        moved_player(g.grid@, g.player, input, dt_ms)
    } else {
        g.player
    }
}

/// Whether this frame's encounter check fires: only during exploration, on
/// a post-movement position that qualifies, with the clock reaching its
/// interval.
pub open spec fn frame_fires(g: Game, input: InputState, dt_ms: u32) -> bool {
    &&& g.state == GameState::Overworld
    &&& qualifies(g.grid@, moved_player(g.grid@, g.player, input, dt_ms))
    &&& tick_fires(g.timer.elapsed_ms as int, g.timer.interval_ms as int, dt_ms as int)
}

/// The encounter clock's accumulator after one frame: advanced (and
/// rearmed at zero when it fires) only on a qualifying exploration frame,
/// kept as it is on every other frame — combat frames included.
pub open spec fn frame_elapsed(g: Game, input: InputState, dt_ms: u32) -> int {
    if g.state == GameState::Overworld && qualifies(
        g.grid@,
        moved_player(g.grid@, g.player, input, dt_ms),
    ) {
        ticked_elapsed(g.timer.elapsed_ms as int, g.timer.interval_ms as int, dt_ms as int)
    } else {
        g.timer.elapsed_ms as int
    }
}

/// The application mode after one frame: combat once the encounter fires,
/// exploration once the retreat key is honoured, otherwise unchanged.
pub open spec fn frame_state(g: Game, input: InputState, dt_ms: u32) -> GameState {
    if g.state == GameState::Overworld {
        if frame_fires(g, input, dt_ms) {
            GameState::Combat
        } else {
            GameState::Overworld
        }
    } else {
        if input.exit {
            GameState::Overworld
        } else {
            GameState::Combat
        }
    }
}

/// The camera center after one frame: it follows the player's committed
/// position every exploration frame, snaps to the origin the moment combat
/// begins, and stays put while the combat screen is up.
pub open spec fn frame_camera(g: Game, input: InputState, dt_ms: u32) -> (int, int) {
    if g.state != GameState::Overworld {
        (g.camera_x as int, g.camera_y as int)
    } else if frame_fires(g, input, dt_ms) {
        (0, 0)
    } else {
        (
            frame_player(g, input, dt_ms).x as int,
            frame_player(g, input, dt_ms).y as int,
        )
    }
}

impl Game {
    /// One simulated frame, in the fixed order the systems require: during
    /// exploration, movement resolves first, the camera follows the
    /// committed position, then the encounter check runs on the new tile
    /// and may switch the mode to combat; on the combat screen only the
    /// retreat key is consulted. Transitions are synchronous within the
    /// tick, and systems of the other mode simply do not run.
    pub fn frame(&mut self, input: InputState, dt_ms: u32)
        requires
            old(self).wf(),
        ensures
            final(self).wf(),
            final(self).grid == old(self).grid,
            final(self).player == frame_player(*old(self), input, dt_ms),
            final(self).state == frame_state(*old(self), input, dt_ms),
            final(self).timer.elapsed_ms == frame_elapsed(*old(self), input, dt_ms),
            final(self).timer.interval_ms == old(self).timer.interval_ms,
            final(self).enemy_count == (if frame_state(*old(self), input, dt_ms)
                == GameState::Combat {
                1int
            } else {
                0int
            }),
            final(self).player_visible == (frame_state(*old(self), input, dt_ms)
                == GameState::Overworld),
            final(self).camera_x == frame_camera(*old(self), input, dt_ms).0,
            final(self).camera_y == frame_camera(*old(self), input, dt_ms).1,
    {
        match self.state {
            GameState::Combat => {
                if input.exit {
                    self.exit_combat();
                }
            },
            GameState::Overworld => {
                player_movement(&mut self.player, &self.grid, input, dt_ms);
                self.camera_x = self.player.x;
                self.camera_y = self.player.y;
                let fired = player_encounter_checking(
                    &self.player,
                    &self.grid,
                    &mut self.timer,
                    dt_ms,
                );
                if fired {
                    self.enter_combat();
                }
            },
        }
    }
}

/// Exactly one enemy marker entity stands on the combat screen and none
/// during exploration: entering combat spawns it, leaving despawns it, and
/// no other frame touches it.
pub proof fn lemma_enemy_marker_matches_mode(g: Game)
    requires
        g.wf(),
    ensures
        g.state == GameState::Combat ==> g.enemy_count == 1,
        g.state == GameState::Overworld ==> g.enemy_count == 0,
        g.player_visible <==> g.state == GameState::Overworld,
{
}

/// The mode changes only through its two explicit requests: a frame leaves
/// exploration only because the encounter fired, and leaves combat only
/// because the retreat key was pressed.
pub proof fn lemma_mode_changes_only_on_request(g: Game, input: InputState, dt_ms: u32)
    ensures
        g.state == GameState::Overworld && frame_state(g, input, dt_ms) == GameState::Combat
            ==> frame_fires(g, input, dt_ms),
        g.state == GameState::Combat && frame_state(g, input, dt_ms) == GameState::Overworld
            ==> input.exit,
{
}

/// The encounter clock advances only on an exploration frame whose moved
/// player both attempted a move and stands on an encounter tile; on every
/// other frame — every combat frame included — it keeps its value.
pub proof fn lemma_clock_advances_only_qualifying(g: Game, input: InputState, dt_ms: u32)
    ensures
        g.state == GameState::Combat ==> frame_elapsed(g, input, dt_ms)
            == g.timer.elapsed_ms as int,
        !qualifies(g.grid@, moved_player(g.grid@, g.player, input, dt_ms)) ==> frame_elapsed(
            g,
            input,
            dt_ms,
        ) == g.timer.elapsed_ms as int,
{
}

} // verus!
