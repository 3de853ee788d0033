//! A verified core for a small tile-based exploration game.
//!
//! The world is a fixed grid of tiles parsed from a line-oriented text map.
//! A player box moves over it with axis-separated collision against solid
//! tiles, dwelling on encounter tiles arms a repeating clock, and a two-state
//! mode machine (overworld exploration vs. a combat screen) gates which
//! systems run each frame.
//!
//! All world coordinates are fixed-point integers: one tile is
//! [`TILE_SUBUNITS`] subunits on a side, and a tile at grid cell
//! `(col, row)` is centered at world point `(col * TILE_SUBUNITS,
//! -row * TILE_SUBUNITS)`.
use vstd::prelude::*;

pub mod collision;
pub mod encounter;
pub mod game;
pub mod player;
pub mod tilemap;

verus! {

/// Side of one tile, in world subunits.
pub const TILE_SUBUNITS: i64 = 1000;

/// Half the side of a tile's collision box.
pub const TILE_HALF: i64 = 500;

/// Half the side of the player's collision box. The player box is
/// deliberately a little smaller than a tile (nine tenths of a side) so
/// that sliding flush along a wall does not register as a collision.
pub const PLAYER_HALF: i64 = 450;

/// Greatest magnitude a world coordinate may take. Movement clamps to this
/// range so that coordinate arithmetic stays far from the integer limits;
/// every tile of a loadable map lies well inside it.
pub const MAX_COORD: i64 = 10_000_000_000_000;

/// Largest map source, in bytes, that `TileGrid::load` accepts; keeps every
/// tile's world position comfortably inside `MAX_COORD`.
pub const MAX_MAP_BYTES: usize = 0x4000_0000;

/// Greatest magnitude the platformer variant lets a vertical velocity
/// reach, in subunits per second: a terminal velocity of a million tiles
/// per second, far past anything gravity could usefully add.
pub const MAX_FALL_SPEED: i64 = 1_000_000_000;

} // verus!
