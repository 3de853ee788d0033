//! The player and its movement: raw key state becomes signed per-axis
//! deltas, and each axis is collision-checked and committed on its own — x
//! first, then y against the updated position — so a wall on one axis still
//! lets the player slide along the other.
use vstd::prelude::*;

use crate::collision::blocked;
use crate::collision::can_occupy;
use crate::tilemap::TileGrid;
use crate::tilemap::TileKind;
use crate::MAX_COORD;
use crate::MAX_FALL_SPEED;

verus! {

/// One frame's snapshot of the pressed logical keys.
#[derive(Clone, Copy, PartialEq, Eq, Structural, Debug)]
pub struct InputState {
    pub up: bool,
    pub down: bool,
    pub left: bool,
    pub right: bool,
    /// The designated retreat key, honoured only on the combat screen.
    pub exit: bool,
    /// The jump key, honoured only by the platformer movement variant.
    pub jump: bool,
}

impl InputState {
    /// A snapshot with nothing pressed.
    pub fn released() -> (i: InputState)
        ensures
            i == (InputState {
                up: false,
                down: false,
                left: false,
                right: false,
                exit: false,
                jump: false,
            }),
    {
        InputState { up: false, down: false, left: false, right: false, exit: false, jump: false }
    }
}

/// The one player of a session: a world position, a speed, and whether a
/// displacement was attempted this frame.
pub struct Player {
    /// World position on the x axis, in subunits.
    pub x: i64,
    /// World position on the y axis, in subunits.
    pub y: i64,
    /// Movement speed in subunits per second; one tile per second is 1000.
    pub speed: u32,
    /// True exactly for a frame in which some movement key was held, even
    /// if every axis then turned out to be blocked: bumping a wall still
    /// counts as moving for encounter purposes.
    pub just_moved: bool,
}

impl Player {
    /// The position lies in the coordinate range movement preserves.
    pub open spec fn in_bounds(&self) -> bool {
        &&& -(MAX_COORD as int) <= self.x <= MAX_COORD as int
        &&& -(MAX_COORD as int) <= self.y <= MAX_COORD as int
    }
}

impl Default for Player {
    /// A resting player at the origin moving one tile per second.
    fn default() -> (p: Player)
        ensures
            p.x == 0 && p.y == 0 && p.speed == 1000 && !p.just_moved,
    {
        Player { x: 0, y: 0, speed: 1000, just_moved: false }
    }
}

/// Distance covered in one frame, in subunits: the speed, scaled by the
/// frame's length in milliseconds.
pub open spec fn frame_step(speed: int, dt_ms: int) -> int {
    speed * dt_ms / 1000
}

/// The signed delta one axis's opposing key pair produces. Held together,
/// opposing keys cancel; there is deliberately no diagonal normalization,
/// so a diagonal frame covers more ground, as in simple tile games.
pub open spec fn axis_delta(step: int, pos: bool, neg: bool) -> int {
    (if pos {
        step
    } else {
        0
    }) - (if neg {
        step
    } else {
        0
    })
}

/// Coordinates are held inside the safe range by clamping; the range is so
/// wide that an actual clamp would take an absurd journey.
pub open spec fn clamp_coord(v: int) -> int {
    if v < -(MAX_COORD as int) {
        -(MAX_COORD as int)
    } else if v > MAX_COORD as int {
        MAX_COORD as int
    } else {
        v
    }
}

/// This frame's step for a given player.
pub open spec fn step_of(p: Player, dt_ms: u32) -> int {
    frame_step(p.speed as int, dt_ms as int)
}

/// This frame's x delta: right minus left.
pub open spec fn dx_of(p: Player, input: InputState, dt_ms: u32) -> int {
    axis_delta(step_of(p, dt_ms), input.right, input.left)
}

/// This frame's y delta: up minus down.
pub open spec fn dy_of(p: Player, input: InputState, dt_ms: u32) -> int {
    axis_delta(step_of(p, dt_ms), input.up, input.down)
}

/// The x coordinate after resolving a horizontal delta: the clamped target
/// if no solid tile overlaps it, the old coordinate otherwise.
pub open spec fn moved_x(rows: Seq<Seq<TileKind>>, x: int, y: int, dx: int) -> int {
    let t = clamp_coord(x + dx);
    if !blocked(rows, t, y) {
        t
    } else {
        x
    }
}

/// The y coordinate after resolving a vertical delta against the already
/// updated x coordinate.
pub open spec fn moved_y(rows: Seq<Seq<TileKind>>, x: int, y: int, dy: int) -> int {
    let t = clamp_coord(y + dy);
    if !blocked(rows, x, t) {
        t
    } else {
        y
    }
}

/// Whether this frame attempts a move at all.
pub open spec fn post_moved(p: Player, input: InputState, dt_ms: u32) -> bool {
    !(dx_of(p, input, dt_ms) == 0 && dy_of(p, input, dt_ms) == 0)
}

/// The player's x coordinate after one movement frame.
pub open spec fn post_x(rows: Seq<Seq<TileKind>>, p: Player, input: InputState, dt_ms: u32) -> int {
    if post_moved(p, input, dt_ms) {
        moved_x(rows, p.x as int, p.y as int, dx_of(p, input, dt_ms))
    } else {
        p.x as int
    }
}

/// The player's y coordinate after one movement frame, resolved against the
/// committed x coordinate.
pub open spec fn post_y(rows: Seq<Seq<TileKind>>, p: Player, input: InputState, dt_ms: u32) -> int {
    if post_moved(p, input, dt_ms) {
        moved_y(rows, post_x(rows, p, input, dt_ms), p.y as int, dy_of(p, input, dt_ms))
    } else {
        p.y as int
    }
}

/// The whole player value after one movement frame.
pub open spec fn moved_player(
    rows: Seq<Seq<TileKind>>,
    p: Player,
    input: InputState,
    dt_ms: u32,
) -> Player {
    Player {
        x: post_x(rows, p, input, dt_ms) as i64,
        y: post_y(rows, p, input, dt_ms) as i64,
        speed: p.speed,
        just_moved: post_moved(p, input, dt_ms),
    }
}

/// Adds a frame delta to a coordinate and clamps the result back into the
/// safe range.
pub fn clamp_add(v: i64, d: i64) -> (r: i64)
    requires
        -MAX_COORD <= v <= MAX_COORD,
        -0x1000_0000_0000_0000 <= d <= 0x1000_0000_0000_0000,
    ensures
        r == clamp_coord(v + d),
{
    let s = v + d;
    if s < -MAX_COORD {
        -MAX_COORD
    } else if s > MAX_COORD {
        MAX_COORD
    } else {
        s
    }
}

/// One exploration frame of movement. Opposing keys cancel into per-axis
/// deltas; with no delta at all the frame is a no-op that clears
/// `just_moved`. Otherwise the x target is collision-checked and committed
/// first, then the y target against the updated position, and `just_moved`
/// is set whether or not either axis actually moved.
pub fn player_movement(player: &mut Player, grid: &TileGrid, input: InputState, dt_ms: u32)
    requires
        grid.wf(),
        old(player).in_bounds(),
    ensures
        final(player).x == post_x(grid@, *old(player), input, dt_ms),
        final(player).y == post_y(grid@, *old(player), input, dt_ms),
        final(player).just_moved == post_moved(*old(player), input, dt_ms),
        final(player).speed == old(player).speed,
        final(player).in_bounds(),
        *final(player) == moved_player(grid@, *old(player), input, dt_ms),
{
    player.just_moved = false;
    assert((player.speed as int) * (dt_ms as int) <= 0xffff_ffff * 0xffff_ffffint)
        by (nonlinear_arith)
        requires
            player.speed <= 0xffff_ffff && dt_ms <= 0xffff_ffff,
    ;
    let prod: u64 = (player.speed as u64) * (dt_ms as u64);
    let step_u: u64 = prod / 1000;
    proof {
        vstd::arithmetic::div_mod::lemma_div_is_ordered(
            prod as int,
            0xffff_ffff * 0xffff_ffffint,
            1000,
        );
    }
    let step: i64 = step_u as i64;
    let mut x_delta: i64 = 0;
    let mut y_delta: i64 = 0;
    if input.up {
        y_delta += step;
    }
    if input.down {
        y_delta -= step;
    }
    if input.left {
        x_delta -= step;
    }
    if input.right {
        x_delta += step;
    }
    assert(x_delta == dx_of(*old(player), input, dt_ms));
    assert(y_delta == dy_of(*old(player), input, dt_ms));
    if x_delta == 0 && y_delta == 0 {
        return ;
    }
    player.just_moved = true;
    let tx = clamp_add(player.x, x_delta);
    if can_occupy(tx, player.y, grid) {
        player.x = tx;
    }
    let ty = clamp_add(player.y, y_delta);
    if can_occupy(player.x, ty, grid) {
        player.y = ty;
    }
}

/// The platformer-variant player: the same key-driven horizontal motion,
/// with vertical physics — gravity, jumping, and a grounded flag — in
/// place of the up and down keys.
pub struct PlatformerPlayer {
    /// World position on the x axis, in subunits.
    pub x: i64,
    /// World position on the y axis, in subunits.
    pub y: i64,
    /// Horizontal speed in subunits per second.
    pub speed: u32,
    /// Current vertical velocity in subunits per second, positive upward.
    pub vy: i64,
    /// Downward acceleration in subunits per second per second.
    pub gravity: u32,
    /// Upward velocity a jump from the ground adds.
    pub jump_strength: u32,
    /// Whether the player stands on ground; only a blocked fall sets it.
    pub grounded: bool,
}

impl PlatformerPlayer {
    /// Position in the coordinate range and vertical velocity below the
    /// terminal bound, both preserved by every step.
    pub open spec fn in_bounds(&self) -> bool {
        &&& -(MAX_COORD as int) <= self.x <= MAX_COORD as int
        &&& -(MAX_COORD as int) <= self.y <= MAX_COORD as int
        &&& -(MAX_FALL_SPEED as int) <= self.vy <= MAX_FALL_SPEED as int
    }
}

/// A vertical velocity clamped to the terminal bound.
pub open spec fn clamp_speed(v: int) -> int {
    if v < -(MAX_FALL_SPEED as int) {
        -(MAX_FALL_SPEED as int)
    } else if v > MAX_FALL_SPEED as int {
        MAX_FALL_SPEED as int
    } else {
        v
    }
}

/// A velocity scaled by the frame time into a displacement, rounding
/// toward zero so that rising and falling shorten symmetrically.
pub open spec fn scaled_by_dt(v: int, dt_ms: int) -> int {
    if v >= 0 {
        v * dt_ms / 1000
    } else {
        -((-v) * dt_ms / 1000)
    }
}

/// The vertical velocity one platformer frame starts from: a jump impulse
/// if the jump key is down while grounded, then one frame of gravity, the
/// result held inside the terminal bound.
pub open spec fn plat_vy(p: PlatformerPlayer, input: InputState, dt_ms: u32) -> int {
    let jumped = p.vy + (if input.jump && p.grounded {
        p.jump_strength as int
    } else {
        0
    });
    clamp_speed(jumped - frame_step(p.gravity as int, dt_ms as int))
}

/// This frame's horizontal delta for the platformer variant: right minus
/// left, as in the exploration variant.
pub open spec fn plat_dx(p: PlatformerPlayer, input: InputState, dt_ms: u32) -> int {
    axis_delta(frame_step(p.speed as int, dt_ms as int), input.right, input.left)
}

/// The platformer x coordinate after one frame.
pub open spec fn plat_post_x(
    rows: Seq<Seq<TileKind>>,
    p: PlatformerPlayer,
    input: InputState,
    dt_ms: u32,
) -> int {
    moved_x(rows, p.x as int, p.y as int, plat_dx(p, input, dt_ms))
}

/// The platformer vertical candidate after one frame: the clamped target
/// the integrated velocity asks for.
pub open spec fn plat_y_target(
    rows: Seq<Seq<TileKind>>,
    p: PlatformerPlayer,
    input: InputState,
    dt_ms: u32,
) -> int {
    clamp_coord(p.y + scaled_by_dt(plat_vy(p, input, dt_ms), dt_ms as int))
}

/// One platformer frame. Horizontal motion is the key-delta model, checked
/// and committed first. The vertical candidate then follows the integrated
/// velocity against the updated x: if it is unobstructed it is committed
/// and the player is airborne; if it is obstructed the player stops dead
/// and is grounded — collision failure grounds, collision success keeps
/// falling or rising, exactly that way around.
pub fn platformer_movement(
    p: &mut PlatformerPlayer,
    grid: &TileGrid,
    input: InputState,
    dt_ms: u32,
)
    requires
        grid.wf(),
        old(p).in_bounds(),
    ensures
        final(p).in_bounds(),
        final(p).speed == old(p).speed,
        final(p).gravity == old(p).gravity,
        final(p).jump_strength == old(p).jump_strength,
        final(p).x == plat_post_x(grid@, *old(p), input, dt_ms),
        !blocked(
            grid@,
            plat_post_x(grid@, *old(p), input, dt_ms),
            plat_y_target(grid@, *old(p), input, dt_ms),
        ) ==> final(p).y == plat_y_target(grid@, *old(p), input, dt_ms) && final(p).vy
            == plat_vy(*old(p), input, dt_ms) && !final(p).grounded,
        blocked(
            grid@,
            plat_post_x(grid@, *old(p), input, dt_ms),
            plat_y_target(grid@, *old(p), input, dt_ms),
        ) ==> final(p).y == old(p).y && final(p).vy == 0 && final(p).grounded,
{
    assert((p.speed as int) * (dt_ms as int) <= 0xffff_ffff * 0xffff_ffffint
        && (p.gravity as int) * (dt_ms as int) <= 0xffff_ffff * 0xffff_ffffint)
        by (nonlinear_arith)
        requires
            p.speed <= 0xffff_ffff && p.gravity <= 0xffff_ffff && dt_ms <= 0xffff_ffff,
    ;
    proof {
        vstd::arithmetic::div_mod::lemma_div_is_ordered(
            (p.speed as int) * (dt_ms as int),
            0xffff_ffff * 0xffff_ffffint,
            1000,
        );
        vstd::arithmetic::div_mod::lemma_div_is_ordered(
            (p.gravity as int) * (dt_ms as int),
            0xffff_ffff * 0xffff_ffffint,
            1000,
        );
    }
    let step: i64 = ((p.speed as u64) * (dt_ms as u64) / 1000) as i64;
    let mut x_delta: i64 = 0;
    if input.left {
        x_delta -= step;
    }
    if input.right {
        x_delta += step;
    }
    let tx = clamp_add(p.x, x_delta);
    if can_occupy(tx, p.y, grid) {
        p.x = tx;
    }
    let jumped: i64 = if input.jump && p.grounded {
        p.vy + p.jump_strength as i64
    } else {
        p.vy
    };
    let g_step: i64 = ((p.gravity as u64) * (dt_ms as u64) / 1000) as i64;
    let fallen: i64 = jumped - g_step;
    let vy: i64 = if fallen < -MAX_FALL_SPEED {
        -MAX_FALL_SPEED
    } else if fallen > MAX_FALL_SPEED {
        MAX_FALL_SPEED
    } else {
        fallen
    };
    assert(vy == plat_vy(*old(p), input, dt_ms));
    let mag: u64 = if vy >= 0 {
        vy as u64
    } else {
        (-vy) as u64
    };
    assert(mag * (dt_ms as u64) <= 1_000_000_000 * 0xffff_ffffu64) by (nonlinear_arith)
        requires
            mag <= 1_000_000_000u64 && dt_ms <= 0xffff_ffffu64,
    ;
    proof {
        vstd::arithmetic::div_mod::lemma_div_is_ordered(
            (mag as int) * (dt_ms as int),
            1_000_000_000 * 0xffff_ffffint,
            1000,
        );
    }
    let mag_dy: i64 = (mag * (dt_ms as u64) / 1000) as i64;
    let dy: i64 = if vy >= 0 {
        mag_dy
    } else {
        -mag_dy
    };
    assert(dy == scaled_by_dt(vy as int, dt_ms as int));
    let ty = clamp_add(p.y, dy);
    if can_occupy(p.x, ty, grid) {
        p.y = ty;
        p.vy = vy;
        p.grounded = false;
    } else {
        p.vy = 0;
        p.grounded = true;
    }
}

/// Axis-separated sliding: when a frame's x destination is blocked but its
/// y destination from the unchanged x is clear, the committed position
/// changes only in y — the wall never cancels the whole move.
pub proof fn lemma_axis_separated_slide(
    rows: Seq<Seq<TileKind>>,
    p: Player,
    input: InputState,
    dt_ms: u32,
)
    requires
        post_moved(p, input, dt_ms),
        blocked(rows, clamp_coord(p.x + dx_of(p, input, dt_ms)), p.y as int),
        !blocked(rows, p.x as int, clamp_coord(p.y + dy_of(p, input, dt_ms))),
    ensures
        post_x(rows, p, input, dt_ms) == p.x,
        post_y(rows, p, input, dt_ms) == clamp_coord(p.y + dy_of(p, input, dt_ms)),
{
}

} // verus!
