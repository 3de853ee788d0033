use tilegame::player::clamp_add;
use tilegame::player::platformer_movement;
use tilegame::player::player_movement;
use tilegame::player::InputState;
use tilegame::player::PlatformerPlayer;
use tilegame::player::Player;
use tilegame::tilemap::TileGrid;

fn center_player() -> Player {
    Player { x: 1000, y: -1000, speed: 3000, just_moved: false }
}

#[test]
fn default_player_rests_at_origin() {
    let p = Player::default();
    assert_eq!(p.x, 0);
    assert_eq!(p.y, 0);
    assert_eq!(p.speed, 1000);
    assert!(!p.just_moved);
}

#[test]
fn no_keys_clears_just_moved() {
    let grid = TileGrid::load(b"...\n...\n...\n").unwrap();
    let mut p = center_player();
    p.just_moved = true;
    player_movement(&mut p, &grid, InputState::released(), 16);
    assert!(!p.just_moved);
    assert_eq!((p.x, p.y), (1000, -1000));
}

#[test]
fn opposing_keys_cancel_to_a_no_op() {
    let grid = TileGrid::load(b"...\n...\n...\n").unwrap();
    let mut p = center_player();
    let mut input = InputState::released();
    input.left = true;
    input.right = true;
    player_movement(&mut p, &grid, input, 100);
    assert!(!p.just_moved);
    assert_eq!((p.x, p.y), (1000, -1000));
}

#[test]
fn free_move_covers_the_frame_step() {
    let grid = TileGrid::load(b"...\n...\n...\n").unwrap();
    let mut p = center_player();
    let mut input = InputState::released();
    input.right = true;
    // 3000 subunits per second for 100 ms: 300 subunits.
    player_movement(&mut p, &grid, input, 100);
    assert!(p.just_moved);
    assert_eq!((p.x, p.y), (1300, -1000));
}

#[test]
fn diagonal_movement_is_not_normalized() {
    let grid = TileGrid::load(b"...\n...\n...\n").unwrap();
    let mut p = center_player();
    let mut input = InputState::released();
    input.right = true;
    input.up = true;
    player_movement(&mut p, &grid, input, 100);
    // The full step lands on both axes at once.
    assert_eq!((p.x, p.y), (1300, -700));
}

#[test]
fn scenario_a_large_step_into_a_wall_is_rejected() {
    // One big frame whose raw delta exceeds a tile still may not cross
    // into the solid neighbour: x is simply left unchanged.
    let grid = TileGrid::load(b"###\n#.#\n###\n").unwrap();
    let mut p = center_player();
    let mut input = InputState::released();
    input.left = true;
    // 3000 subunits per second for 500 ms: a step of one and a half tiles.
    player_movement(&mut p, &grid, input, 500);
    assert!(p.just_moved);
    assert_eq!((p.x, p.y), (1000, -1000));
}

#[test]
fn wall_slide_commits_only_the_open_axis() {
    // Diagonal move: the x destination is solid, the y destination from
    // the unchanged x is open — the move slides along the wall.
    let grid = TileGrid::load(b"#.#\n#.#\n#.#\n").unwrap();
    let mut p = center_player();
    let mut input = InputState::released();
    input.left = true;
    input.up = true;
    // A step of one tile.
    player_movement(&mut p, &grid, input, 334);
    assert_eq!(p.x, 1000);
    assert_eq!(p.y, -1000 + 1002);
    assert!(p.just_moved);
}

#[test]
fn clamping_holds_the_coordinate_range() {
    assert_eq!(clamp_add(10_000_000_000_000, 1000), 10_000_000_000_000);
    assert_eq!(clamp_add(-10_000_000_000_000, -1), -10_000_000_000_000);
    assert_eq!(clamp_add(5, -10), -5);
}

fn standing_platformer() -> PlatformerPlayer {
    PlatformerPlayer {
        x: 1000,
        y: 0,
        speed: 3000,
        vy: 0,
        gravity: 500,
        jump_strength: 2000,
        grounded: false,
    }
}

#[test]
fn blocked_fall_grounds_and_stops() {
    // Open air over a solid floor: gravity pulls the candidate into the
    // floor, so the player stops dead and is grounded.
    let grid = TileGrid::load(b"...\n###\n").unwrap();
    let mut p = standing_platformer();
    platformer_movement(&mut p, &grid, InputState::released(), 1000);
    assert!(p.grounded);
    assert_eq!(p.vy, 0);
    assert_eq!(p.y, 0);
}

#[test]
fn free_fall_keeps_falling() {
    let grid = TileGrid::load(b"...\n").unwrap();
    let mut p = standing_platformer();
    platformer_movement(&mut p, &grid, InputState::released(), 1000);
    assert!(!p.grounded);
    assert_eq!(p.vy, -500);
    assert_eq!(p.y, -500);
}

#[test]
fn jump_from_the_ground_rises() {
    let grid = TileGrid::load(b"...\n###\n").unwrap();
    let mut p = standing_platformer();
    p.grounded = true;
    let mut input = InputState::released();
    input.jump = true;
    platformer_movement(&mut p, &grid, input, 100);
    // Impulse 2000 minus 50 of gravity, for a tenth of a second.
    assert_eq!(p.vy, 1950);
    assert_eq!(p.y, 195);
    assert!(!p.grounded);
}

#[test]
fn jump_in_the_air_does_nothing() {
    let grid = TileGrid::load(b"...\n").unwrap();
    let mut p = standing_platformer();
    let mut input = InputState::released();
    input.jump = true;
    platformer_movement(&mut p, &grid, input, 1000);
    assert_eq!(p.vy, -500);
    assert_eq!(p.y, -500);
}

#[test]
fn platformer_horizontal_uses_the_key_delta_model() {
    let grid = TileGrid::load(b"...\n###\n").unwrap();
    let mut p = standing_platformer();
    p.grounded = true;
    let mut input = InputState::released();
    input.right = true;
    platformer_movement(&mut p, &grid, input, 100);
    assert_eq!(p.x, 1300);
}
