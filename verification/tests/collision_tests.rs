use tilegame::collision::can_occupy;
use tilegame::tilemap::TileGrid;

#[test]
fn solid_center_is_never_occupiable() {
    // A player box centered exactly on a solid tile overlaps it fully.
    let grid = TileGrid::load(b"#.#\n...\n#.#\n").unwrap();
    for (col, row) in [(0i64, 0i64), (2, 0), (0, 2), (2, 2)] {
        let (x, y) = TileGrid::world_position(col, row);
        assert!(!can_occupy(x, y, &grid));
    }
}

#[test]
fn open_interior_is_occupiable() {
    // Fully inside an open tile, with no solid tile adjacent, the position
    // is free.
    let grid = TileGrid::load(b"...\n...\n...\n").unwrap();
    assert!(can_occupy(1000, -1000, &grid));
    assert!(can_occupy(1040, -960, &grid));
}

#[test]
fn overlap_boundary_is_exact() {
    // The boxes' half-sides sum to 950 subunits: any closer on both axes
    // collides, at exactly 950 on one axis they no longer overlap.
    let grid = TileGrid::load(b"..#\n").unwrap();
    // The solid tile is centered at (2000, 0).
    assert!(!can_occupy(1051, 0, &grid));
    assert!(can_occupy(1050, 0, &grid));
    assert!(!can_occupy(2000, 949, &grid));
    assert!(can_occupy(2000, 950, &grid));
}

#[test]
fn out_of_map_ground_is_open() {
    let grid = TileGrid::load(b"#\n").unwrap();
    assert!(can_occupy(-5000, 3000, &grid));
    assert!(can_occupy(10_000, -10_000, &grid));
}

#[test]
fn both_axes_must_overlap() {
    let grid = TileGrid::load(b"..#\n").unwrap();
    // Close in x but a full tile away in y: no collision.
    assert!(can_occupy(2000, -1000, &grid));
    // Close in y but far in x: no collision.
    assert!(can_occupy(0, -100, &grid));
}
