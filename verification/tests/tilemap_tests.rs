use tilegame::tilemap::round_to_tile;
use tilegame::tilemap::TileGrid;
use tilegame::tilemap::TileKind;

const OVERWORLD_MAP: &[u8] = b"##############\n\
#....~~~~~~..#\n\
#....~~~~~~..#\n\
#....######..#\n\
#....#....#..#\n\
#.........#..#\n\
##############\n";

#[test]
fn overworld_map_dimensions() {
    let grid = TileGrid::load(OVERWORLD_MAP).unwrap();
    assert_eq!(grid.width(), 14);
    assert_eq!(grid.height(), 7);
}

#[test]
fn overworld_map_round_trip() {
    // Re-querying every cell reproduces the source characters' kinds.
    let grid = TileGrid::load(OVERWORLD_MAP).unwrap();
    let lines: Vec<&[u8]> = vec![
        b"##############",
        b"#....~~~~~~..#",
        b"#....~~~~~~..#",
        b"#....######..#",
        b"#....#....#..#",
        b"#.........#..#",
        b"##############",
    ];
    for (row, line) in lines.iter().enumerate() {
        for (col, b) in line.iter().enumerate() {
            let expected = match b {
                b'#' => TileKind::Solid,
                b'~' => TileKind::EncounterZone,
                _ => TileKind::Open,
            };
            assert_eq!(grid.classify(col as i64, row as i64), expected);
        }
    }
}

#[test]
fn classification_table() {
    let grid = TileGrid::load(b"#~. x").unwrap();
    assert_eq!(grid.classify(0, 0), TileKind::Solid);
    assert_eq!(grid.classify(1, 0), TileKind::EncounterZone);
    assert_eq!(grid.classify(2, 0), TileKind::Open);
    assert_eq!(grid.classify(3, 0), TileKind::Open);
    assert_eq!(grid.classify(4, 0), TileKind::Open);
}

#[test]
fn out_of_range_is_open() {
    let grid = TileGrid::load(b"##\n##\n").unwrap();
    assert_eq!(grid.classify(-1, 0), TileKind::Open);
    assert_eq!(grid.classify(0, -1), TileKind::Open);
    assert_eq!(grid.classify(2, 0), TileKind::Open);
    assert_eq!(grid.classify(0, 2), TileKind::Open);
    assert_eq!(grid.classify(1_000_000, 1_000_000), TileKind::Open);
}

#[test]
fn ragged_rows_read_open() {
    let grid = TileGrid::load(b"###\n#\n").unwrap();
    assert_eq!(grid.width(), 3);
    assert_eq!(grid.height(), 2);
    assert_eq!(grid.classify(0, 1), TileKind::Solid);
    assert_eq!(grid.classify(1, 1), TileKind::Open);
    assert_eq!(grid.classify(2, 1), TileKind::Open);
}

#[test]
fn trailing_newline_opens_no_row() {
    let with = TileGrid::load(b"##\n").unwrap();
    let without = TileGrid::load(b"##").unwrap();
    assert_eq!(with.height(), 1);
    assert_eq!(without.height(), 1);
}

#[test]
fn interior_blank_line_is_a_row() {
    let grid = TileGrid::load(b"##\n\n##\n").unwrap();
    assert_eq!(grid.height(), 3);
    assert_eq!(grid.classify(0, 1), TileKind::Open);
    assert_eq!(grid.classify(0, 2), TileKind::Solid);
}

#[test]
fn carriage_returns_are_stripped() {
    let grid = TileGrid::load(b"#.\r\n.#\r\n").unwrap();
    assert_eq!(grid.width(), 2);
    assert_eq!(grid.height(), 2);
    assert_eq!(grid.classify(0, 0), TileKind::Solid);
    assert_eq!(grid.classify(1, 0), TileKind::Open);
    assert_eq!(grid.classify(0, 1), TileKind::Open);
    assert_eq!(grid.classify(1, 1), TileKind::Solid);
}

#[test]
fn empty_source_is_an_error() {
    assert!(TileGrid::load(b"").is_err());
}

#[test]
fn all_blank_source_is_an_error() {
    assert!(TileGrid::load(b"\n\n").is_err());
    assert!(TileGrid::load(b"  \t \n \r\n").is_err());
}

#[test]
fn one_visible_character_suffices() {
    assert!(TileGrid::load(b"\n.\n").is_ok());
}

#[test]
fn world_positions_scale_by_tile_size() {
    assert_eq!(TileGrid::world_position(0, 0), (0, 0));
    assert_eq!(TileGrid::world_position(2, 3), (2000, -3000));
    assert_eq!(TileGrid::world_position(-1, -2), (-1000, 2000));
}

#[test]
fn rounding_to_tiles() {
    assert_eq!(round_to_tile(0), 0);
    assert_eq!(round_to_tile(499), 0);
    assert_eq!(round_to_tile(500), 1);
    assert_eq!(round_to_tile(1499), 1);
    assert_eq!(round_to_tile(1500), 2);
    assert_eq!(round_to_tile(-500), 0);
    assert_eq!(round_to_tile(-501), -1);
    assert_eq!(round_to_tile(-1500), -1);
    assert_eq!(round_to_tile(-1501), -2);
}
