//! The tile grid: parsing a line-oriented text map into classified tiles,
//! per-cell classification lookup, and world-space positions of cells.
use vstd::prelude::*;

use crate::MAX_COORD;
use crate::MAX_MAP_BYTES;
use crate::TILE_HALF;
use crate::TILE_SUBUNITS;

verus! {

/// Classification of one grid cell.
#[derive(Clone, Copy, PartialEq, Eq, Structural, Debug)]
pub enum TileKind {
    /// Walkable ground; also what any cell outside the map reads as.
    Open,
    /// Blocks the player's collision box.
    Solid,
    /// Walkable ground that arms the encounter clock while dwelt on.
    EncounterZone,
}

/// Error for a map source that holds no usable row: the source is empty, or
/// every line is blank once trailing whitespace is discounted.
#[derive(Clone, Copy, PartialEq, Eq, Structural, Debug)]
pub struct MapFormatError;

/// The kind a single map byte denotes: `#` is solid, `~` is an encounter
/// zone, and every other byte (`.`, spaces, anything unrecognized) is open.
pub open spec fn kind_of_byte(b: u8) -> TileKind {
    if b == 35 {
        TileKind::Solid
    } else if b == 126 {
        TileKind::EncounterZone
    } else {
        TileKind::Open
    }
}

/// Index of the first line-feed byte in `s`, or `s.len()` if there is none.
pub open spec fn first_newline(s: Seq<u8>) -> nat
    decreases s.len(),
{
    if s.len() == 0 {
        0
    } else if s[0] == 10 {
        0
    } else {
        1 + first_newline(s.drop_first())
    }
}

/// The lines of `s`, split on line-feed bytes. A trailing line feed ends the
/// last line rather than opening an empty one, matching how text files are
/// usually terminated; an empty source has no lines at all.
pub open spec fn split_lines(s: Seq<u8>) -> Seq<Seq<u8>>
    decreases s.len(),
{
    if s.len() == 0 {
        Seq::empty()
    } else {
        let i = first_newline(s);
        if i >= s.len() {
            seq![s]
        } else {
            seq![s.subrange(0, i as int)] + split_lines(
                s.subrange(i as int + 1, s.len() as int),
            )
        }
    }
}

/// Bytes that count as blank when deciding whether a line holds anything.
pub open spec fn is_space(b: u8) -> bool {
    b == 32 || b == 9 || b == 13
}

/// A line with nothing but whitespace on it.
pub open spec fn is_blank_line(l: Seq<u8>) -> bool {
    forall|k: int| 0 <= k < l.len() ==> is_space(#[trigger] l[k])
}

/// Whether every line of the split source is blank; an empty source is
/// vacuously all blank.
pub open spec fn all_blank(lines: Seq<Seq<u8>>) -> bool {
    forall|i: int| 0 <= i < lines.len() ==> is_blank_line(#[trigger] lines[i])
}

/// A line with any carriage return dropped from its end, so that maps with
/// either line-ending convention read the same.
pub open spec fn strip_cr(l: Seq<u8>) -> Seq<u8> {
    if l.len() > 0 && l[l.len() - 1] == 13 {
        l.drop_last()
    } else {
        l
    }
}

/// The classified row a single source line denotes.
pub open spec fn line_kinds(l: Seq<u8>) -> Seq<TileKind> {
    strip_cr(l).map_values(|b: u8| kind_of_byte(b))
}

/// The classified rows the whole source denotes.
pub open spec fn rows_of_source(s: Seq<u8>) -> Seq<Seq<TileKind>> {
    split_lines(s).map_values(|l: Seq<u8>| line_kinds(l))
}

/// Classification of cell `(col, row)` against a set of rows: the recorded
/// kind inside the grid, and `Open` everywhere outside it. Rows may be
/// ragged; a short row simply ends in `Open` cells like any other
/// out-of-range query.
pub open spec fn kind_at(rows: Seq<Seq<TileKind>>, col: int, row: int) -> TileKind {
    if 0 <= row < rows.len() && 0 <= col < rows[row].len() {
        rows[row][col]
    } else {
        TileKind::Open
    }
}

/// Length of the longest row.
pub open spec fn max_row_len(rows: Seq<Seq<TileKind>>) -> int
    decreases rows.len(),
{
    if rows.len() == 0 {
        0
    } else {
        let rest = max_row_len(rows.drop_last());
        if rows.last().len() > rest {
            rows.last().len() as int
        } else {
            rest
        }
    }
}

/// The rows a sequence of built lines denotes.
pub open spec fn rows_view(rows: Seq<Vec<TileKind>>) -> Seq<Seq<TileKind>> {
    rows.map_values(|r: Vec<TileKind>| r@)
}

proof fn lemma_first_newline_none(s: Seq<u8>)
    requires
        forall|k: int| 0 <= k < s.len() ==> s[k] != 10,
    ensures
        first_newline(s) == s.len(),
    decreases s.len(),
{
    if s.len() > 0 {
        assert(s[0] != 10);
        assert forall|k: int| 0 <= k < s.drop_first().len() implies s.drop_first()[k] != 10 by {
            assert(s.drop_first()[k] == s[k + 1]);
        }
        lemma_first_newline_none(s.drop_first());
    }
}

proof fn lemma_first_newline_at(s: Seq<u8>, j: int)
    requires
        0 <= j < s.len(),
        s[j] == 10,
        forall|k: int| 0 <= k < j ==> s[k] != 10,
    ensures
        first_newline(s) == j,
    decreases s.len(),
{
    if j > 0 {
        assert(s[0] != 10);
        assert forall|k: int| 0 <= k < j - 1 implies s.drop_first()[k] != 10 by {
            assert(s.drop_first()[k] == s[k + 1]);
        }
        assert(s.drop_first()[j - 1] == s[j]);
        lemma_first_newline_at(s.drop_first(), j - 1);
    }
}

/// Every row is at most as long as the longest one.
pub proof fn lemma_max_row_len_ge(rows: Seq<Seq<TileKind>>, r: int)
    requires
        0 <= r < rows.len(),
    ensures
        rows[r].len() <= max_row_len(rows),
    decreases rows.len(),
{
    if r + 1 < rows.len() {
        lemma_max_row_len_ge(rows.drop_last(), r);
        assert(rows.drop_last()[r] == rows[r]);
    }
}

/// A bound on every row is a bound on the longest one.
pub proof fn lemma_max_row_len_le(rows: Seq<Seq<TileKind>>, bound: int)
    requires
        forall|i: int| 0 <= i < rows.len() ==> (#[trigger] rows[i]).len() <= bound,
        0 <= bound,
    ensures
        max_row_len(rows) <= bound,
    decreases rows.len(),
{
    if rows.len() > 0 {
        assert(rows.last() == rows[rows.len() - 1]);
        lemma_max_row_len_le(rows.drop_last(), bound);
    }
}

/// The world grid: one classified row per source line, with the inferred
/// dimensions. Built once by [`TileGrid::load`] and read-only afterwards.
pub struct TileGrid {
    rows: Vec<Vec<TileKind>>,
    width: usize,
    height: usize,
}

impl View for TileGrid {
    type V = Seq<Seq<TileKind>>;

    closed spec fn view(&self) -> Seq<Seq<TileKind>> {
        rows_view(self.rows@)
    }
}

impl TileGrid {
    /// The grid's dimensions match its rows, and every count is small enough
    /// that a cell's world position stays far inside the coordinate range.
    pub closed spec fn wf(&self) -> bool {
        &&& self.height == self@.len()
        &&& self.width == max_row_len(self@)
        &&& self@.len() <= MAX_MAP_BYTES
        &&& forall|i: int| 0 <= i < self@.len() ==> (#[trigger] self@[i]).len() <= MAX_MAP_BYTES
    }

    /// Number of rows: the line count of the source.
    pub fn height(&self) -> (h: usize)
        requires
            self.wf(),
        ensures
            h == self@.len(),
            h <= MAX_MAP_BYTES,
    {
        self.height
    }

    /// Number of columns: the length of the longest row.
    pub fn width(&self) -> (w: usize)
        requires
            self.wf(),
        ensures
            w == max_row_len(self@),
            w <= MAX_MAP_BYTES,
    {
        proof {
            lemma_max_row_len_le(self@, MAX_MAP_BYTES as int);
        }
        self.width
    }

    /// Parses a textual map into a grid: one classified row per source
    /// line, each line read byte for byte through the classification table.
    /// Fails exactly when no line holds anything but whitespace — an empty
    /// source included — since such a map has no ground to stand on; ragged
    /// lines are fine, short rows simply continue as open ground.
    #[verifier::loop_isolation(false)]
    pub fn load(source: &[u8]) -> (r: Result<TileGrid, MapFormatError>)
        requires
            source@.len() <= MAX_MAP_BYTES,
        ensures
            r is Ok <==> !all_blank(split_lines(source@)),
            r matches Ok(g) ==> g.wf() && g@ == rows_of_source(source@),
    {
        let n = source.len();
        let mut rows: Vec<Vec<TileKind>> = Vec::new();
        let mut width: usize = 0;
        let mut has_content = false;
        let ghost mut done: Seq<Seq<u8>> = Seq::empty();
        let mut i: usize = 0;
        proof {
            assert(source@.subrange(0, n as int) =~= source@);
            assert(done + split_lines(source@) =~= split_lines(source@));
        }
        while i < n
            invariant
                i <= n,
                split_lines(source@) == done + split_lines(
                    source@.subrange(i as int, n as int),
                ),
                rows_view(rows@) == done.map_values(|l: Seq<u8>| line_kinds(l)),
                width == max_row_len(rows_view(rows@)),
                has_content <==> !all_blank(done),
                rows@.len() == done.len(),
                done.len() <= i,
                forall|k: int| 0 <= k < rows@.len() ==> (#[trigger] rows@[k])@.len() <= n,
            decreases n - i,
        {
            let mut j = i;
            let mut cur: Vec<TileKind> = Vec::new();
            let mut blank = true;
            while j < n && source[j] != 10
                invariant
                    i <= j <= n,
                    forall|k: int| i <= k < j ==> source@[k] != 10,
                    cur@ == source@.subrange(i as int, j as int).map_values(
                        |b: u8| kind_of_byte(b),
                    ),
                    blank <==> is_blank_line(source@.subrange(i as int, j as int)),
                decreases n - j,
            {
                let b = source[j];
                if !(b == 32 || b == 9 || b == 13) {
                    blank = false;
                }
                cur.push(if b == 35 {
                    TileKind::Solid
                } else if b == 126 {
                    TileKind::EncounterZone
                } else {
                    TileKind::Open
                });
                proof {
                    let l0 = source@.subrange(i as int, j as int);
                    let l1 = source@.subrange(i as int, j + 1);
                    assert(l1 =~= l0.push(source@[j as int]));
                    assert(l1.map_values(|b: u8| kind_of_byte(b)) =~= l0.map_values(
                        |b: u8| kind_of_byte(b),
                    ).push(kind_of_byte(source@[j as int])));
                    assert(is_blank_line(l1) <==> is_blank_line(l0) && is_space(
                        source@[j as int],
                    )) by {
                        if is_blank_line(l0) && is_space(source@[j as int]) {
                            assert forall|k: int| 0 <= k < l1.len() implies is_space(
                                #[trigger] l1[k],
                            ) by {
                                if k < l0.len() {
                                    assert(l1[k] == l0[k]);
                                } else {
                                    assert(l1[k] == source@[j as int]);
                                }
                            }
                        } else if !is_space(source@[j as int]) {
                            assert(l1[l1.len() - 1] == source@[j as int]);
                        } else if !is_blank_line(l0) {
                            let w = choose|k: int|
                                0 <= k < l0.len() && !is_space(#[trigger] l0[k]);
                            assert(l1[w] == l0[w]);
                        }
                    }
                }
                j += 1;
            }
            let ghost raw = source@.subrange(i as int, j as int);
            let ghost sub = source@.subrange(i as int, n as int);
            proof {
                if j < n {
                    assert forall|k: int| 0 <= k < j - i implies sub[k] != 10 by {
                        assert(sub[k] == source@[i + k]);
                    }
                    assert(sub[j - i] == source@[j as int]);
                    lemma_first_newline_at(sub, j - i);
                    assert(sub.subrange(0, j - i) =~= raw);
                    assert(sub.subrange(j - i + 1, sub.len() as int) =~= source@.subrange(
                        j + 1,
                        n as int,
                    ));
                    assert(split_lines(sub) == seq![raw] + split_lines(
                        source@.subrange(j + 1, n as int),
                    ));
                } else {
                    assert forall|k: int| 0 <= k < sub.len() implies sub[k] != 10 by {
                        assert(sub[k] == source@[i + k]);
                    }
                    lemma_first_newline_none(sub);
                    assert(sub =~= raw);
                    assert(split_lines(sub) == seq![raw]);
                }
            }
            // A carriage return just before the line break is dropped, so
            // either line-ending convention yields the same row.
            if j > i && source[j - 1] == 13 {
                cur.pop();
                proof {
                    assert(strip_cr(raw) =~= source@.subrange(i as int, j - 1));
                    assert(cur@ =~= strip_cr(raw).map_values(|b: u8| kind_of_byte(b)));
                }
            } else {
                proof {
                    assert(strip_cr(raw) == raw);
                }
            }
            assert(cur@ == line_kinds(raw));
            if !blank {
                has_content = true;
            }
            if cur.len() > width {
                width = cur.len();
            }
            let ghost old_rows_v = rows_view(rows@);
            let ghost old_done = done;
            rows.push(cur);
            proof {
                done = done.push(raw);
                assert(rows_view(rows@) =~= old_rows_v.push(cur@));
                assert(rows_view(rows@).drop_last() =~= old_rows_v);
                assert(rows_view(rows@).last() == cur@);
                assert(done.map_values(|l: Seq<u8>| line_kinds(l)) =~= rows_view(rows@));
                assert(all_blank(done) <==> all_blank(old_done) && is_blank_line(raw)) by {
                    if all_blank(old_done) && is_blank_line(raw) {
                        assert forall|k: int| 0 <= k < done.len() implies is_blank_line(
                            #[trigger] done[k],
                        ) by {
                            if k < done.len() - 1 {
                                assert(old_done[k] == done[k]);
                            } else {
                                assert(done[k] == raw);
                            }
                        }
                    } else {
                        if !is_blank_line(raw) {
                            assert(done[done.len() - 1] == raw);
                        } else {
                            let w = choose|k: int|
                                0 <= k < old_done.len() && !is_blank_line(
                                    #[trigger] old_done[k],
                                );
                            assert(done[w] == old_done[w]);
                        }
                    }
                }
            }
            if j < n {
                proof {
                    assert((old_done + (seq![raw] + split_lines(
                        source@.subrange(j + 1, n as int),
                    ))) =~= done + split_lines(source@.subrange(j + 1, n as int)));
                }
                i = j + 1;
            } else {
                proof {
                    assert(source@.subrange(n as int, n as int) =~= Seq::<u8>::empty());
                    assert((old_done + seq![raw]) =~= done);
                    assert(done + split_lines(source@.subrange(n as int, n as int)) =~= done);
                }
                i = n;
            }
        }
        proof {
            assert(source@.subrange(n as int, n as int) =~= Seq::<u8>::empty());
            assert(split_lines(source@) =~= done);
        }
        if !has_content {
            return Err(MapFormatError);
        }
        let height = rows.len();
        proof {
            assert(rows_view(rows@) == rows_of_source(source@));
            assert forall|k: int| 0 <= k < rows_view(rows@).len() implies (#[trigger] rows_view(
                rows@,
            )[k]).len() <= MAX_MAP_BYTES by {
                assert(rows_view(rows@)[k] == rows@[k]@);
            }
        }
        Ok(TileGrid { rows, width, height })
    }

    /// Classification of cell `(col, row)`; `Open` outside the map.
    pub fn classify(&self, col: i64, row: i64) -> (k: TileKind)
        requires
            self.wf(),
        ensures
            k == kind_at(self@, col as int, row as int),
    {
        if row < 0 || col < 0 {
            return TileKind::Open;
        }
        if row >= self.rows.len() as i64 {
            return TileKind::Open;
        }
        let line = &self.rows[row as usize];
        assert(line@ == self@[row as int]);
        if col >= line.len() as i64 {
            return TileKind::Open;
        }
        line[col as usize]
    }

    /// World-space center of cell `(col, row)`: columns grow rightwards and
    /// rows grow downwards, so the world y-coordinate is negated.
    pub fn world_position(col: i64, row: i64) -> (p: (i64, i64))
        requires
            -0x4000_0000 <= col <= 0x4000_0000,
            -0x4000_0000 <= row <= 0x4000_0000,
        ensures
            p.0 == col * TILE_SUBUNITS,
            p.1 == -(row * TILE_SUBUNITS),
    {
        (col * TILE_SUBUNITS, -(row * TILE_SUBUNITS))
    }
}

/// The tile index whose cell span contains world offset `v`, rounding to the
/// nearest cell center: cell `t` covers `[t*TILE_SUBUNITS - TILE_HALF,
/// t*TILE_SUBUNITS + TILE_HALF)`.
pub open spec fn tile_index_of(v: int) -> int {
    (v + TILE_HALF) / (TILE_SUBUNITS as int)
}

/// Loading reproduces its source exactly: within the grid, every cell reads
/// back the kind of the very byte that produced it, and every query outside
/// the recorded lines — or beyond the end of a short line — reads open.
pub proof fn lemma_classify_round_trip(src: Seq<u8>, col: int, row: int)
    ensures
        0 <= row < split_lines(src).len() && 0 <= col < strip_cr(split_lines(src)[row]).len()
            ==> kind_at(rows_of_source(src), col, row) == kind_of_byte(
            strip_cr(split_lines(src)[row])[col],
        ),
        !(0 <= row < split_lines(src).len() && 0 <= col < strip_cr(split_lines(src)[row]).len())
            ==> kind_at(rows_of_source(src), col, row) == TileKind::Open,
{
    if 0 <= row < split_lines(src).len() {
        assert(rows_of_source(src)[row] == line_kinds(split_lines(src)[row]));
    }
}

/// Rounds a world offset to its tile index.
pub fn round_to_tile(v: i64) -> (t: i64)
    requires
        -MAX_COORD <= v <= MAX_COORD,
    ensures
        t == tile_index_of(v as int),
{
    let shifted: i64 = v + TILE_HALF + 20_000_000_000_000;
    let q: u64 = (shifted as u64) / 1000;
    proof {
        vstd::arithmetic::div_mod::lemma_hoist_over_denominator(
            v + TILE_HALF,
            20_000_000_000,
            1000nat,
        );
        vstd::arithmetic::div_mod::lemma_div_is_ordered(
            -(MAX_COORD as int) + TILE_HALF,
            v + TILE_HALF,
            1000,
        );
        vstd::arithmetic::div_mod::lemma_div_is_ordered(
            v + TILE_HALF,
            MAX_COORD + TILE_HALF,
            1000,
        );
    }
    (q as i64) - 20_000_000_000
}

} // verus!

