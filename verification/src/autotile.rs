//! Autotiling: turning a soil cell's eight-neighbor occupancy into the
//! texture variant id that the rendering layer should draw for it.
//!
//! A cell's neighborhood is packed into an 8-bit pattern, one bit per
//! compass direction in the fixed order NW, N, NE, W, E, SW, S, SE from the
//! most significant bit down to the least significant one. A bit is set
//! exactly when that neighbor exists (is in bounds) and its state equals the
//! classification's target state; a missing neighbor always contributes a
//! zero bit, so boundary cells still produce a full 8-bit pattern.
//!
//! A fixed literal table maps seventeen curated patterns to named variant
//! ids; every other pattern falls back to [`CENTER`], the fully enclosed
//! variant. The lookup is total: an unmapped pattern is never an error.

use vstd::prelude::*;

use crate::soil::SoilMap;
use crate::soil::SoilState;
use crate::soil::TillRequest;

verus! {

// The seventeen named texture variant ids. Corner and edge tiles are named
// for the part of a tilled patch they draw (`TOP_LEFT` is the north-western
// corner of a patch), straight-run tiles for the end cap they draw (`NORTH`
// caps the northern end of a vertical run, so its only tilled neighbor lies
// to the south). The values are indices into the soil tile sheet.
pub const TOP_LEFT: u32 = 0;

pub const TOP: u32 = 1;

pub const TOP_RIGHT: u32 = 2;

pub const LEFT: u32 = 12;

pub const CENTER: u32 = 13;

pub const RIGHT: u32 = 14;

pub const BOTTOM_LEFT: u32 = 24;

pub const BOTTOM: u32 = 25;

pub const BOTTOM_RIGHT: u32 = 26;

pub const NORTH: u32 = 3;

pub const NORTH_SOUTH: u32 = 15;

pub const SOUTH: u32 = 27;

pub const DOT: u32 = 39;

pub const EAST: u32 = 38;

pub const EAST_WEST: u32 = 37;

pub const WEST: u32 = 36;

pub const INTERSECTION: u32 = 56;

pub open spec fn pattern_bit(b: bool) -> int {
    if b {
        1
    } else {
        0
    }
}

/// The 8-bit neighbor pattern of cell `(x, y)` against `target`, packed in
/// the order NW, N, NE, W, E, SW, S, SE from most to least significant bit.
/// North is `y - 1`: row `0` is the northern edge of the grid.
pub open spec fn neighbor_pattern(m: SoilMap, x: int, y: int, target: SoilState) -> int {
    128 * pattern_bit(m.cell_matches(x - 1, y - 1, target)) + 64 * pattern_bit(
        m.cell_matches(x, y - 1, target),
    ) + 32 * pattern_bit(m.cell_matches(x + 1, y - 1, target)) + 16 * pattern_bit(
        m.cell_matches(x - 1, y, target),
    ) + 8 * pattern_bit(m.cell_matches(x + 1, y, target)) + 4 * pattern_bit(
        m.cell_matches(x - 1, y + 1, target),
    ) + 2 * pattern_bit(m.cell_matches(x, y + 1, target)) + pattern_bit(
        m.cell_matches(x + 1, y + 1, target),
    )
}

/// The literal variant table: the variant id documented for `pattern`, or
/// `None` for the 239 patterns the table leaves out.
pub open spec fn table_variant(pattern: int) -> Option<u32> {
    if pattern == 0x00 {
        Some(DOT)
    } else if pattern == 0x0B {
        Some(TOP_LEFT)
    } else if pattern == 0x1F {
        Some(TOP)
    } else if pattern == 0x16 {
        Some(TOP_RIGHT)
    } else if pattern == 0x6B {
        Some(LEFT)
    } else if pattern == 0xD6 {
        Some(RIGHT)
    } else if pattern == 0x68 {
        Some(BOTTOM_LEFT)
    } else if pattern == 0xF8 {
        Some(BOTTOM)
    } else if pattern == 0xD0 {
        Some(BOTTOM_RIGHT)
    } else if pattern == 0x02 {
        Some(NORTH)
    } else if pattern == 0x42 {
        Some(NORTH_SOUTH)
    } else if pattern == 0x40 {
        Some(SOUTH)
    } else if pattern == 0x10 {
        Some(EAST)
    } else if pattern == 0x18 {
        Some(EAST_WEST)
    } else if pattern == 0x08 {
        Some(WEST)
    } else if pattern == 0x5A {
        Some(INTERSECTION)
    } else if pattern == 0xFF {
        Some(CENTER)
    } else {
        None
    }
}

/// Total variant selection: the table's entry where one exists, the fully
/// enclosed fallback [`CENTER`] everywhere else.
pub open spec fn variant_of(pattern: int) -> u32 {
    match table_variant(pattern) {
        Some(v) => v,
        None => CENTER,
    }
}

/// Every pattern resolves to a variant: a mapped pattern to exactly its
/// table entry, any other pattern to the fully enclosed fallback. No
/// pattern is an error.
pub proof fn lemma_lookup_total(pattern: int)
    ensures
        table_variant(pattern) matches Some(v) ==> variant_of(pattern) == v,
        table_variant(pattern) is None ==> variant_of(pattern) == CENTER,
{
}

/// A corner cell has exactly three geometric neighbors: for cell
/// `(0, 0)` of any grid at least two cells wide and high, the east,
/// south and south-east neighbors exist, and the five other direction
/// bits of its pattern are zero whatever the grid holds. Classification
/// is total, so boundary cells are never an error.
pub proof fn lemma_corner_pattern(m: SoilMap, target: SoilState)
    requires
        m.wf(),
        m.spec_width() >= 2,
        m.spec_height() >= 2,
    ensures
        m.in_bounds(1, 0) && m.in_bounds(0, 1) && m.in_bounds(1, 1),
        neighbor_pattern(m, 0, 0, target) == 8 * pattern_bit(m.cell_matches(1, 0, target)) + 2
            * pattern_bit(m.cell_matches(0, 1, target)) + pattern_bit(
            m.cell_matches(1, 1, target),
        ),
        0 <= neighbor_pattern(m, 0, 0, target) <= 0x0B,
{
}

/// Scenario: once every cell of a 3x3 grid is tilled — in whatever order
/// the till requests arrived — the center cell's pattern is all-ones,
/// and the table resolves that pattern to the fully enclosed [`CENTER`]
/// variant.
pub proof fn lemma_full_grid_center_pattern(m: SoilMap)
    requires
        m.wf(),
        m.spec_width() == 3,
        m.spec_height() == 3,
        forall|x: int, y: int|
            m.in_bounds(x, y) ==> m.spec_cell(x, y) == SoilState::Tilled,
    ensures
        neighbor_pattern(m, 1, 1, SoilState::Tilled) == 0xFF,
        variant_of(0xFF) == CENTER,
{
    assert(m.cell_matches(0, 0, SoilState::Tilled));
    assert(m.cell_matches(1, 0, SoilState::Tilled));
    assert(m.cell_matches(2, 0, SoilState::Tilled));
    assert(m.cell_matches(0, 1, SoilState::Tilled));
    assert(m.cell_matches(2, 1, SoilState::Tilled));
    assert(m.cell_matches(0, 2, SoilState::Tilled));
    assert(m.cell_matches(1, 2, SoilState::Tilled));
    assert(m.cell_matches(2, 2, SoilState::Tilled));
}

/// True iff `(x, y)` is in bounds and holds `target`; the executable side
/// of `SoilMap::cell_matches`. Coordinates are `u64` so that callers can
/// step one cell in any direction without overflow.
fn matches_at(map: &SoilMap, x: u64, y: u64, target: SoilState) -> (r: bool)
    requires
        map.wf(),
    ensures
        r == map.cell_matches(x as int, y as int, target),
{
    if y < (map.cells.len() as u64) {
        let row = &map.cells[y as usize];
        if x < (row.len() as u64) {
            return row[x as usize] == target;
        }
    }
    false
}

/// Neighbor classification: packs the eight neighbor tests of `(x, y)`
/// against `target` into one 8-bit pattern. Out-of-bounds neighbors yield
/// zero bits, so the classification is total over the grid, boundary and
/// corner cells included.
pub fn classify(map: &SoilMap, x: u32, y: u32, target: SoilState) -> (pattern: u8)
    requires
        map.wf(),
    ensures
        pattern == neighbor_pattern(*map, x as int, y as int, target),
{
    let xe = x as u64;
    let ye = y as u64;
    let nw = x > 0 && y > 0 && matches_at(map, xe - 1, ye - 1, target);
    let n = y > 0 && matches_at(map, xe, ye - 1, target);
    let ne = y > 0 && matches_at(map, xe + 1, ye - 1, target);
    let w = x > 0 && matches_at(map, xe - 1, ye, target);
    let e = matches_at(map, xe + 1, ye, target);
    let sw = x > 0 && matches_at(map, xe - 1, ye + 1, target);
    let s = matches_at(map, xe, ye + 1, target);
    let se = matches_at(map, xe + 1, ye + 1, target);

    let mut pattern: u8 = 0;
    if nw {
        pattern = pattern + 128;
    }
    if n {
        pattern = pattern + 64;
    }
    if ne {
        pattern = pattern + 32;
    }
    if w {
        pattern = pattern + 16;
    }
    if e {
        pattern = pattern + 8;
    }
    if sw {
        pattern = pattern + 4;
    }
    if s {
        pattern = pattern + 2;
    }
    if se {
        pattern = pattern + 1;
    }
    pattern
}

/// Table lookup with the documented fallback: returns the variant id for
/// `pattern`, [`CENTER`] where the table has no entry.
pub fn lookup_variant(pattern: u8) -> (variant: u32)
    ensures
        variant == variant_of(pattern as int),
{
    match pattern {
        0x00 => DOT,
        0x0B => TOP_LEFT,
        0x1F => TOP,
        0x16 => TOP_RIGHT,
        0x6B => LEFT,
        0xD6 => RIGHT,
        0x68 => BOTTOM_LEFT,
        0xF8 => BOTTOM,
        0xD0 => BOTTOM_RIGHT,
        0x02 => NORTH,
        0x42 => NORTH_SOUTH,
        0x40 => SOUTH,
        0x10 => EAST,
        0x18 => EAST_WEST,
        0x08 => WEST,
        0x5A => INTERSECTION,
        0xFF => CENTER,
        _ => CENTER,
    }
}

/// The variant id to draw for cell `(x, y)`: its neighborhood is classified
/// against [`SoilState::Tilled`] and looked up in the table.
pub fn recompute_variant(map: &SoilMap, x: u32, y: u32) -> (variant: u32)
    requires
        map.wf(),
    ensures
        variant == variant_of(neighbor_pattern(*map, x as int, y as int, SoilState::Tilled)),
{
    lookup_variant(classify(map, x, y, SoilState::Tilled))
}

/// The variant ids for the whole grid, row-major like the grid itself.
///
/// The engine's processing discipline: each drained batch of till requests
/// recomputes the entire grid rather than just the neighborhoods of the
/// tilled cells. The width and height bounds only say that every cell is
/// addressable by the `u32` coordinates of the external interface.
pub fn recompute_variants(map: &SoilMap) -> (variants: Vec<Vec<u32>>)
    requires
        map.wf(),
        map.spec_width() <= u32::MAX,
        map.spec_height() <= u32::MAX,
    ensures
        variants@.len() == map.spec_height(),
        forall|y: int|
            0 <= y < map.spec_height() ==> #[trigger] variants@[y]@.len() == map.spec_width(),
        forall|x: int, y: int|
            map.in_bounds(x, y) ==> #[trigger] variants@[y]@[x] == variant_of(
                neighbor_pattern(*map, x, y, SoilState::Tilled),
            ),
{
    let width = map.width();
    let height = map.height();
    let mut variants: Vec<Vec<u32>> = Vec::new();
    let mut y: usize = 0;
    while y < height
        invariant
            map.wf(),
            width == map.spec_width(),
            height == map.spec_height(),
            width <= u32::MAX,
            height <= u32::MAX,
            y <= height,
            variants@.len() == y,
            forall|r: int| 0 <= r < y ==> #[trigger] variants@[r]@.len() == width,
            forall|c: int, r: int|
                0 <= r < y && 0 <= c < width ==> #[trigger] variants@[r]@[c] == variant_of(
                    neighbor_pattern(*map, c, r, SoilState::Tilled),
                ),
        decreases height - y,
    {
        let mut row: Vec<u32> = Vec::new();
        let mut x: usize = 0;
        while x < width
            invariant
                map.wf(),
                width == map.spec_width(),
                height == map.spec_height(),
                width <= u32::MAX,
                height <= u32::MAX,
                y < height,
                x <= width,
                row@.len() == x,
                forall|c: int|
                    0 <= c < x ==> #[trigger] row@[c] == variant_of(
                        neighbor_pattern(*map, c, y as int, SoilState::Tilled),
                    ),
            decreases width - x,
        {
            row.push(recompute_variant(map, x as u32, y as u32));
            x = x + 1;
        }
        variants.push(row);
        y = y + 1;
    }
    variants
}

/// One tick of the autotile engine: drains the batch of till requests into
/// the grid, then recomputes the texture variant of every cell, so that a
/// render frame never sees a tilled cell with stale neighbor variants.
pub fn process_till_batch(map: &mut SoilMap, requests: &Vec<TillRequest>) -> (variants: Vec<
    Vec<u32>,
>)
    requires
        old(map).wf(),
        old(map).spec_width() <= u32::MAX,
        old(map).spec_height() <= u32::MAX,
    ensures
        final(map).wf(),
        final(map).spec_width() == old(map).spec_width(),
        final(map).spec_height() == old(map).spec_height(),
        forall|x: int, y: int|
            old(map).in_bounds(x, y) ==> (final(map).spec_cell(x, y) == SoilState::Tilled <==> (
            old(map).spec_cell(x, y) == SoilState::Tilled || crate::soil::requests_hit(
                requests@,
                x,
                y,
            ))),
        variants@.len() == final(map).spec_height(),
        forall|y: int|
            0 <= y < final(map).spec_height() ==> #[trigger] variants@[y]@.len()
                == final(map).spec_width(),
        forall|x: int, y: int|
            final(map).in_bounds(x, y) ==> #[trigger] variants@[y]@[x] == variant_of(
                neighbor_pattern(*final(map), x, y, SoilState::Tilled),
            ),
{
    map.apply_till_requests(requests);
    recompute_variants(map)
}

/// Which of the four cardinal neighbors of `(x, y)` match `target`; a
/// compact summary of the straight-run part of a neighborhood.
#[derive(Clone, Copy, PartialEq, Eq, Structural, Debug, Default)]
pub struct TileNeighbor {
    pub north: bool,
    pub south: bool,
    pub east: bool,
    pub west: bool,
}

impl TileNeighbor {
    pub fn of_cell(map: &SoilMap, x: u32, y: u32, target: SoilState) -> (r: TileNeighbor)
        requires
            map.wf(),
        ensures
            r.north == map.cell_matches(x as int, y - 1, target),
            r.south == map.cell_matches(x as int, y + 1, target),
            r.east == map.cell_matches(x + 1, y as int, target),
            r.west == map.cell_matches(x - 1, y as int, target),
    {
        let xe = x as u64;
        let ye = y as u64;
        TileNeighbor {
            north: y > 0 && matches_at(map, xe, ye - 1, target),
            south: matches_at(map, xe, ye + 1, target),
            east: matches_at(map, xe + 1, ye, target),
            west: x > 0 && matches_at(map, xe - 1, ye, target),
        }
    }
}

} // verus!
