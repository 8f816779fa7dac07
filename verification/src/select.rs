//! Selected-cell resolution: which grid cell, if any, the cursor targets
//! for the player's tool.
//!
//! World positions are integer world units; one grid cell is
//! [`TILE_SIZE`] units wide and the grid occupies the non-negative
//! quadrant, cell `(0, 0)` nearest the origin. The cell under the cursor
//! qualifies only while its center lies within one and a half cell widths
//! ([`SELECT_RANGE`]) of the player along both axes; otherwise, and for a
//! cursor outside the quadrant, no cell is selected.

use vstd::prelude::*;

use vstd::math::abs;

use crate::soil::TillRequest;

verus! {

/// Tunable: the width of one grid cell in world units.
pub const TILE_SIZE: i32 = 16;

/// Tunable: the selection radius — one and a half cell widths, that is
/// `TILE_SIZE * 3 / 2` — applied per axis between the candidate cell's
/// center and the player.
pub const SELECT_RANGE: i32 = 24;

/// The world coordinate of the center of the cell that the non-negative
/// world coordinate `w` falls in.
pub open spec fn cell_center(w: int) -> int {
    (w / (TILE_SIZE as int)) * (TILE_SIZE as int) + (TILE_SIZE as int) / 2
}

/// The cell the cursor targets: the cell under `(cursor_x, cursor_y)`
/// when that lies in the grid's quadrant and the cell's center is within
/// [`SELECT_RANGE`] of `(player_x, player_y)` along both axes.
pub open spec fn spec_selected_cell(
    cursor_x: int,
    cursor_y: int,
    player_x: int,
    player_y: int,
) -> Option<TillRequest> {
    if cursor_x < 0 || cursor_y < 0 {
        None
    } else if abs(cell_center(cursor_x) - player_x) > SELECT_RANGE || abs(
        cell_center(cursor_y) - player_y,
    ) > SELECT_RANGE {
        None
    } else {
        Some(
            TillRequest {
                x: (cursor_x / (TILE_SIZE as int)) as u32,
                y: (cursor_y / (TILE_SIZE as int)) as u32,
            },
        )
    }
}

/// The resolved target cell for this tick, if any: a single-writer
/// resource refreshed once per tick and read by the action state machine
/// at its midpoint.
#[derive(Clone, Copy, PartialEq, Eq, Structural, Debug, Default)]
pub struct SelectedCell(pub Option<TillRequest>);

impl SelectedCell {
    /// Per-tick refresh from the cursor's and the player's world
    /// positions.
    pub fn refresh(&mut self, cursor_x: i32, cursor_y: i32, player_x: i32, player_y: i32)
        ensures
            final(self).0 == spec_selected_cell(
                cursor_x as int,
                cursor_y as int,
                player_x as int,
                player_y as int,
            ),
    {
        if cursor_x < 0 || cursor_y < 0 {
            self.0 = None;
            return ;
        }
        let mx = (cursor_x / TILE_SIZE) * TILE_SIZE + TILE_SIZE / 2;
        let my = (cursor_y / TILE_SIZE) * TILE_SIZE + TILE_SIZE / 2;
        let dx = mx as i64 - player_x as i64;
        let dy = my as i64 - player_y as i64;
        let adx = if dx < 0 {
            -dx
        } else {
            dx
        };
        let ady = if dy < 0 {
            -dy
        } else {
            dy
        };
        if adx > SELECT_RANGE as i64 || ady > SELECT_RANGE as i64 {
            self.0 = None;
        } else {
            self.0 = Some(
                TillRequest { x: (cursor_x / TILE_SIZE) as u32, y: (cursor_y / TILE_SIZE) as u32 },
            );
        }
    }
}

} // verus!
