use farm_sim::level::entity_kind;
use farm_sim::level::EntityKind;
use farm_sim::select::SelectedCell;
use farm_sim::soil::SoilMap;
use farm_sim::soil::SoilState;
use farm_sim::soil::TillRequest;

#[test]
fn a_fresh_grid_is_entirely_untilled() {
    let map = SoilMap::new(4, 3);
    assert_eq!(map.width(), 4);
    assert_eq!(map.height(), 3);
    for y in 0..3 {
        for x in 0..4 {
            assert_eq!(map.get(x, y), Some(SoilState::Untilled));
        }
    }
    assert_eq!(map.get(4, 0), None);
    assert_eq!(map.get(0, 3), None);
}

#[test]
fn tilling_one_cell_changes_only_that_cell() {
    let mut map = SoilMap::new(5, 4);
    map.till(2, 1);
    for y in 0..4 {
        for x in 0..5 {
            let expected = if x == 2 && y == 1 {
                SoilState::Tilled
            } else {
                SoilState::Untilled
            };
            assert_eq!(map.get(x, y), Some(expected));
        }
    }
}

#[test]
fn out_of_bounds_till_requests_are_dropped_silently() {
    let mut map = SoilMap::new(3, 3);
    map.till(3, 0);
    map.till(0, 3);
    map.till(1000, 1000);
    for y in 0..3 {
        for x in 0..3 {
            assert_eq!(map.get(x, y), Some(SoilState::Untilled));
        }
    }
}

#[test]
fn a_batch_of_till_requests_is_order_independent() {
    let forward = vec![
        TillRequest { x: 0, y: 0 },
        TillRequest { x: 2, y: 1 },
        TillRequest { x: 1, y: 2 },
    ];
    let backward = vec![
        TillRequest { x: 1, y: 2 },
        TillRequest { x: 2, y: 1 },
        TillRequest { x: 0, y: 0 },
    ];
    let mut a = SoilMap::new(3, 3);
    let mut b = SoilMap::new(3, 3);
    a.apply_till_requests(&forward);
    b.apply_till_requests(&backward);
    for y in 0..3 {
        for x in 0..3 {
            assert_eq!(a.get(x, y), b.get(x, y));
        }
    }
    assert_eq!(a.get(2, 1), Some(SoilState::Tilled));
}

#[test]
fn cursor_over_a_near_cell_selects_it() {
    let mut sel = SelectedCell::default();
    // The player stands at the center of cell (0, 0).
    sel.refresh(8, 8, 8, 8);
    assert_eq!(sel.0, Some(TillRequest { x: 0, y: 0 }));
    // One cell over: center (24, 8), 16 units away.
    sel.refresh(30, 12, 8, 8);
    assert_eq!(sel.0, Some(TillRequest { x: 1, y: 0 }));
}

#[test]
fn selection_range_is_one_and_a_half_cells_per_axis() {
    let mut sel = SelectedCell::default();
    // Cell (2, 0) has center x = 40: exactly 24 from a player at 16.
    sel.refresh(40, 8, 16, 8);
    assert_eq!(sel.0, Some(TillRequest { x: 2, y: 0 }));
    // Cell (3, 0), center 56: 40 away, beyond the range.
    sel.refresh(56, 8, 16, 8);
    assert_eq!(sel.0, None);
    // The range applies along each axis separately.
    sel.refresh(8, 72, 8, 8);
    assert_eq!(sel.0, None);
}

#[test]
fn a_cursor_outside_the_grid_quadrant_selects_nothing() {
    let mut sel = SelectedCell::default();
    sel.refresh(-5, 8, 0, 8);
    assert_eq!(sel.0, None);
    sel.refresh(8, -1, 8, 0);
    assert_eq!(sel.0, None);
}

#[test]
fn the_player_identifier_is_registered() {
    assert_eq!(entity_kind("Player"), Some(EntityKind::Player));
}

#[test]
fn unknown_identifiers_are_a_fatal_lookup_failure() {
    assert_eq!(entity_kind("player"), None);
    assert_eq!(entity_kind(""), None);
    assert_eq!(entity_kind("Slime"), None);
}
