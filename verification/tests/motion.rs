use farm_sim::motion::compute_velocity;
use farm_sim::motion::MoveDir;
use farm_sim::motion::SPEED;

#[test]
fn velocity_is_zero_or_unit_for_every_key_subset() {
    for mask in 0..16u32 {
        let up = mask & 1 != 0;
        let down = mask & 2 != 0;
        let left = mask & 4 != 0;
        let right = mask & 8 != 0;
        let dir = compute_velocity(up, down, left, right);
        assert!(dir.x >= -1 && dir.x <= 1);
        assert!(dir.y >= -1 && dir.y <= 1);
        let len_sq = dir.len_sq();
        assert!(len_sq <= 2);
        // Zero exactly when the keys cancel axis by axis.
        assert_eq!(len_sq == 0, up == down && left == right);
        // The world velocity is SPEED * dir / |dir|: its squared
        // magnitude is SPEED^2 whenever any net direction remains,
        // diagonals included — never the unnormalized SPEED^2 * 2.
        let speed_sq = if len_sq == 0 {
            0
        } else {
            (SPEED * SPEED * len_sq) / len_sq
        };
        assert!(speed_sq == 0 || speed_sq == SPEED * SPEED);
    }
}

#[test]
fn single_keys_give_the_four_cardinal_directions() {
    assert_eq!(compute_velocity(true, false, false, false), MoveDir { x: 0, y: 1 });
    assert_eq!(compute_velocity(false, true, false, false), MoveDir { x: 0, y: -1 });
    assert_eq!(compute_velocity(false, false, true, false), MoveDir { x: -1, y: 0 });
    assert_eq!(compute_velocity(false, false, false, true), MoveDir { x: 1, y: 0 });
}

#[test]
fn opposite_axis_diagonals_keep_both_components() {
    let dir = compute_velocity(true, false, false, true);
    assert_eq!(dir, MoveDir { x: 1, y: 1 });
    assert_eq!(dir.len_sq(), 2);
    let dir = compute_velocity(false, true, true, false);
    assert_eq!(dir, MoveDir { x: -1, y: -1 });
}

#[test]
fn cancelling_keys_give_the_zero_command() {
    assert!(compute_velocity(true, true, false, false).len_sq() == 0);
    assert!(compute_velocity(true, true, true, true).len_sq() == 0);
    assert_eq!(MoveDir::zero(), MoveDir { x: 0, y: 0 });
}
