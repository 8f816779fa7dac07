use farm_sim::anim::advance_animation;
use farm_sim::anim::update_facing;
use farm_sim::anim::AnimIndices;
use farm_sim::anim::AnimTimer;
use farm_sim::anim::FRAME_PERIOD_MS;
use farm_sim::player::InputState;
use farm_sim::player::Player;
use farm_sim::player::PlayerState;
use farm_sim::player::TOOL_DURATION_MS;
use farm_sim::autotile::process_till_batch;
use farm_sim::autotile::DOT;
use farm_sim::soil::SoilMap;
use farm_sim::soil::SoilState;
use farm_sim::soil::TillRequest;

fn held(up: bool, down: bool, left: bool, right: bool) -> InputState {
    InputState {
        up,
        down,
        left,
        right,
        action_pressed: false,
    }
}

const IDLE: InputState = InputState {
    up: false,
    down: false,
    left: false,
    right: false,
    action_pressed: false,
};

const PRESS: InputState = InputState {
    up: false,
    down: false,
    left: false,
    right: false,
    action_pressed: true,
};

#[test]
fn up_then_right_in_the_same_tick_faces_right() {
    let mut p = Player::new();
    p.tick(held(true, false, false, true), 16, None);
    // The side row, mirrored for the right facing.
    assert_eq!(p.anim.first, 8);
    assert_eq!(p.anim.last, 11);
    assert!(p.flip);
    assert!(!p.anim.stopped);
    assert_eq!(p.velocity.x, 1);
    assert_eq!(p.velocity.y, 1);
}

#[test]
fn facing_priority_is_right_left_down_up() {
    let mut indices = AnimIndices {
        first: 0,
        last: 3,
        stopped: false,
    };
    // left + right held together: right wins.
    let r = update_facing(&mut indices, false, 0, false, false, true, true);
    assert_eq!(indices.first, 8);
    assert!(r.0);
    // left + down: left wins over down.
    let r = update_facing(&mut indices, true, 0, false, true, true, false);
    assert_eq!(indices.first, 8);
    assert!(!r.0);
    // down + up: down wins.
    update_facing(&mut indices, false, 0, true, true, false, false);
    assert_eq!(indices.first, 0);
    // up alone.
    update_facing(&mut indices, false, 0, true, false, false, false);
    assert_eq!(indices.first, 4);
}

#[test]
fn no_key_stops_the_sprite_on_its_idle_pose() {
    let mut p = Player::new();
    p.tick(held(false, true, false, false), 200, None);
    assert!(!p.anim.stopped);
    p.tick(IDLE, 16, None);
    assert!(p.anim.stopped);
    assert_eq!(p.frame, p.anim.first);
    assert_eq!(p.velocity.x, 0);
    assert_eq!(p.velocity.y, 0);
}

#[test]
fn frames_cycle_and_wrap_within_the_row() {
    let indices = AnimIndices {
        first: 4,
        last: 7,
        stopped: false,
    };
    let mut timer = AnimTimer::new(FRAME_PERIOD_MS);
    let mut frame = 4;
    let mut seen = Vec::new();
    for _ in 0..5 {
        frame = advance_animation(&indices, &mut timer, frame, FRAME_PERIOD_MS);
        seen.push(frame);
    }
    assert_eq!(seen, vec![5, 6, 7, 4, 5]);
    // A frame below the window snaps in before stepping.
    let mut timer = AnimTimer::new(FRAME_PERIOD_MS);
    assert_eq!(
        advance_animation(&indices, &mut timer, 0, FRAME_PERIOD_MS),
        5
    );
    // A stopped sprite neither moves nor accumulates time.
    let stopped = AnimIndices {
        first: 4,
        last: 7,
        stopped: true,
    };
    let before = timer.elapsed;
    assert_eq!(advance_animation(&stopped, &mut timer, 6, 1000), 6);
    assert_eq!(timer.elapsed, before);
}

#[test]
fn press_edge_starts_tool_use_and_zeroes_velocity() {
    let mut p = Player::new();
    // Walk right first so a facing is captured.
    p.tick(held(false, false, false, true), 16, None);
    assert_eq!(p.velocity.x, 1);
    let mut input = held(false, false, false, true);
    input.action_pressed = true;
    p.tick(input, 16, None);
    assert!(matches!(p.state, PlayerState::UsingTool));
    // Velocity zeroed in the same tick.
    assert_eq!(p.velocity.x, 0);
    assert_eq!(p.velocity.y, 0);
    // The window sits on the tool pose of the captured facing: row 2 + 3.
    assert_eq!(p.anim.first, 20);
    assert_eq!(p.anim.last, 23);
    let timer = p.action.unwrap();
    assert_eq!(timer.elapsed, 0);
    assert_eq!(timer.duration, TOOL_DURATION_MS);
    assert!(!timer.fired);
}

#[test]
fn exactly_one_till_request_at_the_midpoint() {
    let mut p = Player::new();
    p.tick(PRESS, 16, None);
    assert!(matches!(p.state, PlayerState::UsingTool));
    let cell = Some(TillRequest { x: 2, y: 1 });
    let mut emitted = Vec::new();
    // 10 ticks of 50 ms: the midpoint falls inside the 6th (elapsed 300).
    for tick in 0..10 {
        let e = p.tick(IDLE, 50, cell);
        if let Some(req) = e {
            emitted.push((tick, req.x, req.y));
        }
    }
    assert_eq!(emitted, vec![(5, 2, 1)]);
    assert!(matches!(p.state, PlayerState::Normal));
    assert!(p.action.is_none());
    // Back on the walk row the facing had when the action started.
    assert_eq!(p.anim.first, 0);
    assert_eq!(p.anim.last, 3);
}

#[test]
fn no_selected_cell_at_the_midpoint_means_no_request_at_all() {
    let mut p = Player::new();
    p.tick(PRESS, 16, None);
    let cell = Some(TillRequest { x: 0, y: 0 });
    // Cross the midpoint with nothing selected.
    assert_eq!(p.tick(IDLE, 300, None), None);
    // A cell selected afterwards is too late: the opportunity is spent.
    assert_eq!(p.tick(IDLE, 100, cell), None);
    assert_eq!(p.tick(IDLE, 100, cell), None);
    assert!(matches!(p.state, PlayerState::Normal));
}

#[test]
fn movement_and_repeated_presses_are_ignored_while_using_the_tool() {
    let mut p = Player::new();
    p.tick(PRESS, 16, None);
    let mut input = held(false, false, false, true);
    input.action_pressed = true;
    p.tick(input, 100, None);
    // Still the same action, velocity still zero, tool row held.
    assert!(matches!(p.state, PlayerState::UsingTool));
    assert_eq!(p.velocity.x, 0);
    assert_eq!(p.velocity.y, 0);
    assert_eq!(p.anim.first, 12);
    let timer = p.action.unwrap();
    assert_eq!(timer.elapsed, 100);
}

#[test]
fn tool_use_completes_after_its_full_duration() {
    let mut p = Player::new();
    p.tick(PRESS, 16, None);
    // 499 ms in: still using the tool.
    p.tick(IDLE, 499, Some(TillRequest { x: 1, y: 1 }));
    assert!(matches!(p.state, PlayerState::UsingTool));
    // One more millisecond completes it.
    p.tick(IDLE, 1, None);
    assert!(matches!(p.state, PlayerState::Normal));
    assert!(p.action.is_none());
    assert_eq!(p.anim.first, 0);
}

#[test]
fn animation_window_row_round_trip() {
    let mut indices = AnimIndices {
        first: 0,
        last: 3,
        stopped: false,
    };
    assert_eq!(indices.spr_count(), 4);
    assert_eq!(indices.row(), 0);
    assert_eq!(indices.offset(), 0);
    indices.set_row(5);
    assert_eq!(indices.first, 20);
    assert_eq!(indices.last, 23);
    assert_eq!(indices.row(), 5);
    assert_eq!(indices.spr_count(), 4);
    assert_eq!(indices.offset(), 20);
    indices.set_row(2);
    assert_eq!(indices.first, 8);
    assert_eq!(indices.last, 11);
    assert_eq!(indices.row(), 2);
}

#[test]
fn a_full_tool_use_tills_the_targeted_cell() {
    let mut map = SoilMap::new(5, 5);
    let mut p = Player::new();
    let target = Some(TillRequest { x: 2, y: 2 });
    let mut batch: Vec<TillRequest> = Vec::new();
    p.tick(PRESS, 16, target);
    while matches!(p.state, PlayerState::UsingTool) {
        if let Some(req) = p.tick(IDLE, 50, target) {
            batch.push(req);
        }
    }
    assert_eq!(batch.len(), 1);
    let variants = process_till_batch(&mut map, &batch);
    assert_eq!(map.get(2, 2), Some(SoilState::Tilled));
    assert_eq!(map.get(2, 1), Some(SoilState::Untilled));
    assert_eq!(variants[2][2], DOT);
}

#[test]
fn state_queries_match_the_state() {
    let p = Player::new();
    assert!(p.state.is_normal());
    assert!(!p.state.is_using_tool());
    let mut q = Player::new();
    q.tick(PRESS, 16, None);
    assert!(q.state.is_using_tool());
    assert!(!q.state.is_normal());
}
