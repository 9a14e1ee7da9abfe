use platformer_core::collision::{
    check_collision, jump_obstacles, transition, CheckTrapCollision, ProbeResult,
};
use platformer_core::config::{GROUND, MAX_VELOCITY};
use platformer_core::entities::{
    Direction, GameMap, GameState, LegalKey, Obstacle, ObstacleId, Player, PlayerState, SoundCue,
    Trap,
};
use platformer_core::input::{
    apply_action, handle_user_input, initialize_input_logic_map, Action, HeldKeys, InputLogicMap,
    MoveRight,
};
use platformer_core::movement::{decrease_velocity, increase_velocity, ModifyPosition};

fn obstacle(id: usize, x_left: i64, x_right: i64, y_top: i64, y_bottom: i64, active: bool, top: bool) -> Obstacle {
    Obstacle {
        id: ObstacleId(id),
        x_left,
        x_right,
        y_top,
        y_bottom,
        velocity_y: 0,
        falling: false,
        active,
        durability: 3,
        is_bottom_obstacle: false,
        is_top_obstacle: top,
        is_leftmost_obstacle: false,
        is_rightmost_obstacle: false,
        left_obstacle: None,
        right_obstacle: None,
        over_obstacle: None,
        under_obstacle: None,
    }
}

fn trap(x_left: i64, x_right: i64, y_top: i64, y_bottom: i64) -> Trap {
    Trap { x_left, x_right, y_top, y_bottom, active: true }
}

fn world(player: Player, obstacles: Vec<Obstacle>, traps: Vec<Trap>) -> GameState {
    let map = GameMap {
        id: 0,
        obstacles,
        traps,
        width: 320,
        height: 240,
        starting_x: 0,
        starting_y: GROUND,
        transition_x: 0,
        transition_y: 0,
    };
    GameState {
        player,
        all_maps: vec![map],
        current_map_index: 0,
        footstep_index: 0,
        footstep_active: false,
        layer_0_index: 0,
    }
}

fn no_keys() -> HeldKeys {
    HeldKeys { space: false, d: false, a: false, x: false }
}

#[test]
fn new_player_defaults() {
    let p = Player::new(50000, 100000);
    assert_eq!(p.x, 50000);
    assert_eq!(p.y, 100000);
    assert_eq!(p.vx, 0);
    assert_eq!(p.health, 3);
    assert_eq!(p.left_increment, 4);
    assert_eq!(p.right_increment, 0);
    assert_eq!(p.direction, Direction::Right);
    assert_eq!(p.state, PlayerState::OnGround);
    assert!(!p.game_over);
    assert!(p.last_key.is_none());
}

#[test]
fn blocked_acceleration_stops_dead() {
    let mut p = Player::new(0, GROUND);
    p.vx = 1500;
    p.obstacle_detected = true;
    let mut gs = world(p, vec![], vec![]);
    increase_velocity(&mut gs);
    assert_eq!(gs.player.vx, 0);
}

#[test]
fn acceleration_damps_then_caps() {
    let mut gs = world(Player::new(0, GROUND), vec![], vec![]);
    increase_velocity(&mut gs);
    assert_eq!(gs.player.vx, 98);
    increase_velocity(&mut gs);
    assert_eq!(gs.player.vx, 194);
    gs.player.vx = 1950;
    increase_velocity(&mut gs);
    assert_eq!(gs.player.vx, MAX_VELOCITY);
    for _ in 0..200 {
        increase_velocity(&mut gs);
        assert!(gs.player.vx <= MAX_VELOCITY && gs.player.vx >= 0);
    }
}

#[test]
fn friction_snaps_small_speed_to_zero() {
    let mut p = Player::new(0, GROUND);
    p.vx = 50;
    let mut gs = world(p, vec![], vec![]);
    decrease_velocity(&mut gs);
    assert_eq!(gs.player.vx, 0);
}

#[test]
fn friction_reaches_rest_from_full_speed() {
    let mut p = Player::new(0, GROUND);
    p.vx = MAX_VELOCITY;
    let mut gs = world(p, vec![], vec![]);
    decrease_velocity(&mut gs);
    assert_eq!(gs.player.vx, 1900);
    let mut ticks = 1;
    while gs.player.vx != 0 {
        decrease_velocity(&mut gs);
        ticks += 1;
        assert!(ticks <= 2000 / 5 + 1);
    }
    decrease_velocity(&mut gs);
    assert_eq!(gs.player.vx, 0);
}

#[test]
fn friction_keeps_sign_of_negative_speed() {
    let mut p = Player::new(0, GROUND);
    p.vx = -1000;
    let mut gs = world(p, vec![], vec![]);
    decrease_velocity(&mut gs);
    assert_eq!(gs.player.vx, -950);
}

#[test]
fn position_follows_facing() {
    let mut p = Player::new(10000, 20000);
    p.vx = 1500;
    p.vy = -300;
    let mut gs = world(p, vec![], vec![]);
    ModifyPosition.execute(&mut gs);
    assert_eq!(gs.player.x, 11500);
    assert_eq!(gs.player.y, 19700);
    gs.player.direction = Direction::Left;
    ModifyPosition.execute(&mut gs);
    assert_eq!(gs.player.x, 10000);
    assert_eq!(gs.player.y, 19400);
}

#[test]
fn transition_precedence() {
    assert_eq!(transition(PlayerState::InAir, ProbeResult::TopSurface), PlayerState::OnObstacle);
    assert_eq!(transition(PlayerState::OnGround, ProbeResult::AboveObstacle), PlayerState::InAir);
    assert_eq!(transition(PlayerState::InAir, ProbeResult::Ground), PlayerState::OnGround);
    assert_eq!(transition(PlayerState::OnObstacle, ProbeResult::Airborne), PlayerState::InAir);
}

#[test]
fn fall_to_ground_clamps_and_sounds_once() {
    let mut p = Player::new(50000, 100000);
    p.vy = 1000;
    p.is_jumping = true;
    let mut gs = world(p, vec![obstacle(0, 40000, 90000, 120000, 140000, false, true)], vec![]);
    let mut sounds = 0;
    let mut landings = 0;
    let mut last_y = gs.player.y;
    for _ in 0..150 {
        let before = gs.player.state;
        if let Some(cue) = jump_obstacles(&mut gs) {
            assert_eq!(cue, SoundCue::FallMild);
            sounds += 1;
        }
        if before == PlayerState::InAir && gs.player.state == PlayerState::OnGround {
            landings += 1;
        }
        assert!(gs.player.y >= last_y);
        assert!(gs.player.y <= GROUND);
        last_y = gs.player.y;
    }
    assert_eq!(gs.player.y, GROUND);
    assert_eq!(gs.player.vy, 0);
    assert_eq!(gs.player.state, PlayerState::OnGround);
    assert!(gs.player.on_ground);
    assert_eq!(sounds, 1);
    assert_eq!(landings, 1);
}

#[test]
fn ground_holds_player_below_line() {
    let mut p = Player::new(0, 230000);
    p.vy = 3000;
    p.is_jumping = true;
    p.state = PlayerState::InAir;
    let mut gs = world(p, vec![], vec![]);
    assert_eq!(jump_obstacles(&mut gs), Some(SoundCue::FallMild));
    assert_eq!(gs.player.y, GROUND);
    assert_eq!(gs.player.vy, 0);
    assert_eq!(gs.player.state, PlayerState::OnGround);
    assert!(!gs.player.is_jumping);
}

#[test]
fn almost_ground_band() {
    let mut gs = world(Player::new(0, 150000), vec![], vec![]);
    jump_obstacles(&mut gs);
    assert!(gs.player.almost_ground);
    gs.player.y = 170000;
    jump_obstacles(&mut gs);
    assert!(!gs.player.almost_ground);
}

#[test]
fn landing_snaps_onto_obstacle() {
    let mut p = Player::new(50000, 118000);
    p.vy = 4000;
    p.is_jumping = true;
    p.state = PlayerState::InAir;
    let obs = vec![obstacle(0, 40000, 90000, 120000, 140000, true, true)];
    let mut gs = world(p, obs, vec![]);
    assert_eq!(jump_obstacles(&mut gs), None);
    assert_eq!(gs.player.state, PlayerState::OnObstacle);
    assert_eq!(gs.player.vy, 0);
    assert_eq!(gs.player.y, 130000);
    assert!(gs.player.on_obstacle);
    assert!(!gs.player.is_jumping);
    // Already on the obstacle: no second snap.
    gs.player.y = 125000;
    jump_obstacles(&mut gs);
    assert_eq!(gs.player.y, 125000);
    assert_eq!(gs.player.state, PlayerState::OnObstacle);
}

#[test]
fn above_obstacle_is_airborne() {
    let obs = vec![obstacle(0, 40000, 90000, 120000, 140000, true, true)];
    let mut gs = world(Player::new(50000, 100000), obs, vec![]);
    jump_obstacles(&mut gs);
    assert!(gs.player.above_obstacle);
    assert!(gs.player.is_jumping);
    assert_eq!(gs.player.state, PlayerState::InAir);
    assert_eq!(gs.player.y, 100000);
}

#[test]
fn first_obstacle_in_storage_order_wins() {
    let mut p = Player::new(50000, 125000);
    p.state = PlayerState::InAir;
    let obs = vec![
        obstacle(0, 0, 10000, 120000, 140000, true, true),
        obstacle(1, 40000, 90000, 120000, 140000, true, true),
        obstacle(2, 40000, 90000, 110000, 130000, true, true),
    ];
    let mut gs = world(p, obs, vec![]);
    jump_obstacles(&mut gs);
    assert_eq!(gs.player.y, 130000);
}

#[test]
fn forward_probe_uses_frame_width() {
    let widths: Vec<u32> = vec![30, 30, 30, 30, 25, 25, 25, 25];
    let p = Player::new(0, 100000);
    let obs = vec![
        obstacle(0, 5000, 12000, 80000, 100000, false, false),
        obstacle(1, 15000, 30000, 80000, 100000, true, false),
        obstacle(2, 5000, 12000, 80000, 100000, true, false),
    ];
    // Facing right: edge at 30 * 1000 / 1.5 = 20000.
    assert_eq!(check_collision(&obs, &widths, &p, false), (true, Some(1)));
    // Facing left: edge at 25 * 1000 / 2.5 = 10000.
    assert_eq!(check_collision(&obs, &widths, &p, true), (true, Some(2)));
    // Outside the vertical band: y must be at least y_top + 10000.
    let high = Player::new(0, 85000);
    assert_eq!(check_collision(&obs, &widths, &high, false), (false, None));
    // The band reaches 25000 below the bottom.
    let low = Player::new(0, 125000);
    assert_eq!(check_collision(&obs, &widths, &low, false), (true, Some(1)));
    let lower = Player::new(0, 125001);
    assert_eq!(check_collision(&obs, &widths, &lower, false), (false, None));
}

#[test]
fn trap_hit_once_per_tick() {
    let p = Player::new(50000, 100000);
    let traps = vec![trap(40000, 80000, 90000, 110000), trap(45000, 85000, 90000, 110000)];
    let mut gs = world(p, vec![], traps);
    CheckTrapCollision.execute(&mut gs);
    assert_eq!(gs.player.health, 2);
    assert_eq!(gs.player.x, 40000 - 64000);
    assert_eq!(gs.player.vy, 2000);
    assert_eq!(gs.layer_0_index, 1);
    assert!(!gs.player.game_over);
}

#[test]
fn trap_miss_changes_nothing() {
    let p = Player::new(50000, 150000);
    let mut gs = world(p, vec![], vec![trap(40000, 80000, 90000, 110000)]);
    CheckTrapCollision.execute(&mut gs);
    assert_eq!(gs.player.health, 3);
    assert_eq!(gs.player.x, 50000);
    assert_eq!(gs.layer_0_index, 0);
}

#[test]
fn health_runs_out_and_game_over_latches() {
    let traps = vec![trap(40000, 80000, 90000, 110000)];
    let mut gs = world(Player::new(50000, 100000), vec![], traps);
    let mut last = gs.player.health;
    for _ in 0..3 {
        gs.player.x = 50000;
        gs.player.y = 100000;
        CheckTrapCollision.execute(&mut gs);
        assert!(gs.player.health < last);
        last = gs.player.health;
    }
    assert_eq!(gs.player.health, 0);
    assert!(gs.player.game_over);
    for _ in 0..3 {
        gs.player.x = 50000;
        gs.player.y = 100000;
        CheckTrapCollision.execute(&mut gs);
        jump_obstacles(&mut gs);
        assert_eq!(gs.player.health, 0);
        assert!(gs.player.game_over);
    }
}

#[test]
fn move_right_animation_advances_on_third_tick() {
    let mut gs = world(Player::new(0, GROUND), vec![], vec![]);
    assert_eq!(MoveRight.execute(&mut gs), None);
    assert_eq!(gs.player.right_increment_frame_count, 1);
    assert_eq!(gs.player.right_increment, 0);
    MoveRight.execute(&mut gs);
    assert_eq!(gs.player.right_increment_frame_count, 2);
    assert_eq!(gs.player.right_increment, 0);
    MoveRight.execute(&mut gs);
    assert_eq!(gs.player.right_increment_frame_count, 0);
    assert_eq!(gs.player.right_increment, 1);
    assert_eq!(gs.player.direction, Direction::Right);
    assert_eq!(gs.player.last_key, Some(LegalKey::D));
    assert!(gs.player.vx > 0);
}

#[test]
fn move_right_wraps_frames_and_steps() {
    let mut p = Player::new(0, GROUND);
    p.right_increment = 3;
    p.right_increment_frame_count = 2;
    let mut gs = world(p, vec![], vec![]);
    gs.footstep_active = true;
    assert_eq!(MoveRight.execute(&mut gs), Some(SoundCue::Footstep));
    assert_eq!(gs.player.right_increment, 0);
}

#[test]
fn move_left_cycles_left_frames() {
    let mut p = Player::new(0, GROUND);
    p.left_increment = 7;
    p.left_increment_frame_count = 2;
    let (q, cue) = apply_action(p, false, Action::MoveLeft);
    assert_eq!(q.left_increment, 4);
    assert_eq!(q.left_increment_frame_count, 0);
    assert_eq!(q.direction, Direction::Left);
    assert_eq!(q.vx, 98);
    assert_eq!(cue, None);
}

#[test]
fn jump_and_kick_start_once() {
    let p = Player::new(0, GROUND);
    let (q, cue) = apply_action(p, false, Action::Jump);
    assert_eq!(q.vy, -5000);
    assert!(q.is_jumping);
    assert_eq!(q.state, PlayerState::InAir);
    assert_eq!(cue, Some(SoundCue::Jump));
    let (r, cue) = apply_action(q, false, Action::Jump);
    assert_eq!(r.vy, -5000);
    assert_eq!(cue, None);
    let (k, cue) = apply_action(p, false, Action::Kick);
    assert!(k.is_kicking);
    assert_eq!(cue, Some(SoundCue::Kick));
    let (_, cue) = apply_action(k, false, Action::Kick);
    assert_eq!(cue, None);
}

#[test]
fn bindings_are_standard() {
    let m = initialize_input_logic_map();
    assert_eq!(m.get(LegalKey::Space), Some(Action::Jump));
    assert_eq!(m.get(LegalKey::D), Some(Action::MoveRight));
    assert_eq!(m.get(LegalKey::A), Some(Action::MoveLeft));
    assert_eq!(m.get(LegalKey::X), Some(Action::Kick));
}

#[test]
fn held_keys_run_in_fixed_order() {
    let m = initialize_input_logic_map();
    let mut gs = world(Player::new(0, GROUND), vec![], vec![]);
    gs.footstep_active = true;
    let held = HeldKeys { space: true, d: true, a: true, x: true };
    let cues = handle_user_input(&mut gs, &m, &held);
    assert_eq!(cues, vec![SoundCue::Jump, SoundCue::Footstep, SoundCue::Footstep, SoundCue::Kick]);
    // A runs after D, so the player ends facing left.
    assert_eq!(gs.player.direction, Direction::Left);
    assert_eq!(gs.player.last_key, Some(LegalKey::X));
    assert_eq!(gs.player.vx, 194);
}

#[test]
fn invincible_player_ignores_keys() {
    let m = initialize_input_logic_map();
    let mut p = Player::new(0, GROUND);
    p.invincible = true;
    p.vx = 1000;
    let mut gs = world(p, vec![], vec![]);
    let held = HeldKeys { space: false, d: true, a: false, x: false };
    let cues = handle_user_input(&mut gs, &m, &held);
    assert!(cues.is_empty());
    assert_eq!(gs.player.vx, 1000);
}

#[test]
fn idle_tick_applies_friction() {
    let m = initialize_input_logic_map();
    let mut p = Player::new(0, GROUND);
    p.vx = 1000;
    let mut gs = world(p, vec![], vec![]);
    let cues = handle_user_input(&mut gs, &m, &no_keys());
    assert!(cues.is_empty());
    assert_eq!(gs.player.vx, 950);
}

#[test]
fn unbound_key_does_nothing() {
    let m = InputLogicMap { space: None, d: None, a: None, x: None };
    let mut p = Player::new(0, GROUND);
    p.vx = 1000;
    let mut gs = world(p, vec![], vec![]);
    let held = HeldKeys { space: false, d: true, a: false, x: false };
    let cues = handle_user_input(&mut gs, &m, &held);
    assert!(cues.is_empty());
    assert_eq!(gs.player.vx, 1000);
}

#[test]
fn adjacency_validation() {
    let mut a = obstacle(0, 0, 10000, 0, 10000, true, true);
    let mut b = obstacle(1, 10000, 20000, 0, 10000, true, true);
    a.right_obstacle = Some(ObstacleId(1));
    b.left_obstacle = Some(ObstacleId(0));
    let mut map = world(Player::new(0, 0), vec![a, b], vec![]).all_maps.remove(0);
    assert!(map.adjacency_is_consistent());
    map.obstacles[1].left_obstacle = None;
    assert!(!map.adjacency_is_consistent());
    map.obstacles[1].left_obstacle = Some(ObstacleId(0));
    map.obstacles[0].under_obstacle = Some(ObstacleId(5));
    assert!(!map.adjacency_is_consistent());
    map.obstacles[0].under_obstacle = None;
    map.obstacles[1].id = ObstacleId(7);
    assert!(!map.adjacency_is_consistent());
}
