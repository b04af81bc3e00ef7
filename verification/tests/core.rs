use earthquakes::building::Building;
use earthquakes::geometry::{clamp_i64, dist_sq_points, isqrt, vec_add, vec_sub, Vec2i};
use earthquakes::inhabitants::{
    check_inhabitant_death, handle_rent_timers, handle_spawn_new_inhabitant, move_inside_building,
    remove_dead_inhabitants, Inhabitant, MOVE_INTERVAL_MS, RENT_INTERVAL_MS,
};
use earthquakes::joint::{
    building_containing, check_building_clicked_for_joint, preview_joint_length, BuildingJoint,
    JointTool,
};
use earthquakes::layers::{
    building_layers, chimney_layers, cursor_builder_layers, ground_layers, plates_layers,
    preview_building_layers, Layers,
};
use earthquakes::player::Player;
use earthquakes::timer::Timer;

fn v(x: i64, y: i64) -> Vec2i {
    Vec2i { x, y }
}

fn building(x: i64, y: i64, w: i64, h: i64) -> Building {
    Building { pos: v(x, y), size: v(w, h), chimney: None }
}

#[test]
fn integer_square_root_brackets() {
    assert_eq!(isqrt(0), 0);
    assert_eq!(isqrt(1), 1);
    assert_eq!(isqrt(3), 1);
    assert_eq!(isqrt(4), 2);
    assert_eq!(isqrt(1599), 39);
    assert_eq!(isqrt(1600), 40);
    assert_eq!(isqrt(u64::MAX), 4_294_967_295);
}

#[test]
fn squared_distance_and_vector_arithmetic() {
    assert_eq!(dist_sq_points(v(10, 0), v(50, 0)), 1600);
    assert_eq!(dist_sq_points(v(1, 2), v(4, 6)), 25);
    assert_eq!(vec_add(v(3, -4), v(-1, 9)), v(2, 5));
    assert_eq!(vec_sub(v(3, -4), v(-1, 9)), v(4, -13));
    assert_eq!(clamp_i64(7, -3, 5), 5);
    assert_eq!(clamp_i64(-7, -3, 5), -3);
    assert_eq!(clamp_i64(2, -3, 5), 2);
}

#[test]
fn timer_wraps_overshoot_into_next_cycle() {
    let mut t = Timer::new_repeating(100);
    t.tick(30);
    assert!(!t.just_finished());
    assert_eq!(t.elapsed_ms, 30);
    assert_eq!(t.remaining_ms(), 70);
    t.tick(80);
    assert!(t.just_finished());
    assert_eq!(t.elapsed_ms, 10);
}

#[test]
fn paused_timer_ignores_ticks() {
    let mut t = Timer::new_repeating(100);
    t.pause();
    t.tick(1_000);
    assert!(!t.just_finished());
    assert_eq!(t.elapsed_ms, 0);
    t.unpause();
    t.tick(100);
    assert!(t.just_finished());
}

#[test]
fn zero_duration_timer_fires_every_tick() {
    let mut t = Timer::new_repeating(0);
    t.tick(1);
    assert!(t.just_finished());
    assert_eq!(t.elapsed_ms, 0);
}

#[test]
fn player_debit_and_saturation() {
    let mut p = Player { money: 100 };
    assert!(!p.try_debit(101));
    assert_eq!(p.money, 100);
    assert!(p.try_debit(100));
    assert_eq!(p.money, 0);
    let mut rich = Player { money: i64::MAX };
    rich.credit(1);
    assert_eq!(rich.money, i64::MAX);
    let mut poor = Player { money: i64::MIN };
    poor.adjust(-1);
    assert_eq!(poor.money, i64::MIN);
    poor.adjust(5);
    assert_eq!(poor.money, i64::MIN + 5);
}

#[test]
fn collision_layers_match_their_masks() {
    assert_eq!(Layers::Building.mask(), 1);
    assert_eq!(Layers::Chimney.mask(), 2);
    assert_eq!(Layers::PreviewBuilding.mask(), 4);
    assert_eq!(Layers::Cursor.mask(), 8);
    assert_eq!(Layers::Plates.mask(), 16);
    assert_eq!(Layers::Ground.mask(), 32);
    let b = building_layers();
    assert_eq!((b.memberships, b.filters), (1, 4 | 8 | 1 | 16));
    let c = chimney_layers();
    assert_eq!((c.memberships, c.filters), (2, 4));
    let cb = cursor_builder_layers();
    assert_eq!((cb.memberships, cb.filters), (8, 1));
    let p = preview_building_layers();
    assert_eq!((p.memberships, p.filters), (4, 1 | 2 | 16));
    let pl = plates_layers();
    assert_eq!((pl.memberships, pl.filters), (16, 1 | 32));
    let g = ground_layers();
    assert_eq!((g.memberships, g.filters), (32, 16));
}

#[test]
fn first_containing_building_wins() {
    let buildings = vec![building(0, 0, 100, 60), building(40, 0, 100, 60)];
    assert_eq!(building_containing(&buildings, v(45, 0)), Some(0));
    assert_eq!(building_containing(&buildings, v(60, 0)), Some(1));
    assert_eq!(building_containing(&buildings, v(300, 0)), None);
}

#[test]
fn two_clicks_buy_a_joint_at_distance_times_rate() {
    // First click on building A at local offset (10, 0), second on building B
    // at local offset (-5, 0); the anchors sit forty world units apart at
    // rate three, so the joint costs 120 and keeps a rest length of forty.
    let a = building(0, 0, 30, 60);
    let b = building(55, 0, 100, 60);
    let buildings = vec![a, b];
    let mut tool = JointTool::Idle;
    let mut joints: Vec<BuildingJoint> = Vec::new();
    let mut player = Player { money: 1000 };
    let first = check_building_clicked_for_joint(&mut tool, &mut joints, &mut player, &buildings, v(10, 0));
    assert_eq!(first, None);
    assert_eq!(tool, JointTool::Armed { building: 0, local_anchor: v(10, 0) });
    let second = check_building_clicked_for_joint(&mut tool, &mut joints, &mut player, &buildings, v(50, 0));
    assert_eq!(second, Some(0));
    assert_eq!(player.money, 880);
    assert_eq!(tool, JointTool::Idle);
    assert_eq!(joints.len(), 1);
    let made = &joints[0];
    assert_eq!(made.building_a, 0);
    assert_eq!(made.building_b, 1);
    assert_eq!(made.local_anchor_a, v(10, 0));
    assert_eq!(made.local_anchor_b, v(-5, 0));
    assert_eq!(made.rest_length, 40);
}

#[test]
fn unaffordable_joint_keeps_the_armed_anchor() {
    let a = building(0, 0, 30, 60);
    let b = building(55, 0, 100, 60);
    let buildings = vec![a, b];
    let mut tool = JointTool::Idle;
    let mut joints: Vec<BuildingJoint> = Vec::new();
    let mut player = Player { money: 119 };
    let _ = check_building_clicked_for_joint(&mut tool, &mut joints, &mut player, &buildings, v(10, 0));
    let rejected = check_building_clicked_for_joint(&mut tool, &mut joints, &mut player, &buildings, v(50, 0));
    assert_eq!(rejected, None);
    assert_eq!(player.money, 119);
    assert_eq!(joints.len(), 0);
    // The start anchor persists for a later, affordable second click.
    assert_eq!(tool, JointTool::Armed { building: 0, local_anchor: v(10, 0) });
    player.money = 120;
    let bought = check_building_clicked_for_joint(&mut tool, &mut joints, &mut player, &buildings, v(50, 0));
    assert_eq!(bought, Some(0));
    assert_eq!(player.money, 0);
    assert_eq!(joints[0].rest_length, 40);
}

#[test]
fn click_outside_all_buildings_disarms_the_tool() {
    let buildings = vec![building(0, 0, 100, 60)];
    let mut tool = JointTool::Armed { building: 0, local_anchor: v(5, 5) };
    let mut joints: Vec<BuildingJoint> = Vec::new();
    let mut player = Player { money: 1000 };
    let r = check_building_clicked_for_joint(&mut tool, &mut joints, &mut player, &buildings, v(400, 400));
    assert_eq!(r, None);
    assert_eq!(tool, JointTool::Idle);
    assert_eq!(player.money, 1000);
}

#[test]
fn rubber_band_length_follows_the_cursor() {
    let buildings = vec![building(0, 0, 100, 60)];
    let idle = JointTool::Idle;
    assert_eq!(preview_joint_length(&idle, &buildings, v(100, 100)), 0);
    let armed = JointTool::Armed { building: 0, local_anchor: v(10, 0) };
    assert_eq!(preview_joint_length(&armed, &buildings, v(10, 30)), 30);
    assert_eq!(preview_joint_length(&armed, &buildings, v(13, 4)), 5);
}

#[test]
fn new_inhabitant_moves_and_resamples_its_target() {
    let home = building(0, 0, 100, 60);
    let mut inhabitants: Vec<Inhabitant> = Vec::new();
    handle_spawn_new_inhabitant(&mut inhabitants, 0);
    let mut inh = inhabitants[0];
    assert_eq!(inh.home, 0);
    assert_eq!(inh.x, 0);
    // The move timer starts with a zero cycle, so the first frame already
    // picks a random target within the walkable strip (half range 35).
    move_inside_building(&mut inh, &home, 0, 16);
    assert!(-35 <= inh.target_x && inh.target_x < 35);
    assert_eq!(inh.move_timer.duration_ms, MOVE_INTERVAL_MS);
}

#[test]
fn inhabitant_walks_toward_target_and_stays_inside() {
    let home = building(0, 0, 100, 60);
    let mut inh = Inhabitant {
        home: 0,
        x: 0,
        target_x: 30,
        move_timer: Timer { duration_ms: MOVE_INTERVAL_MS, elapsed_ms: 0, paused: false, finished_this_tick: false },
        rent_timer: Timer::new_repeating(RENT_INTERVAL_MS),
    };
    move_inside_building(&mut inh, &home, 0, 1_000);
    assert_eq!(inh.x, 3);
    assert_eq!(inh.target_x, 30);
    // A strong lean drags the inhabitant to a wall, never past it.
    move_inside_building(&mut inh, &home, 100, 1_000);
    assert_eq!(inh.x, 35);
    move_inside_building(&mut inh, &home, 100, 1_000);
    assert_eq!(inh.x, 35);
}

#[test]
fn tilt_threshold_decides_death() {
    assert!(!check_inhabitant_death(81));
    assert!(check_inhabitant_death(82));
    assert!(!check_inhabitant_death(-81));
    assert!(check_inhabitant_death(-82));
    assert!(!check_inhabitant_death(0));
}

#[test]
fn rent_lands_when_the_timer_fires() {
    let home = building(0, 100, 100, 60);
    let mut player = Player { money: 0 };
    let mut inh = Inhabitant {
        home: 0,
        x: 0,
        target_x: 0,
        move_timer: Timer::new_repeating(MOVE_INTERVAL_MS),
        rent_timer: Timer { duration_ms: RENT_INTERVAL_MS, elapsed_ms: 9_900, paused: false, finished_this_tick: false },
    };
    handle_rent_timers(&mut inh, &home, &mut player, 50);
    assert_eq!(player.money, 0);
    handle_rent_timers(&mut inh, &home, &mut player, 50);
    // Rent is half the building's height above ground plus its width.
    assert_eq!(player.money, 150);
    assert_eq!(inh.rent_timer.elapsed_ms, 0);
}

#[test]
fn rent_rounds_toward_zero_and_may_be_negative() {
    let sunken = building(0, -101, 100, 60);
    let mut player = Player { money: 100 };
    let mut inh = Inhabitant {
        home: 0,
        x: 0,
        target_x: 0,
        move_timer: Timer::new_repeating(MOVE_INTERVAL_MS),
        rent_timer: Timer { duration_ms: RENT_INTERVAL_MS, elapsed_ms: 9_999, paused: false, finished_this_tick: false },
    };
    handle_rent_timers(&mut inh, &sunken, &mut player, 1);
    assert_eq!(player.money, 150);
    let deep = building(0, -300, 100, 60);
    handle_rent_timers(&mut inh, &deep, &mut player, RENT_INTERVAL_MS);
    assert_eq!(player.money, 100);
}

#[test]
fn tilted_homes_lose_their_inhabitants() {
    let mut inhabitants: Vec<Inhabitant> = Vec::new();
    for home in [0usize, 1, 2, 0] {
        handle_spawn_new_inhabitant(&mut inhabitants, home);
    }
    // Building 1 leans far over and building 2 has fallen the other way.
    let tilts = vec![5i64, 82, -90];
    remove_dead_inhabitants(&mut inhabitants, &tilts);
    assert_eq!(inhabitants.len(), 2);
    assert_eq!(inhabitants[0].home, 0);
    assert_eq!(inhabitants[1].home, 0);
}
