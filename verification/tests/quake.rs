use earthquakes::earthquake::{
    add_default_plates, earthquake, impulse_magnitude, init_timers, log10_floor, rumble,
    update_earthquake_text, ChainBody, EarthquakeTimer, PLATE_COUNT, QUAKE_MIN_INTERVAL_MS,
    QUAKE_START_INTERVAL_MS, RUMBLE_PLATE_COUNT,
};
use earthquakes::geometry::Vec2i;
use earthquakes::timer::Timer;

#[test]
fn chain_has_twenty_plates_in_a_row() {
    let chain = add_default_plates();
    assert_eq!(chain.plates.len(), PLATE_COUNT);
    for (i, plate) in chain.plates.iter().enumerate() {
        assert_eq!(plate.pos, Vec2i { x: -500 + 50 * i as i64, y: -55 });
    }
    assert_eq!(chain.ground.pos, Vec2i { x: 0, y: -105 });
    assert_eq!(chain.ground.size, Vec2i { x: 2000, y: 50 });
}

#[test]
fn chain_joints_tie_neighbours_and_ends() {
    let chain = add_default_plates();
    assert_eq!(chain.joints.len(), PLATE_COUNT + 1);
    let first = &chain.joints[0];
    assert!(matches!(first.body_a, ChainBody::Ground));
    assert!(matches!(first.body_b, ChainBody::Plate(0)));
    assert_eq!((first.min_limit, first.max_limit), (0, 60));
    assert_eq!(first.local_anchor_a, Vec2i { x: -500, y: 0 });
    for i in 1..PLATE_COUNT {
        let j = &chain.joints[i];
        assert!(matches!(j.body_a, ChainBody::Plate(p) if p == i - 1));
        assert!(matches!(j.body_b, ChainBody::Plate(p) if p == i));
        assert_eq!((j.min_limit, j.max_limit), (50, 50));
        assert_eq!(j.local_anchor_a, Vec2i { x: 0, y: 0 });
    }
    let last = &chain.joints[PLATE_COUNT];
    assert!(matches!(last.body_a, ChainBody::Ground));
    assert!(matches!(last.body_b, ChainBody::Plate(p) if p == PLATE_COUNT - 1));
    assert_eq!((last.min_limit, last.max_limit), (0, 60));
    assert_eq!(last.local_anchor_a, Vec2i { x: 450, y: 0 });
}

#[test]
fn quake_interval_shrinks_to_floor_and_stays() {
    let mut eq = EarthquakeTimer::new();
    init_timers(&mut eq);
    let mut previous = eq.next.duration_ms;
    assert_eq!(previous, QUAKE_START_INTERVAL_MS);
    for _ in 0..40 {
        // Tick by a whole interval so every cycle fires one quake.
        let step = eq.next.duration_ms - eq.next.elapsed_ms;
        let _ = earthquake(&mut eq, step, PLATE_COUNT);
        assert!(eq.next.duration_ms <= previous);
        assert!(eq.next.duration_ms >= QUAKE_MIN_INTERVAL_MS);
        previous = eq.next.duration_ms;
    }
    assert_eq!(eq.next.duration_ms, QUAKE_MIN_INTERVAL_MS);
    let step = eq.next.duration_ms;
    let _ = earthquake(&mut eq, step, PLATE_COUNT);
    assert_eq!(eq.next.duration_ms, QUAKE_MIN_INTERVAL_MS);
}

#[test]
fn quake_counter_rises_once_per_cycle() {
    let mut eq = EarthquakeTimer::new();
    init_timers(&mut eq);
    assert_eq!(eq.count, 0);
    let _ = earthquake(&mut eq, QUAKE_START_INTERVAL_MS, PLATE_COUNT);
    assert_eq!(eq.count, 1);
    let _ = earthquake(&mut eq, 100, PLATE_COUNT);
    assert_eq!(eq.count, 1);
}

#[test]
fn rumble_of_five_plates_at_count_zero() {
    // A rumble over the twenty-plate chain with subset size five at quake
    // count zero: exactly five distinct plates, each pushed up by the base
    // impulse, and only in this frame's batch.
    let imps = rumble(0, PLATE_COUNT, 5);
    assert_eq!(imps.len(), 5);
    for imp in &imps {
        assert!(imp.plate < PLATE_COUNT);
        assert_eq!(imp.magnitude, 3_000_000);
    }
    for a in 0..imps.len() {
        for b in (a + 1)..imps.len() {
            assert_ne!(imps[a].plate, imps[b].plate);
        }
    }
}

#[test]
fn rumble_caps_at_available_plates() {
    let imps = rumble(0, 3, 5);
    assert_eq!(imps.len(), 3);
}

#[test]
fn impulses_do_not_persist_to_the_next_tick() {
    // Arrange an active quake window whose rumble timer fires this tick.
    let mut eq = EarthquakeTimer {
        count: 0,
        next: Timer { duration_ms: 25_000, elapsed_ms: 0, paused: false, finished_this_tick: false },
        stop: Timer { duration_ms: 3_000, elapsed_ms: 0, paused: false, finished_this_tick: false },
        rumbles: Timer { duration_ms: 100, elapsed_ms: 0, paused: false, finished_this_tick: false },
    };
    let imps = earthquake(&mut eq, 100, PLATE_COUNT);
    assert_eq!(imps.len(), RUMBLE_PLATE_COUNT);
    for imp in &imps {
        assert_eq!(imp.magnitude, 3_000_000);
    }
    // The next tick leaves the rumble timer mid-cycle: no impulses.
    let imps2 = earthquake(&mut eq, 50, PLATE_COUNT);
    assert_eq!(imps2.len(), 0);
}

#[test]
fn quake_window_pauses_after_stop_timer() {
    let mut eq = EarthquakeTimer::new();
    init_timers(&mut eq);
    assert!(eq.stop.paused && eq.rumbles.paused);
    // Just short of the first quake nothing changes.
    let _ = earthquake(&mut eq, QUAKE_START_INTERVAL_MS - 1, PLATE_COUNT);
    assert!(eq.stop.paused && eq.rumbles.paused);
    // The quake fires and unpauses the window.
    let _ = earthquake(&mut eq, 1, PLATE_COUNT);
    assert_eq!(eq.count, 1);
    assert!(!eq.stop.paused && !eq.rumbles.paused);
    // Running past the stop duration pauses the window again.
    let _ = earthquake(&mut eq, 3_000, PLATE_COUNT);
    assert!(eq.stop.paused && eq.rumbles.paused);
}

#[test]
fn impulse_magnitude_grows_with_the_counter() {
    assert_eq!(impulse_magnitude(0), 3_000_000);
    assert_eq!(impulse_magnitude(89), 3_000_000);
    // At count ninety the shifted counter reaches one hundred: the logarithm
    // rises to two and the impulse scales by two to the fourth.
    assert_eq!(impulse_magnitude(90), 48_000_000);
}

#[test]
fn log10_floor_brackets_its_argument() {
    assert_eq!(log10_floor(1), 0);
    assert_eq!(log10_floor(9), 0);
    assert_eq!(log10_floor(10), 1);
    assert_eq!(log10_floor(99), 1);
    assert_eq!(log10_floor(100), 2);
    assert_eq!(log10_floor(10_000_000_000), 10);
    assert_eq!(log10_floor(u64::MAX), 19);
}

#[test]
fn countdown_label_counts_whole_seconds() {
    let mut eq = EarthquakeTimer::new();
    init_timers(&mut eq);
    let _ = earthquake(&mut eq, 500, PLATE_COUNT);
    let (number, secs) = update_earthquake_text(&eq);
    assert_eq!(number, 1);
    assert_eq!(secs, 24);
}
