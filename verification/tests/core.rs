use road_intersection::roads::{
    rand_route, route_of_index, select_green, update_lights, LightState, Route, TrafficLight,
};
use road_intersection::sim::{
    remove_off_screen, spawn_point, step_all, try_spawn, Cooldowns, SPAWN_COOLDOWN,
};
use road_intersection::vehicles::{can_spawn_vehicle, Approach, Vehicle, SAFE_GAP, SPEED};

fn startup_lights() -> Vec<TrafficLight> {
    vec![
        TrafficLight {
            position: (585, 485),
            state: LightState::Green,
            approach: Approach::Up,
        },
        TrafficLight {
            position: (385, 285),
            state: LightState::Green,
            approach: Approach::Down,
        },
        TrafficLight {
            position: (585, 285),
            state: LightState::Red,
            approach: Approach::Left,
        },
        TrafficLight {
            position: (385, 485),
            state: LightState::Red,
            approach: Approach::Right,
        },
    ]
}

fn fleet(up: usize, down: usize, left: usize, right: usize) -> Vec<Vehicle> {
    let mut vs = Vec::new();
    for i in 0..up {
        vs.push(Vehicle::new(515, 750 - 100 * i as i32, Approach::Up, Route::GoStraight));
    }
    for i in 0..down {
        vs.push(Vehicle::new(440, 100 * i as i32, Approach::Down, Route::GoStraight));
    }
    for i in 0..left {
        vs.push(Vehicle::new(950 - 100 * i as i32, 335, Approach::Left, Route::GoStraight));
    }
    for i in 0..right {
        vs.push(Vehicle::new(10 + 100 * i as i32, 415, Approach::Right, Route::GoStraight));
    }
    vs
}

fn green_count(lights: &[TrafficLight]) -> usize {
    lights.iter().filter(|l| l.state == LightState::Green).count()
}

#[test]
fn strict_max_selects_up() {
    let vs = fleet(3, 1, 0, 2);
    assert_eq!(select_green(&vs), Approach::Up);
}

#[test]
fn tie_break_favors_canonical_first() {
    let vs = fleet(2, 2, 1, 0);
    assert_eq!(select_green(&vs), Approach::Up);

    let vs = fleet(0, 2, 2, 1);
    assert_eq!(select_green(&vs), Approach::Down);

    let vs = fleet(0, 0, 3, 3);
    assert_eq!(select_green(&vs), Approach::Left);

    let vs = fleet(0, 0, 0, 1);
    assert_eq!(select_green(&vs), Approach::Right);
}

#[test]
fn no_load_defaults_to_up() {
    let vs = fleet(0, 0, 0, 0);
    assert_eq!(select_green(&vs), Approach::Up);
}

#[test]
fn exactly_one_light_green_every_tick() {
    let mut lights = startup_lights();
    for (u, d, l, r) in [(0, 0, 0, 0), (3, 1, 0, 2), (2, 2, 1, 0), (0, 5, 5, 5), (1, 2, 3, 4)] {
        let vs = fleet(u, d, l, r);
        update_lights(&mut lights, &vs);
        assert_eq!(green_count(&lights), 1);
        assert_eq!(lights.len(), 4);
    }
}

#[test]
fn update_lights_keeps_positions_and_approaches() {
    let mut lights = startup_lights();
    let before = startup_lights();
    let vs = fleet(0, 4, 0, 0);
    update_lights(&mut lights, &vs);
    for (a, b) in lights.iter().zip(before.iter()) {
        assert_eq!(a.position, b.position);
        assert_eq!(a.approach, b.approach);
    }
    assert_eq!(lights[1].state, LightState::Green);
    assert_eq!(lights[0].state, LightState::Red);
    assert_eq!(lights[2].state, LightState::Red);
    assert_eq!(lights[3].state, LightState::Red);
}

#[test]
fn straight_up_monotone_until_removed() {
    let mut lights = startup_lights();
    let vs = fleet(1, 0, 0, 0);
    update_lights(&mut lights, &vs);
    assert_eq!(lights[0].state, LightState::Green);

    let mut v = Vehicle::new(515, 750, Approach::Up, Route::GoStraight);
    let mut prev_y = v.y;
    let mut ticks = 0u32;
    while !v.is_off_screen() {
        v.step(&lights);
        assert_eq!(v.y, prev_y - SPEED);
        assert_eq!(v.x, 515);
        prev_y = v.y;
        ticks += 1;
        assert!(ticks < 10_000);
    }
    // Removed exactly when the origin first passes the 75 px margin.
    assert_eq!(v.y, -76);
    assert!(v.y + SPEED >= -75);
}

#[test]
fn spawn_gap_rejects_and_accepts() {
    // |750 - 700| = 50 < 60: too close, reject.
    let close = vec![Vehicle::new(515, 700, Approach::Up, Route::GoStraight)];
    assert!(!can_spawn_vehicle(&close, 515, 750, Approach::Up));

    // |750 - 690| = 60: exactly the safe gap, accept.
    let at_gap = vec![Vehicle::new(515, 750 - SAFE_GAP, Approach::Up, Route::GoStraight)];
    assert!(can_spawn_vehicle(&at_gap, 515, 750, Approach::Up));

    // A vehicle on another approach never blocks.
    let other = vec![Vehicle::new(440, 750, Approach::Down, Route::GoStraight)];
    assert!(can_spawn_vehicle(&other, 515, 750, Approach::Up));

    // No vehicles at all: accept.
    let none: Vec<Vehicle> = Vec::new();
    assert!(can_spawn_vehicle(&none, 515, 750, Approach::Up));
}

#[test]
fn red_light_holds_vehicle_at_stop_line() {
    let mut lights = startup_lights();
    // Many Down vehicles: Down gets green, Up gets red.
    let vs = fleet(1, 4, 0, 0);
    update_lights(&mut lights, &vs);
    assert_eq!(lights[0].state, LightState::Red);

    // At the stop-line band for Up (y in [475, 485]): held in place.
    let mut held = Vehicle::new(515, 480, Approach::Up, Route::GoStraight);
    held.step(&lights);
    assert_eq!((held.x, held.y), (515, 480));

    // Same position with the light green: moves normally.
    let up_only = fleet(3, 0, 0, 0);
    update_lights(&mut lights, &up_only);
    assert_eq!(lights[0].state, LightState::Green);
    let mut free = Vehicle::new(515, 480, Approach::Up, Route::GoStraight);
    free.step(&lights);
    assert_eq!((free.x, free.y), (515, 478));

    // Already past the band: a red light no longer blocks.
    update_lights(&mut lights, &vs);
    let mut past = Vehicle::new(515, 470, Approach::Up, Route::GoStraight);
    past.step(&lights);
    assert_eq!((past.x, past.y), (515, 468));
}

#[test]
fn spawn_has_no_creation_drift() {
    let v = Vehicle::new(515, 750, Approach::Up, Route::GoStraight);
    assert_eq!((v.x, v.y), (515, 750));
    assert_eq!(v.speed, SPEED);

    // Through the full spawn path as well.
    let mut vs: Vec<Vehicle> = Vec::new();
    let mut cds = Cooldowns::new();
    assert!(try_spawn(&mut vs, &mut cds, Approach::Left, Route::TurnRight));
    let (sx, sy) = spawn_point(Approach::Left);
    assert_eq!((vs[0].x, vs[0].y), (sx, sy));
    assert_eq!(vs[0].dir, Approach::Left);
    assert_eq!(vs[0].route, Route::TurnRight);
}

#[test]
fn turn_right_up_takes_corner() {
    let lights = vec![TrafficLight {
        position: (585, 485),
        state: LightState::Green,
        approach: Approach::Up,
    }];
    let mut v = Vehicle::new(515, 419, Approach::Up, Route::TurnRight);
    v.step(&lights);
    assert_eq!((v.x, v.y), (515, 417));
    v.step(&lights);
    assert_eq!((v.x, v.y), (515, 415));
    // Threshold crossed: now the motion turns to increasing x.
    v.step(&lights);
    assert_eq!((v.x, v.y), (517, 415));
    v.step(&lights);
    assert_eq!((v.x, v.y), (519, 415));
}

#[test]
fn turn_left_down_takes_wider_corner() {
    let lights = vec![TrafficLight {
        position: (385, 285),
        state: LightState::Green,
        approach: Approach::Down,
    }];
    let mut v = Vehicle::new(440, 408, Approach::Down, Route::TurnLeft);
    v.step(&lights);
    assert_eq!((v.x, v.y), (440, 410));
    // Threshold reached: now the motion turns to increasing x.
    v.step(&lights);
    assert_eq!((v.x, v.y), (442, 410));
}

#[test]
fn off_screen_margins() {
    let inside = Vehicle::new(-75, 875, Approach::Up, Route::GoStraight);
    assert!(!inside.is_off_screen());
    let beyond_left = Vehicle::new(-76, 400, Approach::Left, Route::GoStraight);
    assert!(beyond_left.is_off_screen());
    let beyond_right = Vehicle::new(1076, 400, Approach::Right, Route::GoStraight);
    assert!(beyond_right.is_off_screen());
    let beyond_bottom = Vehicle::new(500, 876, Approach::Down, Route::GoStraight);
    assert!(beyond_bottom.is_off_screen());
    let beyond_top = Vehicle::new(500, -76, Approach::Up, Route::GoStraight);
    assert!(beyond_top.is_off_screen());
}

#[test]
fn remove_off_screen_keeps_order() {
    let mut vs = vec![
        Vehicle::new(515, 750, Approach::Up, Route::GoStraight),
        Vehicle::new(515, -80, Approach::Up, Route::GoStraight),
        Vehicle::new(440, 100, Approach::Down, Route::GoStraight),
        Vehicle::new(1090, 335, Approach::Left, Route::GoStraight),
    ];
    remove_off_screen(&mut vs);
    assert_eq!(vs.len(), 2);
    assert_eq!((vs[0].x, vs[0].y), (515, 750));
    assert_eq!((vs[1].x, vs[1].y), (440, 100));
}

#[test]
fn step_all_steps_every_vehicle() {
    let mut lights = startup_lights();
    let mut vs = fleet(2, 1, 0, 0);
    update_lights(&mut lights, &vs);
    let before: Vec<(i32, i32)> = vs.iter().map(|v| (v.x, v.y)).collect();
    step_all(&mut vs, &lights);
    assert_eq!(vs.len(), 3);
    // Up has green: both Up vehicles advance.
    assert_eq!(vs[0].y, before[0].1 - SPEED);
    assert_eq!(vs[1].y, before[1].1 - SPEED);
    // The Down vehicle at y=0 is far from its stop-line band, so it moves too.
    assert_eq!(vs[2].y, before[2].1 + SPEED);
}

#[test]
fn cooldown_blocks_then_releases() {
    let mut vs: Vec<Vehicle> = Vec::new();
    let mut cds = Cooldowns::new();
    assert!(try_spawn(&mut vs, &mut cds, Approach::Right, Route::GoStraight));
    // Cooldown armed: an immediate second request is refused.
    assert!(!try_spawn(&mut vs, &mut cds, Approach::Right, Route::GoStraight));
    assert_eq!(vs.len(), 1);
    // Another approach is not affected by Right's cooldown.
    assert!(try_spawn(&mut vs, &mut cds, Approach::Up, Route::GoStraight));
    for _ in 0..SPAWN_COOLDOWN {
        cds.tick();
    }
    assert!(cds.ready(Approach::Right));
    // The gatekeeper still rejects: the first vehicle has not left the gap.
    assert!(!try_spawn(&mut vs, &mut cds, Approach::Right, Route::GoStraight));
    // Once the first vehicle has moved past the safe gap, spawning works.
    vs[0].x += SAFE_GAP;
    assert!(try_spawn(&mut vs, &mut cds, Approach::Right, Route::GoStraight));
    assert_eq!(vs.len(), 3);
}

#[test]
fn route_index_mapping() {
    assert_eq!(route_of_index(0), Route::TurnLeft);
    assert_eq!(route_of_index(1), Route::GoStraight);
    assert_eq!(route_of_index(2), Route::TurnRight);
}

#[test]
fn rand_route_yields_each_route() {
    let mut rng = rand::thread_rng();
    let mut seen = [false; 3];
    for _ in 0..1000 {
        match rand_route(&mut rng) {
            Route::TurnLeft => seen[0] = true,
            Route::GoStraight => seen[1] = true,
            Route::TurnRight => seen[2] = true,
        }
    }
    assert!(seen[0] && seen[1] && seen[2]);
}

#[test]
fn vehicle_color_follows_route() {
    let r = Vehicle::new(0, 0, Approach::Up, Route::TurnRight);
    assert_eq!(r.color, (255, 220, 0));
    let s = Vehicle::new(0, 0, Approach::Up, Route::GoStraight);
    assert_eq!(s.color, (66, 135, 245));
    let l = Vehicle::new(0, 0, Approach::Up, Route::TurnLeft);
    assert_eq!(l.color, (220, 20, 60));
}

#[test]
fn spawn_points_per_approach() {
    assert_eq!(spawn_point(Approach::Up), (515, 750));
    assert_eq!(spawn_point(Approach::Down), (440, 0));
    assert_eq!(spawn_point(Approach::Left), (950, 335));
    assert_eq!(spawn_point(Approach::Right), (10, 415));
}
