//! Vehicles: position, approach, route, and the per-tick motion rules.
use vstd::prelude::*;
use vstd::math::abs;
use crate::roads::{LightState, Route, TrafficLight};

verus! {

/// Vehicle rectangle height in pixels.
pub const VEH_LEN: i32 = 50;
/// Vehicle rectangle width in pixels.
pub const VEH_WID: i32 = 50;
/// Distance a vehicle advances per tick, in pixels.
pub const SPEED: i32 = 2;
/// Minimum gap, along the axis of travel, between a spawn point and a
/// vehicle already on the same approach.
pub const SAFE_GAP: i32 = 60;

/// Direction of travel into the intersection (compass of travel, not a
/// screen axis): `Up` moves towards decreasing y, `Down` towards
/// increasing y, `Left` towards decreasing x, `Right` towards increasing x.
#[derive(Clone, Copy, PartialEq, Eq, Structural, Debug)]
pub enum Approach {
    Up,
    Down,
    Left,
    Right,
}

/// A vehicle: the origin of its bounding rectangle, its fixed approach and
/// route, its fill colour (rendering only), and its per-tick speed.
#[derive(Clone, Copy, Debug)]
pub struct Vehicle {
    pub x: i32,
    pub y: i32,
    pub dir: Approach,
    pub route: Route,
    pub color: (u8, u8, u8),
    pub speed: i32,
}

/// The fill colour a vehicle gets for its route.
pub open spec fn spec_color_of(route: Route) -> (u8, u8, u8) {
    match route {
        Route::TurnRight => (255u8, 220u8, 0u8),
        Route::GoStraight => (66u8, 135u8, 245u8),
        Route::TurnLeft => (220u8, 20u8, 60u8),
    }
}

/// Is there a red light among `lights` governing approach `dir`?
pub open spec fn red_light_for(lights: Seq<TrafficLight>, dir: Approach) -> bool {
    exists|i: int|
        0 <= i < lights.len() && lights[i].approach == dir && lights[i].state == LightState::Red
}

impl Vehicle {
    /// Coordinates lie comfortably inside `i32`, so one tick of motion and
    /// the gap arithmetic cannot overflow.
    pub open spec fn pos_ok(self) -> bool {
        &&& -100_000 <= self.x <= 100_000
        &&& -100_000 <= self.y <= 100_000
    }

    /// Well-formed vehicle: the fixed per-tick speed, and safe coordinates.
    pub open spec fn wf(self) -> bool {
        &&& self.speed == SPEED
        &&& self.pos_ok()
    }

    /// The vehicle's leading edge lies in the narrow band just before its
    /// approach's stop line, where a red light holds it.
    pub open spec fn at_stop_line(self) -> bool {
        match self.dir {
            Approach::Up => 475 <= self.y <= 485,
            Approach::Down => 285 <= self.y + VEH_LEN <= 295,
            Approach::Left => 575 <= self.x <= 585,
            Approach::Right => 385 <= self.x + VEH_WID <= 395,
        }
    }

    /// May the vehicle advance this tick? Movement is suppressed exactly
    /// when a red light governs its approach and it sits at the stop line.
    pub open spec fn can_move_spec(self, lights: Seq<TrafficLight>) -> bool {
        !(self.at_stop_line() && red_light_for(lights, self.dir))
    }

    /// Where one tick of unobstructed motion takes the vehicle: straight
    /// routes translate along the approach's axis; turning routes travel
    /// straight until a per-approach threshold, then along the
    /// perpendicular axis (an L-shaped corner, not an arc).
    pub open spec fn moved(self) -> Vehicle {
        match self.route {
            Route::GoStraight => match self.dir {
                Approach::Up => Vehicle { y: (self.y - self.speed) as i32, ..self },
                Approach::Down => Vehicle { y: (self.y + self.speed) as i32, ..self },
                Approach::Left => Vehicle { x: (self.x - self.speed) as i32, ..self },
                Approach::Right => Vehicle { x: (self.x + self.speed) as i32, ..self },
            },
            Route::TurnRight => match self.dir {
                Approach::Up => if self.y <= 415 {
                    Vehicle { x: (self.x + self.speed) as i32, ..self }
                } else {
                    Vehicle { y: (self.y - self.speed) as i32, ..self }
                },
                Approach::Down => if self.y >= 340 {
                    Vehicle { x: (self.x - self.speed) as i32, ..self }
                } else {
                    Vehicle { y: (self.y + self.speed) as i32, ..self }
                },
                Approach::Left => if self.x >= 515 {
                    Vehicle { x: (self.x - self.speed) as i32, ..self }
                } else {
                    Vehicle { y: (self.y - self.speed) as i32, ..self }
                },
                Approach::Right => if self.x <= 435 {
                    Vehicle { x: (self.x + self.speed) as i32, ..self }
                } else {
                    Vehicle { y: (self.y + self.speed) as i32, ..self }
                },
            },
            Route::TurnLeft => match self.dir {
                Approach::Up => if self.y <= 340 {
                    Vehicle { x: (self.x - self.speed) as i32, ..self }
                } else {
                    Vehicle { y: (self.y - self.speed) as i32, ..self }
                },
                Approach::Down => if self.y >= 410 {
                    Vehicle { x: (self.x + self.speed) as i32, ..self }
                } else {
                    Vehicle { y: (self.y + self.speed) as i32, ..self }
                },
                Approach::Left => if self.x >= 440 {
                    Vehicle { x: (self.x - self.speed) as i32, ..self }
                } else {
                    Vehicle { y: (self.y + self.speed) as i32, ..self }
                },
                Approach::Right => if self.x <= 510 {
                    Vehicle { x: (self.x + self.speed) as i32, ..self }
                } else {
                    Vehicle { y: (self.y - self.speed) as i32, ..self }
                },
            },
        }
    }

    /// One tick of the motion state machine: the vehicle advances along its
    /// route unless held at a red stop line.
    pub open spec fn step_spec(self, lights: Seq<TrafficLight>) -> Vehicle {
        if self.can_move_spec(lights) {
            self.moved()
        } else {
            self
        }
    }

    /// The rectangle's origin lies beyond the off-screen margin around the
    /// 1000 by 800 canvas.
    pub open spec fn off_screen_spec(self) -> bool {
        self.x < -75 || self.x > 1075 || self.y < -75 || self.y > 875
    }

    /// Create a vehicle at the given origin, with its colour derived from
    /// the route and the fixed per-tick speed.
    pub fn new(x: i32, y: i32, dir: Approach, route: Route) -> (v: Self)
        requires
            -100_000 <= x <= 100_000,
            -100_000 <= y <= 100_000,
        ensures
            v == (Vehicle { x, y, dir, route, color: spec_color_of(route), speed: SPEED }),
            v.wf(),
    {
        let color = match route {
            Route::TurnRight => (255u8, 220u8, 0u8),
            Route::GoStraight => (66u8, 135u8, 245u8),
            Route::TurnLeft => (220u8, 20u8, 60u8),
        };
        Vehicle { x, y, dir, route, color, speed: SPEED }
    }

    /// Scan the lights: movement is denied exactly when one of them is red,
    /// governs this vehicle's approach, and the vehicle is at the stop line.
    pub fn can_move(&self, lights: &[TrafficLight]) -> (r: bool)
        requires
            self.pos_ok(),
        ensures
            r == self.can_move_spec(lights@),
    {
        let mut i: usize = 0;
        while i < lights.len()
            invariant
                self.pos_ok(),
                0 <= i <= lights@.len(),
                forall|j: int|
                    0 <= j < i ==> !(lights@[j].approach == self.dir && lights@[j].state
                        == LightState::Red && self.at_stop_line()),
            decreases lights@.len() - i,
        {
            let light = lights[i];
            if light.approach == self.dir && light.state == LightState::Red {
                match self.dir {
                    Approach::Up => {
                        if self.y <= 485 && self.y >= 475 {
                            return false;
                        }
                    },
                    Approach::Down => {
                        if self.y + VEH_LEN >= 285 && self.y + VEH_LEN <= 295 {
                            return false;
                        }
                    },
                    Approach::Left => {
                        if self.x <= 585 && self.x >= 575 {
                            return false;
                        }
                    },
                    Approach::Right => {
                        if self.x + VEH_WID >= 385 && self.x + VEH_WID <= 395 {
                            return false;
                        }
                    },
                }
            }
            i = i + 1;
        }
        true
    }

    /// Advance the vehicle by one tick according to the motion state
    /// machine, consulting the current lights.
    pub fn step(&mut self, lights: &[TrafficLight])
        requires
            old(self).wf(),
        ensures
            *final(self) == old(self).step_spec(lights@),
    {
        if !self.can_move(lights) {
            return ;
        }
        match self.route {
            Route::GoStraight => match self.dir {
                Approach::Up => self.y = self.y - self.speed,
                Approach::Down => self.y = self.y + self.speed,
                Approach::Left => self.x = self.x - self.speed,
                Approach::Right => self.x = self.x + self.speed,
            },
            Route::TurnRight => match self.dir {
                Approach::Up => {
                    if self.y <= 415 {
                        self.x = self.x + self.speed;
                    } else {
                        self.y = self.y - self.speed;
                    }
                },
                Approach::Down => {
                    if self.y >= 340 {
                        self.x = self.x - self.speed;
                    } else {
                        self.y = self.y + self.speed;
                    }
                },
                Approach::Left => {
                    if self.x >= 515 {
                        self.x = self.x - self.speed;
                    } else {
                        self.y = self.y - self.speed;
                    }
                },
                Approach::Right => {
                    if self.x <= 435 {
                        self.x = self.x + self.speed;
                    } else {
                        self.y = self.y + self.speed;
                    }
                },
            },
            Route::TurnLeft => match self.dir {
                Approach::Up => {
                    if self.y <= 340 {
                        self.x = self.x - self.speed;
                    } else {
                        self.y = self.y - self.speed;
                    }
                },
                Approach::Down => {
                    if self.y >= 410 {
                        self.x = self.x + self.speed;
                    } else {
                        self.y = self.y + self.speed;
                    }
                },
                Approach::Left => {
                    if self.x >= 440 {
                        self.x = self.x - self.speed;
                    } else {
                        self.y = self.y + self.speed;
                    }
                },
                Approach::Right => {
                    if self.x <= 510 {
                        self.x = self.x + self.speed;
                    } else {
                        self.y = self.y - self.speed;
                    }
                },
            },
        }
    }

    /// Has the vehicle left the visible region, off-screen margin included?
    pub fn is_off_screen(&self) -> (r: bool)
        ensures
            r == self.off_screen_spec(),
    {
        self.x < -75 || self.x > 1075 || self.y < -75 || self.y > 875
    }
}

/// The vehicle after `n` ticks of the motion state machine under a fixed
/// light array.
pub open spec fn step_n(v: Vehicle, lights: Seq<TrafficLight>, n: nat) -> Vehicle
    decreases n,
{
    if n == 0 {
        v
    } else {
        step_n(v, lights, (n - 1) as nat).step_spec(lights)
    }
}

/// A stop line only ever holds a vehicle while a red light governs its
/// approach: at the stop line under such a red light the vehicle keeps its
/// position for the tick, and with no red light on its approach it
/// advances as its route dictates, leaving its position changed.
pub proof fn lemma_stop_line(v: Vehicle, lights: Seq<TrafficLight>)
    requires
        v.wf(),
    ensures
        v.at_stop_line() && red_light_for(lights, v.dir) ==> v.step_spec(lights) == v,
        !red_light_for(lights, v.dir) ==> v.step_spec(lights) == v.moved(),
        !red_light_for(lights, v.dir) ==> v.step_spec(lights) != v,
{
    if !red_light_for(lights, v.dir) {
        let m = v.moved();
        assert(m.x != v.x || m.y != v.y);
    }
}

/// A straight-through vehicle on the Up approach that never faces a red
/// light on its approach moves up by its fixed speed every tick, keeping
/// its column, and is off screen exactly once its y coordinate has dropped
/// below the off-screen margin.
pub proof fn lemma_straight_up_progress(v: Vehicle, lights: Seq<TrafficLight>, n: nat)
    requires
        v.wf(),
        v.route == Route::GoStraight,
        v.dir == Approach::Up,
        !red_light_for(lights, Approach::Up),
        -75 <= v.x <= 1075,
        475 < v.y <= 875,
        v.y - SPEED * n >= -100_000,
    ensures
        step_n(v, lights, n).x == v.x,
        step_n(v, lights, n).y == v.y - SPEED * n,
        step_n(v, lights, n).dir == v.dir,
        step_n(v, lights, n).route == v.route,
        step_n(v, lights, n).speed == v.speed,
        step_n(v, lights, n).off_screen_spec() <==> v.y - SPEED * n < -75,
    decreases n,
{
    if n > 0 {
        lemma_straight_up_progress(v, lights, (n - 1) as nat);
    }
}

/// Does vehicle `v` stand too close, along the axis of travel, to a spawn
/// at `(spawn_x, spawn_y)` on approach `dir`? Only vehicles on the same
/// approach can block a spawn.
pub open spec fn blocks_spawn(v: Vehicle, spawn_x: int, spawn_y: int, dir: Approach) -> bool {
    v.dir == dir && match dir {
        Approach::Up | Approach::Down => abs(spawn_y - v.y) < SAFE_GAP,
        Approach::Left | Approach::Right => abs(spawn_x - v.x) < SAFE_GAP,
    }
}

/// Spawn admission: accept exactly when no live vehicle on the requested
/// approach lies within the safe gap of the spawn point along the axis of
/// travel.
pub fn can_spawn_vehicle(vehicles: &Vec<Vehicle>, spawn_x: i32, spawn_y: i32, dir: Approach) -> (r:
    bool)
    requires
        -100_000 <= spawn_x <= 100_000,
        -100_000 <= spawn_y <= 100_000,
        forall|i: int| 0 <= i < vehicles@.len() ==> #[trigger] vehicles@[i].pos_ok(),
    ensures
        r <==> forall|i: int|
            0 <= i < vehicles@.len() ==> !blocks_spawn(
                #[trigger] vehicles@[i],
                spawn_x as int,
                spawn_y as int,
                dir,
            ),
{
    let mut i: usize = 0;
    while i < vehicles.len()
        invariant
            -100_000 <= spawn_x <= 100_000,
            -100_000 <= spawn_y <= 100_000,
            forall|k: int| 0 <= k < vehicles@.len() ==> #[trigger] vehicles@[k].pos_ok(),
            0 <= i <= vehicles@.len(),
            forall|k: int|
                0 <= k < i ==> !blocks_spawn(
                    #[trigger] vehicles@[k],
                    spawn_x as int,
                    spawn_y as int,
                    dir,
                ),
        decreases vehicles@.len() - i,
    {
        let v = vehicles[i];
        assert(vehicles@[i as int].pos_ok());
        if v.dir == dir {
            let (s, c) = match dir {
                Approach::Up | Approach::Down => (spawn_y, v.y),
                Approach::Left | Approach::Right => (spawn_x, v.x),
            };
            let gap = if s >= c {
                s - c
            } else {
                c - s
            };
            if gap < SAFE_GAP {
                return false;
            }
        }
        i = i + 1;
    }
    true
}

} // verus!
