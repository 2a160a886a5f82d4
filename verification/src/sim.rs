//! Per-tick orchestration helpers: spawn points, per-approach spawn
//! cooldowns, admission of spawn requests, stepping the live vehicle set,
//! and culling vehicles that have left the screen.
use vstd::prelude::*;
use crate::roads::{Route, TrafficLight};
use crate::vehicles::{
    blocks_spawn,
    can_spawn_vehicle,
    spec_color_of,
    Approach,
    Vehicle,
    SPEED,
};

verus! {

/// Ticks a fresh spawn blocks further spawns on its approach.
pub const SPAWN_COOLDOWN: u32 = 18;

/// The fixed spawn origin for each approach.
pub open spec fn spec_spawn_point(dir: Approach) -> (i32, i32) {
    match dir {
        Approach::Up => (515, 750),
        Approach::Down => (440, 0),
        Approach::Left => (950, 335),
        Approach::Right => (10, 415),
    }
}

/// Where a vehicle on approach `dir` enters the canvas.
pub fn spawn_point(dir: Approach) -> (r: (i32, i32))
    ensures
        r == spec_spawn_point(dir),
{
    match dir {
        Approach::Up => (515, 750),
        Approach::Down => (440, 0),
        Approach::Left => (950, 335),
        Approach::Right => (10, 415),
    }
}

/// Remaining cooldown ticks per approach: while a counter is positive, the
/// approach accepts no new spawn.
#[derive(Clone, Copy, PartialEq, Eq, Structural, Debug)]
pub struct Cooldowns {
    pub up: u32,
    pub down: u32,
    pub left: u32,
    pub right: u32,
}

impl Cooldowns {
    /// The counter belonging to approach `dir`.
    pub open spec fn get(self, dir: Approach) -> u32 {
        match dir {
            Approach::Up => self.up,
            Approach::Down => self.down,
            Approach::Left => self.left,
            Approach::Right => self.right,
        }
    }

    /// All approaches start ready to spawn.
    pub fn new() -> (r: Self)
        ensures
            forall|d: Approach| #[trigger] r.get(d) == 0,
    {
        Cooldowns { up: 0, down: 0, left: 0, right: 0 }
    }

    /// One tick passes: every positive counter decreases by one.
    pub fn tick(&mut self)
        ensures
            forall|d: Approach|
                #[trigger] final(self).get(d) == (if old(self).get(d) > 0 {
                    (old(self).get(d) - 1) as u32
                } else {
                    0u32
                }),
    {
        if self.up > 0 {
            self.up = self.up - 1;
        }
        if self.down > 0 {
            self.down = self.down - 1;
        }
        if self.left > 0 {
            self.left = self.left - 1;
        }
        if self.right > 0 {
            self.right = self.right - 1;
        }
    }

    /// May approach `dir` spawn as far as its cooldown is concerned?
    pub fn ready(&self, dir: Approach) -> (r: bool)
        ensures
            r <==> self.get(dir) == 0,
    {
        let c = match dir {
            Approach::Up => self.up,
            Approach::Down => self.down,
            Approach::Left => self.left,
            Approach::Right => self.right,
        };
        c == 0
    }

    /// A spawn happened on `dir`: start its cooldown afresh.
    pub fn arm(&mut self, dir: Approach)
        ensures
            final(self).get(dir) == SPAWN_COOLDOWN,
            forall|d: Approach| d != dir ==> #[trigger] final(self).get(d) == old(self).get(d),
    {
        match dir {
            Approach::Up => self.up = SPAWN_COOLDOWN,
            Approach::Down => self.down = SPAWN_COOLDOWN,
            Approach::Left => self.left = SPAWN_COOLDOWN,
            Approach::Right => self.right = SPAWN_COOLDOWN,
        }
    }
}

/// No live vehicle blocks a spawn at the fixed spawn point of `dir`.
pub open spec fn spawn_clear(s: Seq<Vehicle>, dir: Approach) -> bool {
    forall|i: int|
        0 <= i < s.len() ==> !blocks_spawn(
            #[trigger] s[i],
            spec_spawn_point(dir).0 as int,
            spec_spawn_point(dir).1 as int,
            dir,
        )
}

/// The vehicle a successful spawn request on `dir` with route `route`
/// adds: at the approach's spawn point, with the route's colour and the
/// fixed speed.
pub open spec fn spawned_vehicle(dir: Approach, route: Route) -> Vehicle {
    Vehicle {
        x: spec_spawn_point(dir).0,
        y: spec_spawn_point(dir).1,
        dir,
        route,
        color: spec_color_of(route),
        speed: SPEED,
    }
}

/// Handle one spawn request: admit it exactly when the approach's cooldown
/// has run out and the gatekeeper finds the spawn point clear; on success
/// the new vehicle joins the live set and the cooldown restarts.
pub fn try_spawn(
    vehicles: &mut Vec<Vehicle>,
    cooldowns: &mut Cooldowns,
    dir: Approach,
    route: Route,
) -> (spawned: bool)
    requires
        forall|i: int| 0 <= i < old(vehicles)@.len() ==> (#[trigger] old(vehicles)@[i]).pos_ok(),
    ensures
        spawned <==> (old(cooldowns).get(dir) == 0 && spawn_clear(old(vehicles)@, dir)),
        spawned ==> final(vehicles)@ == old(vehicles)@.push(spawned_vehicle(dir, route)),
        spawned ==> final(cooldowns).get(dir) == SPAWN_COOLDOWN,
        spawned ==> forall|d: Approach|
            d != dir ==> #[trigger] final(cooldowns).get(d) == old(cooldowns).get(d),
        !spawned ==> final(vehicles)@ == old(vehicles)@ && *final(cooldowns) == *old(cooldowns),
{
    let (sx, sy) = spawn_point(dir);
    if cooldowns.ready(dir) && can_spawn_vehicle(vehicles, sx, sy, dir) {
        let v = Vehicle::new(sx, sy, dir, route);
        vehicles.push(v);
        cooldowns.arm(dir);
        true
    } else {
        false
    }
}

/// Advance every live vehicle by one tick under the current lights.
pub fn step_all(vehicles: &mut Vec<Vehicle>, lights: &[TrafficLight])
    requires
        forall|i: int| 0 <= i < old(vehicles)@.len() ==> (#[trigger] old(vehicles)@[i]).wf(),
    ensures
        final(vehicles)@.len() == old(vehicles)@.len(),
        forall|i: int|
            0 <= i < old(vehicles)@.len() ==> final(vehicles)@[i] == (
            #[trigger] old(vehicles)@[i]).step_spec(lights@),
{
    let mut i: usize = 0;
    while i < vehicles.len()
        invariant
            0 <= i <= vehicles@.len(),
            vehicles@.len() == old(vehicles)@.len(),
            forall|j: int| i <= j < vehicles@.len() ==> vehicles@[j] == old(vehicles)@[j],
            forall|j: int| i <= j < vehicles@.len() ==> (#[trigger] vehicles@[j]).wf(),
            forall|j: int|
                0 <= j < i ==> vehicles@[j] == (#[trigger] old(vehicles)@[j]).step_spec(lights@),
        decreases vehicles@.len() - i,
    {
        let mut v = vehicles[i];
        v.step(lights);
        vehicles.set(i, v);
        i = i + 1;
    }
}

/// The subsequence of `s` still on screen, in its original order.
pub open spec fn on_screen_only(s: Seq<Vehicle>) -> Seq<Vehicle>
    decreases s.len(),
{
    if s.len() == 0 {
        Seq::empty()
    } else if s.last().off_screen_spec() {
        on_screen_only(s.drop_last())
    } else {
        on_screen_only(s.drop_last()).push(s.last())
    }
}

/// Drop every vehicle that has left the screen, keeping the rest in order.
pub fn remove_off_screen(vehicles: &mut Vec<Vehicle>)
    ensures
        final(vehicles)@ == on_screen_only(old(vehicles)@),
{
    let mut kept: Vec<Vehicle> = Vec::new();
    let mut i: usize = 0;
    while i < vehicles.len()
        invariant
            0 <= i <= vehicles@.len(),
            vehicles@ == old(vehicles)@,
            kept@ == on_screen_only(vehicles@.subrange(0, i as int)),
        decreases vehicles@.len() - i,
    {
        let v = vehicles[i];
        proof {
            assert(vehicles@.subrange(0, i + 1).drop_last() =~= vehicles@.subrange(0, i as int));
            assert(vehicles@.subrange(0, i + 1).last() == vehicles@[i as int]);
        }
        if !v.is_off_screen() {
            kept.push(v);
        }
        i = i + 1;
    }
    proof {
        assert(vehicles@.subrange(0, vehicles@.len() as int) =~= vehicles@);
    }
    *vehicles = kept;
}

} // verus!
