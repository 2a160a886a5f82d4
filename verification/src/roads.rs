//! Routes through the intersection, the traffic lights, and the controller
//! that grants green to the busiest approach.
use vstd::prelude::*;
use crate::vehicles::{Approach, Vehicle};

verus! {

/// Canvas width in pixels.
pub const SCREEN_W: u32 = 1000;

/// Canvas height in pixels.
pub const SCREEN_H: u32 = 800;

/// Left edge of the intersection box.
pub const IX_MIN: i32 = 425;

/// Right edge of the intersection box.
pub const IX_MAX: i32 = 575;

/// Top edge of the intersection box.
pub const IY_MIN: i32 = 325;

/// Bottom edge of the intersection box.
pub const IY_MAX: i32 = 475;

/// The path a vehicle takes through the intersection.
#[derive(Clone, Copy, PartialEq, Eq, Structural, Debug)]
pub enum Route {
    TurnLeft,
    GoStraight,
    TurnRight,
}

/// State of one traffic light.
#[derive(Clone, Copy, PartialEq, Eq, Structural, Debug)]
pub enum LightState {
    Green,
    Red,
}

/// One traffic light: a fixed screen position (rendering only), a mutable
/// state, and the approach it governs.
#[derive(Clone, Copy, Debug)]
pub struct TrafficLight {
    pub position: (i32, i32),
    pub state: LightState,
    pub approach: Approach,
}

/// The route a uniform draw from {0, 1, 2} selects.
pub open spec fn spec_route_of_index(i: u32) -> Route {
    if i == 0 {
        Route::TurnLeft
    } else if i == 1 {
        Route::GoStraight
    } else {
        Route::TurnRight
    }
}

/// Map a route index to its route: 0 turns left, 1 goes straight, any
/// other value turns right.
pub fn route_of_index(i: u32) -> (r: Route)
    ensures
        r == spec_route_of_index(i),
{
    match i {
        0u32 => Route::TurnLeft,
        1u32 => Route::GoStraight,
        _ => Route::TurnRight,
    }
}

#[verifier::external_type_specification]
#[verifier::external_body]
pub struct ExThreadRng(rand::rngs::ThreadRng);

/// Relies on rand::Rng::gen_range: the drawn value lies in the half-open
/// range it is given, here 0..3.
#[verifier::external_body]
fn draw_route_index(rng: &mut rand::rngs::ThreadRng) -> (r: u32)
    ensures
        r < 3,
{
    rand::Rng::gen_range(rng, 0..3)
}

/// Choose a route uniformly at random for a newly spawned vehicle.
pub fn rand_route(rng: &mut rand::rngs::ThreadRng) -> (r: Route) {
    route_of_index(draw_route_index(rng))
}

/// How many vehicles of `s` travel on approach `dir`.
pub open spec fn count_dir(s: Seq<Vehicle>, dir: Approach) -> nat
    decreases s.len(),
{
    if s.len() == 0 {
        0
    } else {
        count_dir(s.drop_last(), dir) + if s.last().dir == dir {
            1nat
        } else {
            0nat
        }
    }
}

/// The approach the controller grants green: the one with the most live
/// vehicles, ties broken in the canonical order Up, Down, Left, Right.
/// With no vehicles at all, every count is zero and Up wins the tie.
pub open spec fn green_choice(s: Seq<Vehicle>) -> Approach {
    let u = count_dir(s, Approach::Up);
    let d = count_dir(s, Approach::Down);
    let l = count_dir(s, Approach::Left);
    let r = count_dir(s, Approach::Right);
    if u >= d && u >= l && u >= r {
        Approach::Up
    } else if d >= l && d >= r {
        Approach::Down
    } else if l >= r {
        Approach::Left
    } else {
        Approach::Right
    }
}

/// Count the live vehicles per approach and pick the green approach:
/// the first, in canonical order, whose count reaches the maximum.
pub fn select_green(vehicles: &Vec<Vehicle>) -> (r: Approach)
    ensures
        r == green_choice(vehicles@),
{
    let mut u: usize = 0;
    let mut d: usize = 0;
    let mut l: usize = 0;
    let mut r: usize = 0;
    let mut i: usize = 0;
    while i < vehicles.len()
        invariant
            0 <= i <= vehicles@.len(),
            u <= i && d <= i && l <= i && r <= i,
            u as nat == count_dir(vehicles@.subrange(0, i as int), Approach::Up),
            d as nat == count_dir(vehicles@.subrange(0, i as int), Approach::Down),
            l as nat == count_dir(vehicles@.subrange(0, i as int), Approach::Left),
            r as nat == count_dir(vehicles@.subrange(0, i as int), Approach::Right),
        decreases vehicles@.len() - i,
    {
        let v = vehicles[i];
        proof {
            assert(vehicles@.subrange(0, i + 1).drop_last() =~= vehicles@.subrange(0, i as int));
            assert(vehicles@.subrange(0, i + 1).last() == vehicles@[i as int]);
        }
        match v.dir {
            Approach::Up => u = u + 1,
            Approach::Down => d = d + 1,
            Approach::Left => l = l + 1,
            Approach::Right => r = r + 1,
        }
        i = i + 1;
    }
    proof {
        assert(vehicles@.subrange(0, vehicles@.len() as int) =~= vehicles@);
    }
    if u >= d && u >= l && u >= r {
        Approach::Up
    } else if d >= l && d >= r {
        Approach::Down
    } else if l >= r {
        Approach::Left
    } else {
        Approach::Right
    }
}

/// The light `l` with its state set for a tick on which `green` holds the
/// green: green exactly when `l` governs that approach, red otherwise.
pub open spec fn lit_for(l: TrafficLight, green: Approach) -> TrafficLight {
    TrafficLight {
        state: if l.approach == green {
            LightState::Green
        } else {
            LightState::Red
        },
        ..l
    }
}

/// Recompute every light for this tick: the approach `green_choice` picks
/// from the live vehicles is set green, every other approach red.
pub fn update_lights(lights: &mut Vec<TrafficLight>, vehicles: &Vec<Vehicle>)
    ensures
        final(lights)@.len() == old(lights)@.len(),
        forall|i: int|
            0 <= i < old(lights)@.len() ==> final(lights)@[i] == lit_for(
                #[trigger] old(lights)@[i],
                green_choice(vehicles@),
            ),
{
    let green = select_green(vehicles);
    let mut i: usize = 0;
    while i < lights.len()
        invariant
            0 <= i <= lights@.len(),
            lights@.len() == old(lights)@.len(),
            forall|j: int| i <= j < lights@.len() ==> lights@[j] == old(lights)@[j],
            forall|j: int|
                0 <= j < i ==> lights@[j] == lit_for(#[trigger] old(lights)@[j], green),
            green == green_choice(vehicles@),
        decreases lights@.len() - i,
    {
        let l = lights[i];
        let state = if l.approach == green {
            LightState::Green
        } else {
            LightState::Red
        };
        lights.set(i, TrafficLight { position: l.position, state, approach: l.approach });
        i = i + 1;
    }
}

/// The canonical approach at each index of the light array set up at
/// startup: Up, Down, Left, Right.
pub open spec fn approach_at(k: int) -> Approach {
    if k == 0 {
        Approach::Up
    } else if k == 1 {
        Approach::Down
    } else if k == 2 {
        Approach::Left
    } else {
        Approach::Right
    }
}

/// A well-formed light array: four lights, one per approach, in canonical
/// order.
pub open spec fn lights_cover(s: Seq<TrafficLight>) -> bool {
    &&& s.len() == 4
    &&& forall|k: int| 0 <= k < 4 ==> (#[trigger] s[k]).approach == approach_at(k)
}

/// Mutual exclusion of greens: in a well-formed light array whose every
/// light is green exactly when its approach is the chosen one, exactly one
/// light is green and the other three are red.
pub proof fn lemma_exactly_one_green(s: Seq<TrafficLight>, green: Approach)
    requires
        lights_cover(s),
        forall|i: int|
            0 <= i < s.len() ==> (#[trigger] s[i]).state == (if s[i].approach == green {
                LightState::Green
            } else {
                LightState::Red
            }),
    ensures
        exists|i: int|
            0 <= i < s.len() && (#[trigger] s[i]).state == LightState::Green && (forall|j: int|
                0 <= j < s.len() && j != i ==> (#[trigger] s[j]).state == LightState::Red),
{
    let i = match green {
        Approach::Up => 0int,
        Approach::Down => 1int,
        Approach::Left => 2int,
        Approach::Right => 3int,
    };
    assert(s[i].approach == green);
    assert(s[i].state == LightState::Green);
    assert(forall|j: int| 0 <= j < s.len() && j != i ==> (#[trigger] s[j]).state == LightState::Red);
}

} // verus!
