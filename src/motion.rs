//! How the player and the scrolling obstacles move in one tick.
use vstd::prelude::*;
use crate::chance::draw_between;
use crate::geometry::{Body, Point};

verus! {

/// Speed at which the player falls, in pixels per second.
pub const GRAVITY_SPEED: u64 = 150;

/// Speed at which the lift raises the player, in pixels per second.
pub const LIFT_SPEED: u64 = 400;

/// Speed at which the obstacles scroll to the left, in pixels per second.
pub const SCROLL_SPEED: u64 = 200;

/// Longest tick, in microseconds, that one step may cover.
pub const MAX_STEP_MICROS: u64 = 1_000_000_000;

/// Most obstacles that a layout may hold.
pub const MAX_OBSTACLES: usize = 1_000_000;

/// An obstacle whose centre is left of this line is sent back to the right.
pub const RECYCLE_X: i64 = -1_000_000;

/// Where a recycled obstacle reappears.
pub const WRAP_X: i64 = 1_000_000;

/// Where the first obstacle stands after a reset.
pub const RESET_X: i64 = 1_000_000;

/// Distance between neighbouring obstacles in a fresh layout.
pub const OBSTACLE_SPACING: i64 = 300_000;

/// Lowest vertical offset of an obstacle.
pub const OFFSET_LOW: i64 = -100_000;

/// Bound above the vertical offsets of obstacles; never reached.
pub const OFFSET_HIGH: i64 = 100_000;

/// Sub-pixels covered in `micros` microseconds at `speed` pixels per second,
/// rounded down.
pub open spec fn travel(speed: int, micros: int) -> int {
    speed * micros / 1000
}

/// A height that an obstacle may be given.
pub open spec fn is_offset(y: int) -> bool {
    OFFSET_LOW <= y < OFFSET_HIGH
}

/// Exec form of `travel`.
pub fn distance(speed: u64, micros: u64) -> (r: i64)
    requires
        speed <= LIFT_SPEED,
        micros <= MAX_STEP_MICROS,
    ensures
        r == travel(speed as int, micros as int),
        0 <= r <= travel(LIFT_SPEED as int, MAX_STEP_MICROS as int),
{
    proof {
        assert(speed * micros <= LIFT_SPEED * MAX_STEP_MICROS) by (nonlinear_arith)
            requires
                speed <= LIFT_SPEED,
                micros <= MAX_STEP_MICROS,
        ;
        assert(speed * micros / 1000 <= LIFT_SPEED * MAX_STEP_MICROS / 1000) by (nonlinear_arith)
            requires
                speed * micros <= LIFT_SPEED * MAX_STEP_MICROS,
        ;
    }
    ((speed * micros) / 1000) as i64
}

/// Gravity pulls the player down by the distance fallen in `micros`.
pub fn simulated_gravity(player: &mut Body, micros: u64)
    requires
        old(player).wf(),
        micros <= MAX_STEP_MICROS,
    ensures
        *final(player) == (Body {
            center: Point {
                x: old(player).center.x,
                y: (old(player).center.y - travel(GRAVITY_SPEED as int, micros as int)) as i64,
            },
            ..*old(player)
        }),
{
    let d = distance(GRAVITY_SPEED, micros);
    player.center.y = player.center.y - d;
}

/// While the lift is held, the player rises by the distance lifted in `micros`.
pub fn player_movement_system(player: &mut Body, lift_held: bool, micros: u64)
    requires
        old(player).wf(),
        micros <= MAX_STEP_MICROS,
    ensures
        *final(player) == (Body {
            center: Point {
                x: old(player).center.x,
                y: (old(player).center.y + if lift_held {
                    travel(LIFT_SPEED as int, micros as int)
                } else {
                    0
                }) as i64,
            },
            ..*old(player)
        }),
{
    if lift_held {
        let d = distance(LIFT_SPEED, micros);
        player.center.y = player.center.y + d;
    }
}

/// Every body of `bodies` is well formed.
pub open spec fn all_wf(bodies: Seq<Body>) -> bool {
    forall|i: int| 0 <= i < bodies.len() ==> #[trigger] bodies[i].wf()
}

/// `b` moved left by `dx`.
pub open spec fn shifted_left(b: Body, dx: int) -> Body {
    Body { center: Point { x: (b.center.x - dx) as i64, y: b.center.y }, ..b }
}

/// Each obstacle scrolls left by the distance covered in `micros`.
pub fn move_terrain_forward(terrain: &mut Vec<Body>, micros: u64)
    requires
        all_wf(old(terrain)@),
        micros <= MAX_STEP_MICROS,
    ensures
        final(terrain)@.len() == old(terrain)@.len(),
        forall|i: int|
            0 <= i < old(terrain)@.len() ==> final(terrain)@[i] == shifted_left(
                #[trigger] old(terrain)@[i],
                travel(SCROLL_SPEED as int, micros as int),
            ),
{
    let d = distance(SCROLL_SPEED, micros);
    let ghost start = terrain@;
    let n = terrain.len();
    let mut i: usize = 0;
    while i < n
        invariant
            n == start.len(),
            terrain@.len() == n,
            i <= n,
            all_wf(start),
            d == travel(SCROLL_SPEED as int, micros as int),
            0 <= d <= travel(LIFT_SPEED as int, MAX_STEP_MICROS as int),
            forall|j: int| 0 <= j < i ==> terrain@[j] == shifted_left(start[j], d as int),
            forall|j: int| i <= j < n ==> terrain@[j] == start[j],
        decreases n - i,
    {
        let mut b = terrain[i];
        assert(start[i as int].wf());
        b.center.x = b.center.x - d;
        terrain.set(i, b);
        i = i + 1;
    }
}

/// An obstacle past the left line moves to the right edge at height `offset`;
/// any other keeps its place.
pub open spec fn recycled(b: Body, offset: int) -> Body {
    if b.center.x < RECYCLE_X {
        Body { center: Point { x: WRAP_X, y: offset as i64 }, ..b }
    } else {
        b
    }
}

/// Exec form of `recycled`.
pub fn recycle_body(b: &Body, offset: i64) -> (r: Body)
    ensures
        r == recycled(*b, offset as int),
{
    if b.center.x < RECYCLE_X {
        Body { center: Point { x: WRAP_X, y: offset }, ..*b }
    } else {
        *b
    }
}

/// Sends each obstacle past the left line back to the right edge, at a
/// randomly drawn height.
pub fn recycle_terrain(terrain: &mut Vec<Body>)
    ensures
        final(terrain)@.len() == old(terrain)@.len(),
        forall|i: int|
            0 <= i < old(terrain)@.len() ==> {
                let b = #[trigger] old(terrain)@[i];
                let r = final(terrain)@[i];
                if b.center.x < RECYCLE_X {
                    r.center.x == WRAP_X && is_offset(r.center.y as int) && r.width == b.width
                        && r.height == b.height
                } else {
                    r == b
                }
            },
{
    let ghost start = terrain@;
    let n = terrain.len();
    let mut i: usize = 0;
    while i < n
        invariant
            n == start.len(),
            terrain@.len() == n,
            i <= n,
            forall|j: int|
                0 <= j < i ==> {
                    let b = #[trigger] start[j];
                    let r = terrain@[j];
                    if b.center.x < RECYCLE_X {
                        r.center.x == WRAP_X && is_offset(r.center.y as int) && r.width
                            == b.width && r.height == b.height
                    } else {
                        r == b
                    }
                },
            forall|j: int| i <= j < n ==> terrain@[j] == start[j],
        decreases n - i,
    {
        let b = terrain[i];
        if b.center.x < RECYCLE_X {
            let offset = draw_between(OFFSET_LOW, OFFSET_HIGH);
            let r = recycle_body(&b, offset);
            terrain.set(i, r);
        }
        i = i + 1;
    }
}

/// Where the obstacle of index `i` stands in a fresh layout that starts at
/// `first_x`, at height `offset`.
pub open spec fn layout_slot(b: Body, first_x: int, i: int, offset: int) -> Body {
    Body { center: Point { x: (first_x + OBSTACLE_SPACING * i) as i64, y: offset as i64 }, ..b }
}

/// `r` is `b` moved to slot `i` of a layout that starts at `first_x`, at
/// some height that an obstacle may have.
pub open spec fn fresh_slot(b: Body, r: Body, first_x: int, i: int) -> bool {
    &&& r.center.x == first_x + OBSTACLE_SPACING * i
    &&& is_offset(r.center.y as int)
    &&& r.width == b.width
    &&& r.height == b.height
}

/// `after` holds the bodies of `before`, laid out afresh from `first_x`.
pub open spec fn fresh_layout(before: Seq<Body>, after: Seq<Body>, first_x: int) -> bool {
    &&& after.len() == before.len()
    &&& forall|i: int|
        0 <= i < before.len() ==> fresh_slot(#[trigger] before[i], after[i], first_x, i)
}

} // verus!
