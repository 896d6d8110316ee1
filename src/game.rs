//! Layout of a level, collisions, the round's score and the reset that
//! follows a crash.
use vstd::prelude::*;
use crate::chance::draw_between;
use crate::geometry::{collide, overlaps, Body, Point, SPRITE_DIMENSION};
use crate::motion::{
    all_wf, fresh_layout, fresh_slot, is_offset, layout_slot, MAX_OBSTACLES, OBSTACLE_SPACING, OFFSET_HIGH, OFFSET_LOW,
    RESET_X,
};

verus! {

/// Where the player starts each round.
pub const PLAYER_START_X: i64 = -350_000;

pub const PLAYER_START_Y: i64 = 0;

/// Obstacles in a level.
pub const TERRAIN_COUNT: usize = 8;

/// Where the first obstacle of a new level stands.
pub const SPAWN_X: i64 = 400_000;

/// Segments of the roof, and of the floor.
pub const BOUNDARY_SEGMENTS: usize = 15;

/// The first roof and floor segments stand one step right of this line.
pub const BOUNDARY_START_X: i64 = -450_000;

/// Distance between neighbouring roof or floor segments.
pub const BOUNDARY_STEP: i64 = 64_000;

/// Height of the roof above the middle line, and depth of the floor below it.
pub const BOUNDARY_DISTANCE: i64 = 200_000;

/// Whether the run plays on or must lay out its obstacles anew.
#[derive(PartialEq, Eq, Structural, Clone, Copy, Debug)]
pub enum RunState {
    Running,
    ResetTerrain,
}

/// The score of the current round and the second at which it began.
#[derive(PartialEq, Eq, Structural, Clone, Copy, Debug)]
pub struct Scoreboard {
    pub score: usize,
    pub seconds_since_round_start: usize,
}

/// Where the player's centre stands when a round begins.
pub open spec fn player_start() -> Point {
    Point { x: PLAYER_START_X, y: PLAYER_START_Y }
}

/// The player's body at the start of a level.
pub fn player_spawn() -> (r: Body)
    ensures
        r == Body::sprite(player_start()),
        r.wf(),
{
    Body::sprite_at(Point { x: PLAYER_START_X, y: PLAYER_START_Y })
}

/// The obstacles of a new level, obstacle `i` at height `offsets[i]`.
pub fn spawn_terrain_with(offsets: &Vec<i64>) -> (r: Vec<Body>)
    requires
        offsets@.len() <= MAX_OBSTACLES,
    ensures
        r@.len() == offsets@.len(),
        forall|i: int|
            0 <= i < r@.len() ==> #[trigger] r@[i] == layout_slot(
                Body::sprite(Point { x: 0, y: 0 }),
                SPAWN_X as int,
                i,
                offsets@[i] as int,
            ),
{
    let mut r: Vec<Body> = Vec::new();
    let n = offsets.len();
    let mut i: usize = 0;
    let mut x: i64 = SPAWN_X;
    while i < n
        invariant
            n == offsets@.len(),
            n <= MAX_OBSTACLES,
            i <= n,
            i < n ==> x == SPAWN_X + OBSTACLE_SPACING * i,
            r@.len() == i,
            forall|j: int|
                0 <= j < i ==> #[trigger] r@[j] == layout_slot(
                    Body::sprite(Point { x: 0, y: 0 }),
                    SPAWN_X as int,
                    j,
                    offsets@[j] as int,
                ),
        decreases n - i,
    {
        r.push(Body::sprite_at(Point { x, y: offsets[i] }));
        i = i + 1;
        if i < n {
            x = x + OBSTACLE_SPACING;
        }
    }
    r
}

/// The obstacles of a new level, each at a randomly drawn height.
pub fn spawn_terrain() -> (r: Vec<Body>)
    ensures
        r@.len() == TERRAIN_COUNT,
        all_wf(r@),
        forall|i: int|
            0 <= i < r@.len() ==> {
                &&& (#[trigger] r@[i]).center.x == SPAWN_X + OBSTACLE_SPACING * i
                &&& is_offset(r@[i].center.y as int)
                &&& r@[i].width == SPRITE_DIMENSION
                &&& r@[i].height == SPRITE_DIMENSION
            },
{
    let offsets = draw_offsets(TERRAIN_COUNT);
    let r = spawn_terrain_with(&offsets);
    proof {
        assert forall|i: int| 0 <= i < r@.len() implies (#[trigger] r@[i]).center.x == SPAWN_X
            + OBSTACLE_SPACING * i by {
            lemma_slot_fits(i);
        }
    }
    r
}

proof fn lemma_slot_fits(i: int)
    requires
        0 <= i <= MAX_OBSTACLES,
    ensures
        0 <= OBSTACLE_SPACING * i <= OBSTACLE_SPACING * MAX_OBSTACLES,
{
    assert(0 <= OBSTACLE_SPACING * i <= OBSTACLE_SPACING * MAX_OBSTACLES) by (nonlinear_arith)
        requires
            0 <= i <= MAX_OBSTACLES,
    ;
}

/// `n` randomly drawn heights.
fn draw_offsets(n: usize) -> (r: Vec<i64>)
    ensures
        r@.len() == n,
        forall|i: int| 0 <= i < n ==> is_offset(#[trigger] r@[i] as int),
{
    let mut r: Vec<i64> = Vec::new();
    let mut i: usize = 0;
    while i < n
        invariant
            i <= n,
            r@.len() == i,
            forall|j: int| 0 <= j < i ==> is_offset(#[trigger] r@[j] as int),
        decreases n - i,
    {
        r.push(draw_between(OFFSET_LOW, OFFSET_HIGH));
        i = i + 1;
    }
    r
}

/// Segment `j` of the boundary: the even ones form the roof, the odd ones the
/// floor, one pair per step from the left.
pub open spec fn boundary_slot(j: int) -> Body {
    Body::sprite(
        Point {
            x: (BOUNDARY_START_X + BOUNDARY_STEP * (j / 2 + 1)) as i64,
            y: if j % 2 == 0 {
                BOUNDARY_DISTANCE
            } else {
                (-BOUNDARY_DISTANCE) as i64
            },
        },
    )
}

/// The roof and the floor that close the level, neither of which moves.
pub fn boundary_layout() -> (r: Vec<Body>)
    ensures
        r@.len() == 2 * BOUNDARY_SEGMENTS,
        forall|j: int| 0 <= j < r@.len() ==> #[trigger] r@[j] == boundary_slot(j),
{
    let mut r: Vec<Body> = Vec::new();
    let mut k: usize = 0;
    let mut x: i64 = BOUNDARY_START_X;
    while k < BOUNDARY_SEGMENTS
        invariant
            k <= BOUNDARY_SEGMENTS,
            x == BOUNDARY_START_X + BOUNDARY_STEP * k,
            r@.len() == 2 * k,
            forall|j: int| 0 <= j < r@.len() ==> #[trigger] r@[j] == boundary_slot(j),
        decreases BOUNDARY_SEGMENTS - k,
    {
        x = x + BOUNDARY_STEP;
        r.push(Body::sprite_at(Point { x, y: BOUNDARY_DISTANCE }));
        r.push(Body::sprite_at(Point { x, y: -BOUNDARY_DISTANCE }));
        k = k + 1;
    }
    r
}

/// Some body of `colliders` overlaps `player`.
pub open spec fn hits_any(player: Body, colliders: Seq<Body>) -> bool {
    exists|i: int| 0 <= i < colliders.len() && overlaps(player, #[trigger] colliders[i])
}

/// Whether the player overlaps any collider.
pub fn check_collisions(player: &Body, colliders: &Vec<Body>) -> (r: bool)
    requires
        player.wf(),
        all_wf(colliders@),
    ensures
        r == hits_any(*player, colliders@),
{
    let n = colliders.len();
    let mut i: usize = 0;
    while i < n
        invariant
            n == colliders@.len(),
            i <= n,
            player.wf(),
            all_wf(colliders@),
            forall|j: int| 0 <= j < i ==> !overlaps(*player, #[trigger] colliders@[j]),
        decreases n - i,
    {
        if collide(player, &colliders[i]) {
            return true;
        }
        i = i + 1;
    }
    false
}

impl Scoreboard {
    /// A board at the start of the first round.
    pub fn new() -> (r: Scoreboard)
        ensures
            r.score == 0,
            r.seconds_since_round_start == 0,
    {
        Scoreboard { score: 0, seconds_since_round_start: 0 }
    }

    /// The score becomes the whole seconds since the round began.
    pub fn update_scoreboard(&mut self, elapsed_seconds: usize)
        requires
            elapsed_seconds >= old(self).seconds_since_round_start,
        ensures
            final(self).score == elapsed_seconds - old(self).seconds_since_round_start,
            final(self).seconds_since_round_start == old(self).seconds_since_round_start,
    {
        self.score = elapsed_seconds - self.seconds_since_round_start;
    }

    /// The score in decimal digits.
    pub fn render_score(&self) -> (r: String)
        ensures
            r@ == decimal(self.score as nat),
    {
        decimal_string(self.score)
    }
}

pub open spec fn digit(d: nat) -> char {
    seq!['0', '1', '2', '3', '4', '5', '6', '7', '8', '9'][d as int]
}

/// The decimal digits of `n`, without sign or leading zeros.
pub open spec fn decimal(n: nat) -> Seq<char>
    decreases n,
{
    if n < 10 {
        seq![digit(n)]
    } else {
        decimal(n / 10).push(digit(n % 10))
    }
}

/// Relies on std's `ToString` for `usize`, which writes the number in decimal
/// digits with no sign and no leading zeros.
#[verifier::external_body]
fn decimal_string(n: usize) -> (r: String)
    ensures
        r@ == decimal(n as nat),
{
    n.to_string()
}

/// After a crash the round starts over: the score drops to zero, the round
/// begins at `elapsed_seconds`, the player returns to the start and the
/// obstacles are marked for a new layout. Without a crash nothing changes.
pub fn on_player_collision(
    collided: bool,
    elapsed_seconds: usize,
    player: &mut Body,
    scoreboard: &mut Scoreboard,
    state: &mut RunState,
)
    ensures
        collided ==> {
            &&& final(scoreboard).score == 0
            &&& final(scoreboard).seconds_since_round_start == elapsed_seconds
            &&& *final(player) == (Body { center: player_start(), ..*old(player) })
            &&& *final(state) == RunState::ResetTerrain
        },
        !collided ==> {
            &&& *final(scoreboard) == *old(scoreboard)
            &&& *final(player) == *old(player)
            &&& *final(state) == *old(state)
        },
{
    if collided {
        scoreboard.score = 0;
        scoreboard.seconds_since_round_start = elapsed_seconds;
        player.center = Point { x: PLAYER_START_X, y: PLAYER_START_Y };
        *state = RunState::ResetTerrain;
    }
}

/// When a reset is due, obstacle `i` moves to its slot of a fresh layout
/// ahead of the player, at height `offsets[i]`, and the run goes on.
/// Otherwise nothing changes.
pub fn reset_terrain_with(terrain: &mut Vec<Body>, state: &mut RunState, offsets: &Vec<i64>)
    requires
        old(terrain)@.len() <= MAX_OBSTACLES,
        offsets@.len() == old(terrain)@.len(),
    ensures
        *old(state) == RunState::ResetTerrain ==> {
            &&& *final(state) == RunState::Running
            &&& final(terrain)@.len() == old(terrain)@.len()
            &&& forall|i: int|
                0 <= i < old(terrain)@.len() ==> final(terrain)@[i] == layout_slot(
                    #[trigger] old(terrain)@[i],
                    RESET_X as int,
                    i,
                    offsets@[i] as int,
                )
        },
        *old(state) == RunState::Running ==> {
            &&& *final(state) == RunState::Running
            &&& final(terrain)@ == old(terrain)@
        },
{
    if *state == RunState::ResetTerrain {
        let ghost start = terrain@;
        let n = terrain.len();
        let mut i: usize = 0;
        let mut x: i64 = RESET_X;
        while i < n
            invariant
                n == start.len(),
                n <= MAX_OBSTACLES,
                offsets@.len() == n,
                terrain@.len() == n,
                i <= n,
                i < n ==> x == RESET_X + OBSTACLE_SPACING * i,
                forall|j: int|
                    0 <= j < i ==> terrain@[j] == layout_slot(
                        #[trigger] start[j],
                        RESET_X as int,
                        j,
                        offsets@[j] as int,
                    ),
                forall|j: int| i <= j < n ==> terrain@[j] == start[j],
            decreases n - i,
        {
            let b = terrain[i];
            terrain.set(i, Body { center: Point { x, y: offsets[i] }, ..b });
            i = i + 1;
            if i < n {
                x = x + OBSTACLE_SPACING;
            }
        }
        *state = RunState::Running;
    }
}

/// When a reset is due, each obstacle moves to its slot of a fresh layout
/// ahead of the player, at a randomly drawn height, and the run goes on.
/// Otherwise nothing changes.
pub fn reset_terrain(terrain: &mut Vec<Body>, state: &mut RunState)
    requires
        old(terrain)@.len() <= MAX_OBSTACLES,
    ensures
        *old(state) == RunState::ResetTerrain ==> {
            &&& *final(state) == RunState::Running
            &&& fresh_layout(old(terrain)@, final(terrain)@, RESET_X as int)
        },
        *old(state) == RunState::Running ==> {
            &&& *final(state) == RunState::Running
            &&& final(terrain)@ == old(terrain)@
        },
{
    if *state == RunState::ResetTerrain {
        let offsets = draw_offsets(terrain.len());
        reset_terrain_with(terrain, state, &offsets);
        proof {
            assert forall|i: int| 0 <= i < old(terrain)@.len() implies fresh_slot(
                #[trigger] old(terrain)@[i],
                terrain@[i],
                RESET_X as int,
                i,
            ) by {
                lemma_slot_fits(i);
                assert(terrain@[i] == layout_slot(
                    old(terrain)@[i],
                    RESET_X as int,
                    i,
                    offsets@[i] as int,
                ));
            }
        }
    }
}

/// A round that restarts after a reset starts clear: once the obstacles are
/// laid out afresh, none of sprite width or narrower overlaps the player's
/// box at the starting point.
pub proof fn lemma_reset_clears_start(before: Seq<Body>, after: Seq<Body>)
    requires
        fresh_layout(before, after, RESET_X as int),
        forall|i: int| 0 <= i < before.len() ==> (#[trigger] before[i]).width <= SPRITE_DIMENSION,
    ensures
        !hits_any(Body::sprite(player_start()), after),
{
    assert forall|i: int| 0 <= i < after.len() implies !overlaps(
        Body::sprite(player_start()),
        #[trigger] after[i],
    ) by {
        assert(fresh_slot(before[i], after[i], RESET_X as int, i));
        assert(0 <= OBSTACLE_SPACING * i) by (nonlinear_arith)
            requires
                0 <= i,
        ;
    }
}

} // verus!
