//! The session controller: game lifecycle, collision and feeding detection,
//! food placement, and the per-tick pipeline.

use vstd::prelude::*;

use crate::grid::{Coord, Direction};
use crate::rng::random_in_range;
use crate::snake::{spec_advance_positions, Snake};
use crate::visual::VisualAlloc;

verus! {

/// The session lifecycle.  Simulation runs only in `Playing`; a
/// self-collision moves the session to `GameOver`, and only an explicit
/// replay (the reset procedure) brings it back.
#[derive(Clone, Copy, PartialEq, Eq, Structural, Debug, Hash)]
pub enum GameState {
    Playing,
    GameOver,
}

/// The single consumable cell.  `visual` is `None` only during the placement
/// window, between releasing an eaten food and placing the next one.
#[derive(Clone, Copy, Debug)]
pub struct Food {
    pub pos: Coord,
    pub visual: Option<u64>,
}

impl Default for Food {
    /// Before the first placement: the origin, with no visual yet.
    fn default() -> (f: Food)
        ensures
            f.pos == (Coord { x: 0, y: 0 }),
            f.visual is None,
    {
        Food { pos: Coord { x: 0, y: 0 }, visual: None }
    }
}

/// The transient per-tick signals: each is raised at most once per tick and
/// consumed within the same tick.
#[derive(Clone, Copy, PartialEq, Eq, Structural, Debug)]
pub struct TickEvents {
    pub collision: bool,
    pub eat: bool,
}

/// Whether some two distinct segments of the chain share a position.
pub open spec fn spec_has_self_collision(p: Seq<Coord>) -> bool {
    exists|i: int, j: int|
        0 <= i < p.len() && 0 <= j < p.len() && i != j && (#[trigger] p[i]) == (#[trigger] p[j])
}

/// Whether some segment of the chain sits on the food cell.
pub open spec fn spec_eats(p: Seq<Coord>, food_pos: Coord) -> bool {
    exists|i: int| 0 <= i < p.len() && (#[trigger] p[i]) == food_pos
}

/// The food placement rule: the candidate shares neither its x nor its y
/// coordinate with any segment of the chain — strictly more than "not on the
/// snake", and preserved here deliberately.
pub open spec fn spec_placement_ok(p: Seq<Coord>, c: Coord) -> bool {
    forall|i: int| 0 <= i < p.len() ==> (#[trigger] p[i]).x != c.x && p[i].y != c.y
}

/// Whether no segment of the chain has x-coordinate `v`.
pub open spec fn spec_x_free(p: Seq<Coord>, v: int) -> bool {
    forall|i: int| 0 <= i < p.len() ==> (#[trigger] p[i]).x != v
}

/// Whether no segment of the chain has y-coordinate `v`.
pub open spec fn spec_y_free(p: Seq<Coord>, v: int) -> bool {
    forall|i: int| 0 <= i < p.len() ==> (#[trigger] p[i]).y != v
}

/// Whether the placement rule can be satisfied at all: some x in the
/// sampling range is free of the chain, and some y likewise.  Since the rule
/// checks the axes independently, a cell satisfying it exists exactly when
/// both axes have a free value.
pub open spec fn spec_can_place(p: Seq<Coord>, half_width: i32, half_height: i32) -> bool {
    &&& exists|x: int| -half_width <= x < half_width && #[trigger] spec_x_free(p, x)
    &&& exists|y: int| -half_height <= y < half_height && #[trigger] spec_y_free(p, y)
}

/// Collision detection symmetry: the collision verdict holds exactly when
/// some unordered pair of distinct segments coincides, so which duplicate
/// pair a scan meets first cannot change it.
pub proof fn lemma_collision_symmetric(p: Seq<Coord>)
    ensures
        spec_has_self_collision(p) <==> exists|i: int, j: int|
            0 <= i < j < p.len() && (#[trigger] p[i]) == (#[trigger] p[j]),
{
    if spec_has_self_collision(p) {
        let (i, j) = choose|i: int, j: int|
            0 <= i < p.len() && 0 <= j < p.len() && i != j && (#[trigger] p[i]) == (
            #[trigger] p[j]);
        if i < j {
            assert(0 <= i < j < p.len() && p[i] == p[j]);
        } else {
            assert(0 <= j < i < p.len() && p[j] == p[i]);
        }
    }
    if exists|i: int, j: int| 0 <= i < j < p.len() && (#[trigger] p[i]) == (#[trigger] p[j]) {
        let (i, j) = choose|i: int, j: int|
            0 <= i < j < p.len() && (#[trigger] p[i]) == (#[trigger] p[j]);
        assert(0 <= i < p.len() && 0 <= j < p.len() && i != j && p[i] == p[j]);
    }
}

/// Scans every ordered pair of distinct segments for a shared position; the
/// verdict is a single boolean signal per tick.
pub fn check_collision(snake: &Snake) -> (r: bool)
    ensures
        r == spec_has_self_collision(snake.positions()),
{
    let ghost p = snake.positions();
    let n = snake.segments.len();
    let mut i: usize = 0;
    while i < n
        invariant
            i <= n,
            n == snake.segments@.len(),
            p == snake.positions(),
            forall|a: int, b: int| 0 <= a < i && 0 <= b < n && a != b ==> p[a] != p[b],
        decreases n - i,
    {
        let mut j: usize = 0;
        while j < n
            invariant
                i < n,
                j <= n,
                n == snake.segments@.len(),
                p == snake.positions(),
                forall|b: int| 0 <= b < j && b != i ==> p[i as int] != p[b],
            decreases n - j,
        {
            if j != i {
                if snake.segments[i].pos == snake.segments[j].pos {
                    proof {
                        assert(p[i as int] == p[j as int] && i != j);
                    }
                    return true;
                }
            }
            j = j + 1;
        }
        i = i + 1;
    }
    false
}

/// The x-values in `lo..hi` that no segment of the chain occupies, in
/// ascending order; empty exactly when the chain blocks every x in the range.
pub fn free_x_values(snake: &Snake, lo: i32, hi: i32) -> (r: Vec<i32>)
    requires
        lo <= hi,
    ensures
        r@.len() <= hi - lo,
        forall|k: int|
            0 <= k < r@.len() ==> lo <= #[trigger] r@[k] < hi && spec_x_free(
                snake.positions(),
                r@[k] as int,
            ),
        r@.len() == 0 ==> forall|v: int| lo <= v < hi ==> !spec_x_free(snake.positions(), v),
{
    let ghost p = snake.positions();
    let n = snake.segments.len();
    let mut r: Vec<i32> = Vec::new();
    let mut v = lo;
    while v < hi
        invariant
            lo <= v <= hi,
            n == snake.segments@.len(),
            p == snake.positions(),
            r@.len() <= v - lo,
            forall|k: int| 0 <= k < r@.len() ==> lo <= #[trigger] r@[k] < hi && spec_x_free(p, r@[k] as int),
            r@.len() == 0 ==> forall|u: int| lo <= u < v ==> !spec_x_free(p, u),
        decreases hi - v,
    {
        let mut hit = false;
        let mut i: usize = 0;
        while i < n
            invariant
                i <= n,
                n == snake.segments@.len(),
                p == snake.positions(),
                !hit ==> forall|j: int| 0 <= j < i ==> (#[trigger] p[j]).x != v,
                hit ==> !spec_x_free(p, v as int),
            decreases n - i,
        {
            if snake.segments[i].pos.x == v {
                proof {
                    assert(p[i as int].x == v);
                }
                hit = true;
            }
            i = i + 1;
        }
        if !hit {
            r.push(v);
        }
        v = v + 1;
    }
    r
}

/// The y-values in `lo..hi` that no segment of the chain occupies, in
/// ascending order; empty exactly when the chain blocks every y in the range.
pub fn free_y_values(snake: &Snake, lo: i32, hi: i32) -> (r: Vec<i32>)
    requires
        lo <= hi,
    ensures
        r@.len() <= hi - lo,
        forall|k: int|
            0 <= k < r@.len() ==> lo <= #[trigger] r@[k] < hi && spec_y_free(
                snake.positions(),
                r@[k] as int,
            ),
        r@.len() == 0 ==> forall|v: int| lo <= v < hi ==> !spec_y_free(snake.positions(), v),
{
    let ghost p = snake.positions();
    let n = snake.segments.len();
    let mut r: Vec<i32> = Vec::new();
    let mut v = lo;
    while v < hi
        invariant
            lo <= v <= hi,
            n == snake.segments@.len(),
            p == snake.positions(),
            r@.len() <= v - lo,
            forall|k: int| 0 <= k < r@.len() ==> lo <= #[trigger] r@[k] < hi && spec_y_free(p, r@[k] as int),
            r@.len() == 0 ==> forall|u: int| lo <= u < v ==> !spec_y_free(p, u),
        decreases hi - v,
    {
        let mut hit = false;
        let mut i: usize = 0;
        while i < n
            invariant
                i <= n,
                n == snake.segments@.len(),
                p == snake.positions(),
                !hit ==> forall|j: int| 0 <= j < i ==> (#[trigger] p[j]).y != v,
                hit ==> !spec_y_free(p, v as int),
            decreases n - i,
        {
            if snake.segments[i].pos.y == v {
                proof {
                    assert(p[i as int].y == v);
                }
                hit = true;
            }
            i = i + 1;
        }
        if !hit {
            r.push(v);
        }
        v = v + 1;
    }
    r
}

/// Feeding detection: does any segment sit on the food cell?
pub fn check_eat(snake: &Snake, food: &Food) -> (r: bool)
    ensures
        r == spec_eats(snake.positions(), food.pos),
{
    let ghost p = snake.positions();
    let n = snake.segments.len();
    let mut i: usize = 0;
    while i < n
        invariant
            i <= n,
            n == snake.segments@.len(),
            p == snake.positions(),
            forall|a: int| 0 <= a < i ==> p[a] != food.pos,
        decreases n - i,
    {
        if snake.segments[i].pos.x == food.pos.x && snake.segments[i].pos.y == food.pos.y {
            proof {
                assert(p[i as int] == food.pos);
            }
            return true;
        }
        i = i + 1;
    }
    false
}

/// One session of the game: lifecycle state, the snake, the food cell, the
/// visual-token allocator, and the grid's half-extents.
#[derive(Debug)]
pub struct Session {
    pub state: GameState,
    pub snake: Snake,
    pub food: Food,
    pub alloc: VisualAlloc,
    pub half_width: i32,
    pub half_height: i32,
}

impl Session {
    /// The grid is at least one cell wide on each side of the origin, and
    /// small enough that a full axis of cells can be counted in an i32.
    pub open spec fn dims_wf(self) -> bool {
        &&& 1 <= self.half_width <= 0x3fffffff
        &&& 1 <= self.half_height <= 0x3fffffff
    }

    /// Every live visual token was allocated below `alloc.next`, and no token
    /// is carried twice — so no release can hit a token twice.
    pub open spec fn handles_wf(self) -> bool {
        &&& self.snake.visuals_wf(self.alloc.next)
        &&& match self.food.visual {
            Some(h) => h < self.alloc.next && forall|i: int|
                0 <= i < self.snake.segments@.len() ==> (#[trigger] self.snake.segments@[i].visual)
                    != h,
            None => true,
        }
    }

    /// Session well-formedness: sane dimensions, a well-formed snake, and
    /// sound visual-token bookkeeping.
    pub open spec fn wf(self) -> bool {
        &&& self.dims_wf()
        &&& self.snake.wf(self.half_width, self.half_height)
        &&& self.handles_wf()
    }

    /// A fresh session on a grid with the given half-extents: Playing, a
    /// one-segment snake at the origin heading up, and food freshly placed.
    pub fn new(half_width: i32, half_height: i32) -> (s: Session)
        requires
            1 <= half_width <= 0x3fffffff,
            1 <= half_height <= 0x3fffffff,
        ensures
            s.wf(),
            s.state == GameState::Playing,
            s.half_width == half_width,
            s.half_height == half_height,
            s.snake.segments@.len() == 1,
            s.snake.segments@[0].pos == (Coord { x: 0, y: 0 }),
            s.snake.direction == Direction::Up,
            s.snake.pending_growth == false,
            s.food.visual is Some,
            spec_placement_ok(s.snake.positions(), s.food.pos),
            -half_width <= s.food.pos.x < half_width,
            -half_height <= s.food.pos.y < half_height,
            s.alloc.next == 2,
    {
        let mut s = Session {
            state: GameState::Playing,
            snake: Snake {
                direction: Direction::Up,
                segments: Vec::new(),
                pending_growth: false,
            },
            food: Food::default(),
            alloc: VisualAlloc::new(),
            half_width,
            half_height,
        };
        s.reset();
        s
    }

    /// The reset procedure: clears the food and every segment (their visuals
    /// are abandoned for the collaborator to release), reinitialises the
    /// snake, and places fresh food.  It runs at first session start and on
    /// re-entering Playing from GameOver, from any prior state.
    pub fn reset(&mut self)
        requires
            old(self).dims_wf(),
            old(self).alloc.next < u64::MAX - 1,
        ensures
            final(self).wf(),
            final(self).state == GameState::Playing,
            final(self).snake.segments@.len() == 1,
            final(self).snake.segments@[0].pos == (Coord { x: 0, y: 0 }),
            final(self).snake.direction == Direction::Up,
            final(self).snake.pending_growth == false,
            final(self).food.visual is Some,
            spec_placement_ok(final(self).snake.positions(), final(self).food.pos),
            -old(self).half_width <= final(self).food.pos.x < old(self).half_width,
            -old(self).half_height <= final(self).food.pos.y < old(self).half_height,
            final(self).half_width == old(self).half_width,
            final(self).half_height == old(self).half_height,
            final(self).alloc.next == old(self).alloc.next + 2,
    {
        self.food = Food { pos: Coord { x: 0, y: 0 }, visual: None };
        let snake = Snake::initialize(&mut self.alloc);
        self.snake = snake;
        self.state = GameState::Playing;
        proof {
            // A one-segment snake at the origin blocks only x == 0 and
            // y == 0, so -1 is free on both axes.
            let p = self.snake.positions();
            assert(spec_x_free(p, -1));
            assert(spec_y_free(p, -1));
            assert(spec_can_place(p, self.half_width, self.half_height));
        }
        let placed = self.place_food();
        proof {
            assert(placed);
        }
    }

    /// Input edge: overwrites the snake's heading with the most recent
    /// directional input; the last write before a tick's advance wins.
    pub fn set_direction(&mut self, d: Direction)
        ensures
            final(self).snake.direction == d,
            final(self).snake.segments == old(self).snake.segments,
            final(self).snake.pending_growth == old(self).snake.pending_growth,
            final(self).state == old(self).state,
            final(self).food == old(self).food,
            final(self).alloc == old(self).alloc,
            final(self).half_width == old(self).half_width,
            final(self).half_height == old(self).half_height,
            old(self).wf() ==> final(self).wf(),
    {
        self.snake.set_direction(d);
    }

    /// Food placement: draws a uniformly random cell among those the
    /// placement rule admits — the rule checks the axes independently, so a
    /// free x and a free y are drawn from the x-values and y-values in range
    /// that no segment occupies — and sets the food there with a fresh visual
    /// token.  Placement succeeds exactly when some cell satisfies the rule;
    /// when the chain blocks a whole axis, the session is left untouched.
    pub fn place_food(&mut self) -> (placed: bool)
        requires
            old(self).wf(),
            old(self).food.visual is None,
            old(self).alloc.next < u64::MAX,
        ensures
            final(self).wf(),
            final(self).state == old(self).state,
            final(self).snake == old(self).snake,
            final(self).half_width == old(self).half_width,
            final(self).half_height == old(self).half_height,
            placed <==> spec_can_place(
                old(self).snake.positions(),
                old(self).half_width,
                old(self).half_height,
            ),
            placed ==> ({
                &&& final(self).alloc.next == old(self).alloc.next + 1
                &&& final(self).food.visual == Some(old(self).alloc.next)
                &&& spec_placement_ok(final(self).snake.positions(), final(self).food.pos)
                &&& -old(self).half_width <= final(self).food.pos.x < old(self).half_width
                &&& -old(self).half_height <= final(self).food.pos.y < old(self).half_height
            }),
            !placed ==> *final(self) == *old(self),
    {
        let ghost p = self.snake.positions();
        let xs = free_x_values(&self.snake, -self.half_width, self.half_width);
        let ys = free_y_values(&self.snake, -self.half_height, self.half_height);
        if xs.len() == 0 || ys.len() == 0 {
            return false;
        }
        let xi = random_in_range(0, xs.len() as i32);
        let yi = random_in_range(0, ys.len() as i32);
        let x = xs[xi as usize];
        let y = ys[yi as usize];
        let cand = Coord { x, y };
        proof {
            assert(spec_x_free(p, x as int) && spec_y_free(p, y as int));
            assert forall|i: int| 0 <= i < p.len() implies (#[trigger] p[i]).x != cand.x
                && p[i].y != cand.y by {
                assert(p[i].x != x as int);
                assert(p[i].y != y as int);
            }
            assert(spec_can_place(p, self.half_width, self.half_height));
        }
        let h = self.alloc.fresh();
        self.food = Food { pos: cand, visual: Some(h) };
        true
    }

    /// One tick of the session pipeline: advance the snake, detect collision
    /// and feeding on the advanced chain independently, apply the collision
    /// transition (Playing to GameOver), then apply feeding (release the
    /// eaten food's visual, request growth, place new food).  Growth is still
    /// requested on a tick that also ends the game, since detection is
    /// independent and the transition is applied first.  Outside Playing the
    /// tick does nothing.
    pub fn tick(&mut self) -> (ev: TickEvents)
        requires
            old(self).wf(),
            old(self).state == GameState::Playing ==> old(self).food.visual is Some,
            old(self).alloc.next < u64::MAX - 1,
            old(self).snake.segments@.len() < usize::MAX,
        ensures
            final(self).wf(),
            final(self).half_width == old(self).half_width,
            final(self).half_height == old(self).half_height,
            old(self).alloc.next <= final(self).alloc.next <= old(self).alloc.next + 2,
            old(self).state != GameState::Playing ==> *final(self) == *old(self) && ev == (
            TickEvents { collision: false, eat: false }),
            old(self).state == GameState::Playing ==> ({
                let advanced = spec_advance_positions(
                    old(self).snake.positions(),
                    old(self).snake.direction,
                    old(self).half_width,
                    old(self).half_height,
                    old(self).snake.pending_growth,
                );
                &&& final(self).snake.positions() == advanced
                &&& final(self).snake.direction == old(self).snake.direction
                &&& ev.collision == spec_has_self_collision(advanced)
                &&& ev.eat == spec_eats(advanced, old(self).food.pos)
                &&& final(self).state == (if ev.collision {
                    GameState::GameOver
                } else {
                    GameState::Playing
                })
                &&& final(self).snake.pending_growth == ev.eat
                &&& (ev.eat && spec_can_place(advanced, old(self).half_width, old(self).half_height)
                    ==> final(self).food.visual is Some && spec_placement_ok(
                    final(self).snake.positions(),
                    final(self).food.pos,
                ) && -old(self).half_width <= final(self).food.pos.x < old(self).half_width
                    && -old(self).half_height <= final(self).food.pos.y < old(self).half_height)
                &&& (ev.eat && !spec_can_place(advanced, old(self).half_width, old(self).half_height)
                    ==> final(self).food.visual is None)
                &&& (!ev.eat ==> final(self).food == old(self).food)
            }),
    {
        if self.state != GameState::Playing {
            return TickEvents { collision: false, eat: false };
        }
        self.snake.advance(self.half_width, self.half_height, &mut self.alloc);
        let collision = check_collision(&self.snake);
        let eat = check_eat(&self.snake, &self.food);
        if collision {
            self.state = GameState::GameOver;
        }
        if eat {
            self.food.visual = None;
            self.snake.request_growth();
            let _placed = self.place_food();
        }
        TickEvents { collision, eat }
    }
}

} // verus!
