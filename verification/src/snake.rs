//! The snake state machine: the ordered segment chain, its per-tick advance,
//! and growth management.

use vstd::prelude::*;

use crate::grid::{in_bounds, spec_step, step, Coord, Direction};
use crate::visual::VisualAlloc;

verus! {

/// One cell of the snake's body, paired with the opaque token of the visual
/// that renders it.  The head is element 0 of the chain.
#[derive(Clone, Copy, PartialEq, Eq, Structural, Debug)]
pub struct Segment {
    pub pos: Coord,
    pub visual: u64,
}

/// The snake: its heading, its segment chain (head first), and the
/// pending-growth flag, set by feeding and consumed by the next advance.
#[derive(Debug)]
pub struct Snake {
    pub direction: Direction,
    pub segments: Vec<Segment>,
    pub pending_growth: bool,
}

/// The chain of positions after one advance: the head steps along `d`, every
/// trailing segment takes the position its predecessor held before the tick,
/// and, when growth was pending, one segment is appended at the cell the old
/// tail vacated.
pub open spec fn spec_advance_positions(
    p: Seq<Coord>,
    d: Direction,
    half_width: i32,
    half_height: i32,
    grow: bool,
) -> Seq<Coord> {
    let shifted = Seq::new(
        p.len(),
        |i: int| if i == 0 { spec_step(p[0], d, half_width, half_height) } else { p[i - 1] },
    );
    if grow {
        shifted.push(p.last())
    } else {
        shifted
    }
}

/// `s` with growth requested and everything else untouched.
pub open spec fn spec_request_growth(s: Snake) -> Snake {
    Snake { pending_growth: true, ..s }
}

/// Chain-follow invariant: after an advance, every trailing segment — the
/// appended one included, when growth was pending — holds the position its
/// predecessor held before the tick.
pub proof fn lemma_chain_follow(
    p: Seq<Coord>,
    d: Direction,
    half_width: i32,
    half_height: i32,
    grow: bool,
)
    requires
        p.len() >= 1,
    ensures
        forall|i: int|
            1 <= i < spec_advance_positions(p, d, half_width, half_height, grow).len()
                ==> spec_advance_positions(p, d, half_width, half_height, grow)[i] == p[i - 1],
{
}

/// Growth idempotence: requesting growth is flag-setting, so requesting it
/// again before the next advance changes nothing further, and the one advance
/// that consumes the flag appends exactly one segment either way.
pub proof fn lemma_growth_idempotent(s: Snake, half_width: i32, half_height: i32)
    ensures
        spec_request_growth(spec_request_growth(s)) == spec_request_growth(s),
        spec_advance_positions(
            spec_request_growth(s).positions(),
            spec_request_growth(s).direction,
            half_width,
            half_height,
            spec_request_growth(s).pending_growth,
        ).len() == s.positions().len() + 1,
{
}

impl Snake {
    /// The chain of grid positions, head first.
    pub open spec fn positions(self) -> Seq<Coord> {
        Seq::new(self.segments@.len(), |i: int| self.segments@[i].pos)
    }

    /// Well-formedness: the chain is non-empty and every segment lies on the
    /// grid.
    pub open spec fn wf(self, half_width: i32, half_height: i32) -> bool {
        &&& self.segments@.len() >= 1
        &&& forall|i: int|
            0 <= i < self.segments@.len() ==> in_bounds(
                #[trigger] self.segments@[i].pos,
                half_width,
                half_height,
            )
    }

    /// Every visual token of the chain was allocated below `bound`, and no
    /// token is carried by two segments.
    pub open spec fn visuals_wf(self, bound: u64) -> bool {
        &&& forall|i: int|
            0 <= i < self.segments@.len() ==> #[trigger] self.segments@[i].visual < bound
        &&& forall|i: int, j: int|
            0 <= i < j < self.segments@.len() ==> (#[trigger] self.segments@[i].visual)
                != (#[trigger] self.segments@[j].visual)
    }

    /// A fresh snake: one segment at the origin, heading up, no growth
    /// pending; the one segment gets a fresh visual token.
    pub fn initialize(alloc: &mut VisualAlloc) -> (s: Snake)
        requires
            old(alloc).next < u64::MAX,
        ensures
            s.segments@.len() == 1,
            s.segments@[0].pos == (Coord { x: 0, y: 0 }),
            s.segments@[0].visual == old(alloc).next,
            s.direction == Direction::Up,
            s.pending_growth == false,
            final(alloc).next == old(alloc).next + 1,
    {
        let h = alloc.fresh();
        let mut segments: Vec<Segment> = Vec::new();
        segments.push(Segment { pos: Coord { x: 0, y: 0 }, visual: h });
        Snake { direction: Direction::Up, segments, pending_growth: false }
    }

    /// Overwrites the heading; the last write before a tick's advance wins.
    /// No reversal guard: heading straight back causes a self-collision on
    /// the next tick, by design.
    pub fn set_direction(&mut self, d: Direction)
        ensures
            final(self).direction == d,
            final(self).segments == old(self).segments,
            final(self).pending_growth == old(self).pending_growth,
    {
        self.direction = d;
    }

    /// Requests growth; the next advance appends exactly one segment however
    /// often this was called before it.
    pub fn request_growth(&mut self)
        ensures
            *final(self) == spec_request_growth(*old(self)),
    {
        self.pending_growth = true;
    }

    /// One tick of movement.  The head steps along the current heading and
    /// wraps; each trailing segment moves to the cell its predecessor held
    /// before this tick; if growth was pending, the flag is consumed and one
    /// segment is appended, with a fresh visual token, at the cell the old
    /// tail vacated.
    pub fn advance(&mut self, half_width: i32, half_height: i32, alloc: &mut VisualAlloc)
        requires
            old(self).wf(half_width, half_height),
            0 <= half_width < i32::MAX,
            0 <= half_height < i32::MAX,
            old(alloc).next < u64::MAX,
            old(self).segments@.len() < usize::MAX,
        ensures
            final(self).positions() == spec_advance_positions(
                old(self).positions(),
                old(self).direction,
                half_width,
                half_height,
                old(self).pending_growth,
            ),
            final(self).direction == old(self).direction,
            final(self).pending_growth == false,
            final(self).segments@.len() == old(self).segments@.len() + (if old(
                self,
            ).pending_growth {
                1int
            } else {
                0int
            }),
            final(self).segments@[0].pos == spec_step(
                old(self).segments@[0].pos,
                old(self).direction,
                half_width,
                half_height,
            ),
            forall|i: int|
                1 <= i < final(self).segments@.len() ==> final(self).segments@[i].pos == old(
                    self,
                ).segments@[i - 1].pos,
            forall|i: int|
                0 <= i < old(self).segments@.len() ==> final(self).segments@[i].visual == old(
                    self,
                ).segments@[i].visual,
            old(self).pending_growth ==> final(self).segments@.last().visual == old(alloc).next
                && final(alloc).next == old(alloc).next + 1,
            !old(self).pending_growth ==> *final(alloc) == *old(alloc),
            final(self).wf(half_width, half_height),
            old(self).visuals_wf(old(alloc).next) ==> final(self).visuals_wf(final(alloc).next),
    {
        let ghost old_segs = self.segments@;
        let n = self.segments.len();
        let head_visual = self.segments[0].visual;
        let mut prev: Coord = self.segments[0].pos;
        let new_head = step(prev, self.direction, half_width, half_height);
        self.segments[0] = Segment { pos: new_head, visual: head_visual };
        let mut i: usize = 1;
        while i < n
            invariant
                1 <= i <= n,
                n == self.segments@.len(),
                n == old_segs.len(),
                half_width < i32::MAX,
                half_height < i32::MAX,
                self.direction == old(self).direction,
                self.pending_growth == old(self).pending_growth,
                self.segments@[0].pos == spec_step(
                    old_segs[0].pos,
                    old(self).direction,
                    half_width,
                    half_height,
                ),
                forall|j: int| 1 <= j < i ==> self.segments@[j].pos == old_segs[j - 1].pos,
                forall|j: int| i <= j < n ==> self.segments@[j] == old_segs[j],
                forall|j: int|
                    0 <= j < n ==> #[trigger] self.segments@[j].visual == old_segs[j].visual,
                prev == old_segs[i - 1].pos,
            decreases n - i,
        {
            let cur = self.segments[i].pos;
            let vis = self.segments[i].visual;
            self.segments[i] = Segment { pos: prev, visual: vis };
            prev = cur;
            i = i + 1;
        }
        if self.pending_growth {
            self.pending_growth = false;
            let h = alloc.fresh();
            self.segments.push(Segment { pos: prev, visual: h });
        }
        proof {
            assert(self.positions() =~= spec_advance_positions(
                old(self).positions(),
                old(self).direction,
                half_width,
                half_height,
                old(self).pending_growth,
            ));
        }
    }
}

} // verus!
