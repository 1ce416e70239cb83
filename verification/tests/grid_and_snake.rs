use snake_core::grid::{step, wrap, Coord, Direction};
use snake_core::snake::{Segment, Snake};
use snake_core::visual::VisualAlloc;

fn two_segment_snake() -> Snake {
    Snake {
        direction: Direction::Up,
        segments: vec![
            Segment { pos: Coord { x: 0, y: 0 }, visual: 0 },
            Segment { pos: Coord { x: 0, y: -1 }, visual: 1 },
        ],
        pending_growth: false,
    }
}

#[test]
fn default_direction_is_up() {
    assert_eq!(Direction::default(), Direction::Up);
}

#[test]
fn wrap_leaves_interior_cells_alone() {
    assert_eq!(wrap(Coord { x: 3, y: -7 }, 20, 15), Coord { x: 3, y: -7 });
    assert_eq!(wrap(Coord { x: 20, y: 15 }, 20, 15), Coord { x: 20, y: 15 });
    assert_eq!(wrap(Coord { x: -20, y: -15 }, 20, 15), Coord { x: -20, y: -15 });
}

#[test]
fn wrap_sends_each_edge_to_the_opposite_one() {
    assert_eq!(wrap(Coord { x: 21, y: 0 }, 20, 15), Coord { x: -20, y: 0 });
    assert_eq!(wrap(Coord { x: -21, y: 0 }, 20, 15), Coord { x: 20, y: 0 });
    assert_eq!(wrap(Coord { x: 0, y: 16 }, 20, 15), Coord { x: 0, y: -15 });
    assert_eq!(wrap(Coord { x: 0, y: -16 }, 20, 15), Coord { x: 0, y: 15 });
}

#[test]
fn step_moves_one_cell_per_direction() {
    let c = Coord { x: 2, y: 3 };
    assert_eq!(step(c, Direction::Up, 20, 15), Coord { x: 2, y: 4 });
    assert_eq!(step(c, Direction::Down, 20, 15), Coord { x: 2, y: 2 });
    assert_eq!(step(c, Direction::Left, 20, 15), Coord { x: 1, y: 3 });
    assert_eq!(step(c, Direction::Right, 20, 15), Coord { x: 3, y: 3 });
}

#[test]
fn step_stays_in_bounds_at_every_edge() {
    let hw = 20;
    let hh = 15;
    let corners = [
        Coord { x: hw, y: hh },
        Coord { x: -hw, y: hh },
        Coord { x: hw, y: -hh },
        Coord { x: -hw, y: -hh },
    ];
    let dirs = [Direction::Up, Direction::Down, Direction::Left, Direction::Right];
    for c in corners {
        for d in dirs {
            let r = step(c, d, hw, hh);
            assert!(-hw <= r.x && r.x <= hw, "x out of bounds: {:?}", r);
            assert!(-hh <= r.y && r.y <= hh, "y out of bounds: {:?}", r);
        }
    }
}

#[test]
fn single_segment_advance_moves_up() {
    let mut snake = Snake {
        direction: Direction::Up,
        segments: vec![Segment { pos: Coord { x: 0, y: 0 }, visual: 0 }],
        pending_growth: false,
    };
    let mut alloc = VisualAlloc { next: 1 };
    snake.advance(20, 15, &mut alloc);
    assert_eq!(snake.segments.len(), 1);
    assert_eq!(snake.segments[0].pos, Coord { x: 0, y: 1 });
}

#[test]
fn advance_wraps_at_the_top_boundary() {
    let mut snake = Snake {
        direction: Direction::Up,
        segments: vec![Segment { pos: Coord { x: 0, y: 15 }, visual: 0 }],
        pending_growth: false,
    };
    let mut alloc = VisualAlloc { next: 1 };
    snake.advance(20, 15, &mut alloc);
    assert_eq!(snake.segments.len(), 1);
    assert_eq!(snake.segments[0].pos, Coord { x: 0, y: -15 });
}

#[test]
fn trailing_segments_take_their_predecessors_old_positions() {
    let mut snake = Snake {
        direction: Direction::Right,
        segments: vec![
            Segment { pos: Coord { x: 3, y: 3 }, visual: 0 },
            Segment { pos: Coord { x: 3, y: 2 }, visual: 1 },
            Segment { pos: Coord { x: 4, y: 2 }, visual: 2 },
        ],
        pending_growth: false,
    };
    let mut alloc = VisualAlloc { next: 3 };
    snake.advance(20, 15, &mut alloc);
    assert_eq!(snake.segments[0].pos, Coord { x: 4, y: 3 });
    assert_eq!(snake.segments[1].pos, Coord { x: 3, y: 3 });
    assert_eq!(snake.segments[2].pos, Coord { x: 3, y: 2 });
    assert_eq!(snake.segments.len(), 3);
}

#[test]
fn repeated_growth_requests_grow_by_one_segment_only() {
    let mut snake = two_segment_snake();
    let mut alloc = VisualAlloc { next: 2 };
    snake.request_growth();
    snake.request_growth();
    snake.request_growth();
    snake.advance(20, 15, &mut alloc);
    assert_eq!(snake.segments.len(), 3);
    assert!(!snake.pending_growth);
    // the appended segment sits at the cell the old tail vacated
    assert_eq!(snake.segments[2].pos, Coord { x: 0, y: -1 });
    // without a new request the next advance does not grow
    snake.advance(20, 15, &mut alloc);
    assert_eq!(snake.segments.len(), 3);
}

#[test]
fn grown_segment_gets_a_fresh_visual_token() {
    let mut snake = two_segment_snake();
    let mut alloc = VisualAlloc { next: 2 };
    snake.request_growth();
    snake.advance(20, 15, &mut alloc);
    assert_eq!(snake.segments[0].visual, 0);
    assert_eq!(snake.segments[1].visual, 1);
    assert_eq!(snake.segments[2].visual, 2);
    assert_eq!(alloc.next, 3);
}

#[test]
fn set_direction_last_write_wins() {
    let mut snake = two_segment_snake();
    snake.set_direction(Direction::Left);
    snake.set_direction(Direction::Right);
    assert_eq!(snake.direction, Direction::Right);
    let mut alloc = VisualAlloc { next: 2 };
    snake.advance(20, 15, &mut alloc);
    assert_eq!(snake.segments[0].pos, Coord { x: 1, y: 0 });
}
