//! The continuous-motion snake. The body is the path from the head through a
//! list of turn corners (newest first), followed by a partial tail segment that
//! leaves the oldest corner in that corner's outward direction.
//!
//! Positions and lengths are whole pixels. The length grows smoothly toward its
//! target; each frame's step is rounded away from zero, so the length reaches
//! the target instead of creeping toward it forever. Eating an apple raises
//! the target at once; the body then lengthens over the following frames.
use vstd::prelude::*;
use crate::direction::{Direction, spec_can_change_to, spec_dx, spec_dy, spec_opposite};
use crate::random::random_range;

verus! {

/// Side of the square playing field, in pixels.
pub const WINDOW_SIZE: i64 = 800;

/// Width of the snake's body, in pixels.
pub const SNAKE_WIDTH: i64 = 15;

/// Pixels moved per frame; also the rate (per second) of the length smoothing.
pub const SNAKE_SPEED: i64 = 5;

/// Length added to the target length by one apple.
pub const SNAKE_GROW_AMOUNT: i64 = 50;

/// Bound on every coordinate and length the model holds, so that the
/// arithmetic on them cannot overflow.
pub const COORD_LIMIT: i64 = 1_000_000_000;

#[derive(Clone, Copy, Debug, PartialEq, Eq, Structural)]
pub struct Point {
    pub x: i64,
    pub y: i64,
}

/// A corner of the body: where the head was when it turned, and the direction
/// from there back toward the older part of the body.
#[derive(Clone, Copy, Debug, PartialEq, Eq, Structural)]
pub struct Turn {
    pub pos: Point,
    pub dir: Direction,
}

/// Colour class of a drawn segment: segments alternate between two colours.
#[derive(Clone, Copy, Debug, PartialEq, Eq, Structural)]
pub enum SegmentColor {
    Even,
    Odd,
}

/// One straight piece of the body as it is drawn.
#[derive(Clone, Copy, Debug, PartialEq, Eq, Structural)]
pub struct Segment {
    pub start: Point,
    pub end: Point,
    pub color: SegmentColor,
}

pub struct Snake {
    pub head: Point,
    pub direction: Direction,
    /// Turn corners, most recent first.
    pub turns: Vec<Turn>,
    /// Current (animated) length of the body.
    pub len: i64,
    /// Length that `len` is moving toward.
    pub target_len: i64,
    /// Length of the last, partial segment behind the oldest corner.
    pub tail_len: i64,
}

pub open spec fn abs(v: int) -> int {
    if v < 0 {
        -v
    } else {
        v
    }
}

pub open spec fn max(a: int, b: int) -> int {
    if a < b {
        b
    } else {
        a
    }
}

pub open spec fn min(a: int, b: int) -> int {
    if a < b {
        a
    } else {
        b
    }
}

pub open spec fn in_limit(p: Point) -> bool {
    -COORD_LIMIT <= p.x <= COORD_LIMIT && -COORD_LIMIT <= p.y <= COORD_LIMIT
}

/// Within twice the model's bound: where a tail end can lie.
pub open spec fn in_reach(p: Point) -> bool {
    -2 * COORD_LIMIT <= p.x <= 2 * COORD_LIMIT && -2 * COORD_LIMIT <= p.y <= 2 * COORD_LIMIT
}

/// Length of a straight piece between two points; for the axis-aligned pieces
/// of the body this is their ordinary length.
pub open spec fn dist(a: Point, b: Point) -> int {
    max(abs(a.x - b.x), abs(a.y - b.y))
}

/// The point the body passes through just before corner `j`.
pub open spec fn point_before(head: Point, turns: Seq<Turn>, j: int) -> Point {
    if j <= 0 {
        head
    } else {
        turns[j - 1].pos
    }
}

/// Length of the path from the head through all the given corners.
pub open spec fn path_len(head: Point, turns: Seq<Turn>) -> int
    decreases turns.len(),
{
    if turns.len() == 0 {
        0
    } else {
        path_len(head, turns.drop_last()) + dist(
            point_before(head, turns, turns.len() - 1),
            turns.last().pos,
        )
    }
}

/// The length after one frame of smoothing toward `target`: the gap shrinks by
/// the fraction `SNAKE_SPEED * frame_ms / 1000`, capped at the whole gap, and
/// the step is rounded away from zero.
pub open spec fn smoothed_len(len: int, target: int, frame_ms: int) -> int {
    let k = min(SNAKE_SPEED * frame_ms, 1000);
    if len <= target {
        len + ((target - len) * k + 999) / 1000
    } else {
        len - ((len - target) * k + 999) / 1000
    }
}

pub open spec fn segment_color(i: int) -> SegmentColor {
    if i % 2 == 0 {
        SegmentColor::Even
    } else {
        SegmentColor::Odd
    }
}

pub open spec fn out_of_window(p: Point) -> bool {
    p.x < 0 || p.x > WINDOW_SIZE || p.y < 0 || p.y > WINDOW_SIZE
}

/// The head lies strictly inside the long extent of an axis-aligned segment and
/// within the body width of its line.
pub open spec fn overlaps(head: Point, start: Point, end: Point) -> bool {
    (min(start.x as int, end.x as int) < head.x < max(start.x as int, end.x as int) && abs(
        head.y - start.y,
    ) <= SNAKE_WIDTH) || (min(start.y as int, end.y as int) < head.y < max(
        start.y as int,
        end.y as int,
    ) && abs(head.x - start.x) <= SNAKE_WIDTH)
}

pub open spec fn offset(p: Point, d: Direction, n: int) -> Point {
    Point { x: (p.x + spec_dx(d) * n) as i64, y: (p.y + spec_dy(d) * n) as i64 }
}

/// Within the apple's reach: closer than one and a half body widths.
pub open spec fn near_apple(head: Point, apple: Point) -> bool {
    let dx = head.x - apple.x;
    let dy = head.y - apple.y;
    4 * (dx * dx + dy * dy) < 9 * SNAKE_WIDTH * SNAKE_WIDTH
}

/// What registering `requested` does: a legal turn records a corner at the
/// head and takes the new direction; anything else changes nothing.
pub open spec fn took_input(before: Snake, requested: Option<Direction>, after: Snake) -> bool {
    &&& after.head == before.head
    &&& after.len == before.len
    &&& after.target_len == before.target_len
    &&& after.tail_len == before.tail_len
    &&& match requested {
        Some(d) if spec_can_change_to(before.direction, d) => {
            &&& after.direction == d
            &&& after.turns@ == seq![Turn { pos: before.head, dir: spec_opposite(before.direction) }]
                + before.turns@
        },
        _ => {
            &&& after.direction == before.direction
            &&& after.turns@ == before.turns@
        },
    }
}

/// What one frame of `frame_ms` milliseconds does to the snake.
pub open spec fn moved(before: Snake, frame_ms: u64, after: Snake) -> bool {
    &&& after.head == before.next_head()
    &&& after.direction == before.direction
    &&& after.target_len == before.target_len
    &&& after.len == smoothed_len(before.len as int, before.target_len as int, frame_ms as int)
    &&& after.turns@.len() <= before.turns@.len()
    &&& after.turns@ == before.turns@.subrange(0, after.turns@.len() as int)
    &&& after.turns@.len() < before.turns@.len() ==> path_len(
        after.head,
        before.turns@.subrange(0, after.turns@.len() as int + 1),
    ) > after.len
    &&& path_len(after.head, after.turns@) + after.tail_len == after.len
}

/// What eating one apple does to the snake.
pub open spec fn grown(before: Snake, after: Snake) -> bool {
    &&& after.target_len == min(before.target_len + SNAKE_GROW_AMOUNT, COORD_LIMIT as int)
    &&& after.head == before.head
    &&& after.direction == before.direction
    &&& after.turns@ == before.turns@
    &&& after.len == before.len
    &&& after.tail_len == before.tail_len
}

/// Extending a prefix of the corners by one corner adds that piece's length.
proof fn lemma_path_len_prefix(head: Point, turns: Seq<Turn>, i: int)
    requires
        0 <= i < turns.len(),
    ensures
        path_len(head, turns.subrange(0, i + 1)) == path_len(head, turns.subrange(0, i)) + dist(
            point_before(head, turns, i),
            turns[i].pos,
        ),
{
    let t = turns.subrange(0, i + 1);
    assert(t.drop_last() =~= turns.subrange(0, i));
    assert(point_before(head, t, i) == point_before(head, turns, i));
}

/// With a constant target, one frame of smoothing moves the length toward the
/// target and never past it; any frame of positive duration changes a length
/// that differs from the target.
pub proof fn lemma_len_approaches_target(len: int, target: int, frame_ms: nat)
    ensures
        len <= target ==> len <= smoothed_len(len, target, frame_ms as int) <= target,
        target <= len ==> target <= smoothed_len(len, target, frame_ms as int) <= len,
        frame_ms > 0 && len != target ==> smoothed_len(len, target, frame_ms as int) != len,
{
    let k = min(SNAKE_SPEED * frame_ms, 1000);
    assert(0 <= k <= 1000);
    if len <= target {
        let d = target - len;
        assert(0 <= (d * k + 999) / 1000 <= d) by (nonlinear_arith)
            requires
                0 <= k <= 1000,
                d >= 0,
        ;
        if frame_ms > 0 && d > 0 {
            assert(k >= 1);
            assert((d * k + 999) / 1000 >= 1) by (nonlinear_arith)
                requires
                    k >= 1,
                    d >= 1,
            ;
        }
    } else {
        let d = len - target;
        assert(0 <= (d * k + 999) / 1000 <= d) by (nonlinear_arith)
            requires
                0 <= k <= 1000,
                d >= 0,
        ;
        if frame_ms > 0 {
            assert(k >= 1);
            assert((d * k + 999) / 1000 >= 1) by (nonlinear_arith)
                requires
                    k >= 1,
                    d >= 1,
            ;
        }
    }
}

fn abs_diff(a: i64, b: i64) -> (r: i64)
    requires
        -2 * COORD_LIMIT <= a <= 2 * COORD_LIMIT,
        -2 * COORD_LIMIT <= b <= 2 * COORD_LIMIT,
    ensures
        r == abs(a - b),
{
    if a < b {
        b - a
    } else {
        a - b
    }
}

fn segment_len(a: Point, b: Point) -> (r: i64)
    requires
        in_limit(a),
        in_limit(b),
    ensures
        r == dist(a, b),
{
    let dx = abs_diff(a.x, b.x);
    let dy = abs_diff(a.y, b.y);
    if dx < dy {
        dy
    } else {
        dx
    }
}

/// The point `n` pixels from `p` in direction `d`.
fn offset_point(p: Point, d: Direction, n: i64) -> (r: Point)
    requires
        in_limit(p),
        0 <= n <= COORD_LIMIT,
    ensures
        r == offset(p, d, n as int),
        in_reach(r),
{
    match d {
        Direction::Right => Point { x: p.x + n, y: p.y },
        Direction::Left => Point { x: p.x - n, y: p.y },
        Direction::Up => Point { x: p.x, y: p.y - n },
        Direction::Down => Point { x: p.x, y: p.y + n },
    }
}

/// One frame of length smoothing.
fn smooth(len: i64, target: i64, frame_ms: u64) -> (r: i64)
    requires
        0 <= len <= COORD_LIMIT,
        0 <= target <= COORD_LIMIT,
    ensures
        r == smoothed_len(len as int, target as int, frame_ms as int),
{
    let k: i64 = if frame_ms >= 1000 {
        1000
    } else if SNAKE_SPEED * (frame_ms as i64) < 1000 {
        SNAKE_SPEED * (frame_ms as i64)
    } else {
        1000
    };
    assert(k == min(SNAKE_SPEED * frame_ms, 1000));
    proof {
        lemma_len_approaches_target(len as int, target as int, frame_ms as nat);
    }
    if len <= target {
        let d = target - len;
        assert(d * k <= COORD_LIMIT * 1000) by (nonlinear_arith)
            requires
                0 <= d <= COORD_LIMIT,
                0 <= k <= 1000,
        ;
        assert(d * k >= 0) by (nonlinear_arith)
            requires
                0 <= d,
                0 <= k,
        ;
        len + (d * k + 999) / 1000
    } else {
        let d = len - target;
        assert(d * k <= COORD_LIMIT * 1000) by (nonlinear_arith)
            requires
                0 <= d <= COORD_LIMIT,
                0 <= k <= 1000,
        ;
        assert(d * k >= 0) by (nonlinear_arith)
            requires
                0 <= d,
                0 <= k,
        ;
        len - (d * k + 999) / 1000
    }
}

/// Colour class of the segment at `segment_index`, counted from the head.
pub fn get_segment_color(segment_index: usize) -> (r: SegmentColor)
    ensures
        r == segment_color(segment_index as int),
{
    if segment_index % 2 == 0 {
        return SegmentColor::Even;
    }
    SegmentColor::Odd
}

/// Does the head touch the axis-aligned segment from `segment_start` to
/// `segment_end`? The head must lie strictly between the segment's ends along
/// its long axis and within one body width of its line.
pub fn head_overlaps_with_segment(head: Point, segment_start: Point, segment_end: Point) -> (r:
    bool)
    requires
        in_reach(head),
        in_reach(segment_start),
        in_reach(segment_end),
    ensures
        r == overlaps(head, segment_start, segment_end),
{
    let min_x = if segment_start.x < segment_end.x { segment_start.x } else { segment_end.x };
    let max_x = if segment_start.x < segment_end.x { segment_end.x } else { segment_start.x };

    if head.x > min_x && head.x < max_x && abs_diff(head.y, segment_start.y) <= SNAKE_WIDTH {
        return true;
    }

    let min_y = if segment_start.y < segment_end.y { segment_start.y } else { segment_end.y };
    let max_y = if segment_start.y < segment_end.y { segment_end.y } else { segment_start.y };

    if head.y > min_y && head.y < max_y && abs_diff(head.x, segment_start.x) <= SNAKE_WIDTH {
        return true;
    }

    false
}

/// A fresh apple position: uniformly random, kept one body width away from
/// every edge of the field.
pub fn gen_apple() -> (r: Point)
    ensures
        SNAKE_WIDTH <= r.x < WINDOW_SIZE - SNAKE_WIDTH,
        SNAKE_WIDTH <= r.y < WINDOW_SIZE - SNAKE_WIDTH,
{
    let x = random_range(SNAKE_WIDTH, WINDOW_SIZE - SNAKE_WIDTH);
    let y = random_range(SNAKE_WIDTH, WINDOW_SIZE - SNAKE_WIDTH);
    Point { x, y }
}

impl Snake {
    pub open spec fn wf(&self) -> bool {
        &&& in_limit(self.head)
        &&& forall|i: int| 0 <= i < self.turns@.len() ==> in_limit(#[trigger] self.turns@[i].pos)
        &&& 0 <= self.len <= COORD_LIMIT
        &&& 0 <= self.target_len <= COORD_LIMIT
        &&& 0 <= self.tail_len <= COORD_LIMIT
    }

    /// Where the head is after one more frame.
    pub open spec fn next_head(&self) -> Point {
        offset(self.head, self.direction, SNAKE_SPEED as int)
    }

    /// The end of the tail: `tail_len` pixels from the oldest corner (or from
    /// the head, with no corners) in that corner's outward direction.
    pub open spec fn tail_end(&self) -> Point {
        let n = self.turns@.len() as int;
        if n == 0 {
            offset(self.head, spec_opposite(self.direction), self.tail_len as int)
        } else {
            offset(self.turns@[n - 1].pos, self.turns@[n - 1].dir, self.tail_len as int)
        }
    }

    /// The head touches its own body. The piece from the head to the newest
    /// corner, and the piece after it unless that is the tail, are never
    /// tested: the head cannot reach them.
    pub open spec fn hits_body(&self) -> bool {
        let t = self.turns@;
        let n = t.len() as int;
        (exists|j: int| 1 <= j && j + 1 < n && #[trigger] overlaps(self.head, t[j].pos, t[j + 1].pos))
            || (n > 0 && overlaps(self.head, t[n - 1].pos, self.tail_end()))
    }

    pub open spec fn is_dead(&self) -> bool {
        out_of_window(self.head) || self.hits_body()
    }

    /// The segments as drawn, from the head to the tail end.
    pub open spec fn segment_at(&self, i: int) -> Segment {
        let n = self.turns@.len() as int;
        if i < n {
            Segment {
                start: point_before(self.head, self.turns@, i),
                end: self.turns@[i].pos,
                color: segment_color(i),
            }
        } else {
            Segment {
                start: point_before(self.head, self.turns@, n),
                end: self.tail_end(),
                color: segment_color(n),
            }
        }
    }

    /// The next head position stays within the model's bound.
    pub open spec fn can_move(&self) -> bool {
        &&& -COORD_LIMIT <= self.head.x + spec_dx(self.direction) * SNAKE_SPEED <= COORD_LIMIT
        &&& -COORD_LIMIT <= self.head.y + spec_dy(self.direction) * SNAKE_SPEED <= COORD_LIMIT
    }

    /// A new snake: heading right from near the top-left corner, growing
    /// toward its starting length.
    pub fn new() -> (r: Snake)
        ensures
            r.wf(),
            r.head == (Point { x: 15, y: 15 }),
            r.direction == Direction::Right,
            r.turns@.len() == 0,
            r.len == 0,
            r.target_len == 65,
            r.tail_len == 65,
    {
        Snake {
            head: Point { x: 15, y: 15 },
            direction: Direction::Right,
            turns: Vec::new(),
            len: 0,
            target_len: 65,
            tail_len: 65,
        }
    }

    /// Registers a requested direction. Only a turn onto the other axis is
    /// taken; it records a corner at the head pointing back along the old
    /// course, in front of the older corners.
    pub fn handle_input(&mut self, requested: Option<Direction>)
        requires
            old(self).wf(),
        ensures
            final(self).wf(),
            final(self).direction != spec_opposite(old(self).direction),
            took_input(*old(self), requested, *final(self)),
    {
        if let Some(d) = requested {
            if self.direction.can_change_to(d) {
                let turn = Turn { pos: self.head, dir: self.direction.opposite() };
                self.direction = d;
                self.turns.insert(0, turn);
                assert(self.turns@ =~= seq![turn] + old(self).turns@);
                assert forall|i: int| 0 <= i < self.turns@.len() implies in_limit(
                    #[trigger] self.turns@[i].pos,
                ) by {
                    if i > 0 {
                        assert(self.turns@[i] == old(self).turns@[i - 1]);
                    }
                }
            }
        }
    }

    /// One frame: the head moves `SNAKE_SPEED` pixels, the length takes one
    /// smoothing step of `frame_ms` milliseconds, and the body is trimmed to
    /// that length. The corners kept are the longest prefix whose path fits in
    /// the length; the remainder becomes the tail. A frame longer than
    /// `1000 / SNAKE_SPEED` ms closes the whole gap to the target.
    pub fn update(&mut self, frame_ms: u64)
        requires
            old(self).wf(),
            old(self).can_move(),
        ensures
            final(self).wf(),
            moved(*old(self), frame_ms, *final(self)),
    {
        let ghost old_turns = self.turns@;
        let dx = self.direction.dx();
        let dy = self.direction.dy();
        self.head = Point { x: self.head.x + dx * SNAKE_SPEED, y: self.head.y + dy * SNAKE_SPEED };
        self.len = smooth(self.len, self.target_len, frame_ms);
        proof {
            lemma_len_approaches_target(
                old(self).len as int,
                old(self).target_len as int,
                frame_ms as nat,
            );
        }

        let n = self.turns.len();
        let mut prev = self.head;
        let mut budget = self.len;
        let mut keep = n;
        let mut i: usize = 0;
        while i < n
            invariant_except_break
                keep == n,
            invariant
                self.wf(),
                self.turns@ == old_turns,
                n == old_turns.len(),
                0 <= i <= n,
                prev == point_before(self.head, old_turns, i as int),
                0 <= budget <= self.len,
                budget == self.len - path_len(self.head, old_turns.subrange(0, i as int)),
            ensures
                keep == i,
                keep < n ==> path_len(
                    self.head,
                    old_turns.subrange(0, i as int + 1),
                ) > self.len,
            decreases n - i,
        {
            let pos = self.turns[i].pos;
            let seg = segment_len(prev, pos);
            proof {
                lemma_path_len_prefix(self.head, old_turns, i as int);
            }
            if seg > budget {
                keep = i;
                break;
            }
            budget = budget - seg;
            prev = pos;
            i = i + 1;
        }
        assert(old_turns.subrange(0, n as int) =~= old_turns);
        self.turns.truncate(keep);
        assert(self.turns@ =~= old_turns.subrange(0, keep as int));
        self.tail_len = budget;
    }

    /// Has the snake left the field or run into its own body?
    pub fn dead(&self) -> (r: bool)
        requires
            self.wf(),
        ensures
            r == self.is_dead(),
    {
        if self.head.x < 0 || self.head.x > WINDOW_SIZE || self.head.y < 0 || self.head.y
            > WINDOW_SIZE {
            return true;
        }
        let n = self.turns.len();
        let mut j: usize = 1;
        while n >= 2 && j < n - 1
            invariant
                self.wf(),
                n == self.turns@.len(),
                1 <= j,
                n >= 2 ==> j <= n - 1,
                forall|k: int|
                    1 <= k < j && k + 1 < n ==> !#[trigger] overlaps(
                        self.head,
                        self.turns@[k].pos,
                        self.turns@[k + 1].pos,
                    ),
            decreases n - j,
        {
            proof {
                assert(in_limit(self.turns@[j as int].pos));
                assert(in_limit(self.turns@[j + 1].pos));
            }
            if head_overlaps_with_segment(self.head, self.turns[j].pos, self.turns[j + 1].pos) {
                return true;
            }
            j = j + 1;
        }
        if n > 0 {
            let last = self.turns[n - 1];
            proof {
                assert(in_limit(last.pos));
            }
            let end = offset_point(last.pos, last.dir, self.tail_len);
            if head_overlaps_with_segment(self.head, last.pos, end) {
                return true;
            }
        }
        false
    }

    /// Is the head within one and a half body widths of the apple?
    pub fn hits_apple(&self, apple: Point) -> (r: bool)
        requires
            self.wf(),
        ensures
            r == near_apple(self.head, apple),
    {
        let dx = self.head.x as i128 - apple.x as i128;
        let dy = self.head.y as i128 - apple.y as i128;
        if dx > 2 * SNAKE_WIDTH as i128 || dx < -2 * SNAKE_WIDTH as i128 || dy > 2
            * SNAKE_WIDTH as i128 || dy < -2 * SNAKE_WIDTH as i128 {
            assert(4 * (dx * dx + dy * dy) >= 9 * 15 * 15) by (nonlinear_arith)
                requires
                    dx > 30 || dx < -30 || dy > 30 || dy < -30,
            ;
            return false;
        }
        assert(0 <= dx * dx <= 900 && 0 <= dy * dy <= 900) by (nonlinear_arith)
            requires
                -30 <= dx <= 30,
                -30 <= dy <= 30,
        ;
        4 * (dx * dx + dy * dy) < 9 * (SNAKE_WIDTH as i128) * (SNAKE_WIDTH as i128)
    }

    /// The body as a list of straight segments, head first, ending with the
    /// partial tail segment.
    pub fn segments(&self) -> (r: Vec<Segment>)
        requires
            self.wf(),
        ensures
            r@.len() == self.turns@.len() + 1,
            forall|i: int| 0 <= i < r@.len() ==> #[trigger] r@[i] == self.segment_at(i),
    {
        let n = self.turns.len();
        let mut r: Vec<Segment> = Vec::new();
        let mut prev = self.head;
        let mut prev_dir = self.direction.opposite();
        let mut i: usize = 0;
        while i < n
            invariant
                self.wf(),
                n == self.turns@.len(),
                0 <= i <= n,
                r@.len() == i,
                prev == point_before(self.head, self.turns@, i as int),
                i == 0 ==> prev_dir == spec_opposite(self.direction),
                i > 0 ==> prev_dir == self.turns@[i - 1].dir,
                forall|k: int| 0 <= k < i ==> #[trigger] r@[k] == self.segment_at(k),
            decreases n - i,
        {
            let turn = self.turns[i];
            r.push(Segment { start: prev, end: turn.pos, color: get_segment_color(i) });
            prev = turn.pos;
            prev_dir = turn.dir;
            i = i + 1;
        }
        proof {
            if n > 0 {
                assert(in_limit(self.turns@[n - 1].pos));
            }
        }
        let end = offset_point(prev, prev_dir, self.tail_len);
        r.push(Segment { start: prev, end, color: get_segment_color(n) });
        r
    }

    /// Adds one apple's worth to the target length (never past the model's
    /// bound).
    pub fn grow(&mut self)
        requires
            old(self).wf(),
        ensures
            final(self).wf(),
            grown(*old(self), *final(self)),
    {
        if self.target_len < COORD_LIMIT - SNAKE_GROW_AMOUNT {
            self.target_len = self.target_len + SNAKE_GROW_AMOUNT;
        } else {
            self.target_len = COORD_LIMIT;
        }
    }
}

impl Default for Snake {
    fn default() -> (r: Snake)
        ensures
            r.wf(),
            r.head == (Point { x: 15, y: 15 }),
            r.direction == Direction::Right,
            r.turns@.len() == 0,
            r.len == 0,
            r.target_len == 65,
            r.tail_len == 65,
    {
        Snake::new()
    }
}

} // verus!
