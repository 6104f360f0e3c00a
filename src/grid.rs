//! The grid snake: the body is a chain of cells on a torus, head first. Every
//! tick each body cell moves onto the cell its predecessor held before the
//! tick, and the head steps one cell in the current direction.
use vstd::prelude::*;
use vstd::arithmetic::div_mod::lemma_add_mod_noop_right;
use crate::direction::{Direction, spec_can_change_to, spec_dx, spec_dy, spec_opposite};
use crate::random::random_range;

verus! {

/// Number of cells along each side of the board.
pub const CELLS: i32 = 20;

#[derive(Clone, Copy, Debug, PartialEq, Eq, Structural)]
pub struct Cell {
    pub x: i32,
    pub y: i32,
}

pub struct GridSnake {
    /// Body cells, head first.
    pub cells: Vec<Cell>,
    pub direction: Direction,
    /// Requested directions not yet taken, oldest first.
    pub direction_queue: Vec<Direction>,
    pub apple: Cell,
    pub score: usize,
}

/// The mathematical state of a grid snake.
pub ghost struct GridState {
    pub cells: Seq<Cell>,
    pub direction: Direction,
    pub queue: Seq<Direction>,
    pub apple: Cell,
    pub score: nat,
}

impl View for GridSnake {
    type V = GridState;

    open spec fn view(&self) -> GridState {
        GridState {
            cells: self.cells@,
            direction: self.direction,
            queue: self.direction_queue@,
            apple: self.apple,
            score: self.score as nat,
        }
    }
}

pub open spec fn in_grid(c: Cell) -> bool {
    0 <= c.x < CELLS && 0 <= c.y < CELLS
}

/// The neighbouring cell in direction `d`, wrapping around the board's edges.
pub open spec fn step_cell(c: Cell, d: Direction) -> Cell {
    Cell { x: ((c.x + spec_dx(d)) % (CELLS as int)) as i32, y: ((c.y + spec_dy(d)) % (CELLS as int)) as i32 }
}

/// The direction for the coming tick: the oldest request, if it is a legal
/// turn; otherwise the current one.
pub open spec fn next_direction(s: GridState) -> Direction {
    if s.queue.len() > 0 && spec_can_change_to(s.direction, s.queue[0]) {
        s.queue[0]
    } else {
        s.direction
    }
}

pub open spec fn next_queue(s: GridState) -> Seq<Direction> {
    if s.queue.len() > 0 {
        s.queue.drop_first()
    } else {
        s.queue
    }
}

/// One tick: the state after it, and whether the snake is still alive. An
/// eaten apple is replaced by `next_apple`, the score goes up by one and the
/// tail cell is doubled; otherwise the snake dies if its head landed on
/// another of its cells.
pub open spec fn step(s: GridState, next_apple: Cell) -> (GridState, bool) {
    let d = next_direction(s);
    let head = step_cell(s.cells[0], d);
    let moved = seq![head] + s.cells.drop_last();
    if head == s.apple {
        (
            GridState {
                cells: moved.push(moved.last()),
                direction: d,
                queue: next_queue(s),
                apple: next_apple,
                score: s.score + 1,
            },
            true,
        )
    } else {
        (
            GridState {
                cells: moved,
                direction: d,
                queue: next_queue(s),
                apple: s.apple,
                score: s.score,
            },
            !moved.drop_first().contains(head),
        )
    }
}

/// The state after one tick per given apple (the apple that would replace an
/// eaten one at that tick).
pub open spec fn run(s: GridState, apples: Seq<Cell>) -> GridState
    decreases apples.len(),
{
    if apples.len() == 0 {
        s
    } else {
        step(run(s, apples.drop_last()), apples.last()).0
    }
}

pub open spec fn state_wf(s: GridState) -> bool {
    &&& s.cells.len() == s.score + 1
    &&& forall|i: int| 0 <= i < s.cells.len() ==> in_grid(#[trigger] s.cells[i])
    &&& in_grid(s.apple)
}

/// With no direction requested, after `apples.len()` ticks the head has moved
/// that many cells in its direction, modulo the board size on each axis.
pub proof fn lemma_head_after_ticks(s: GridState, apples: Seq<Cell>)
    requires
        s.cells.len() >= 1,
        in_grid(s.cells[0]),
        s.queue.len() == 0,
    ensures
        run(s, apples).cells.len() >= 1,
        run(s, apples).queue.len() == 0,
        run(s, apples).direction == s.direction,
        run(s, apples).cells[0].x == (s.cells[0].x + apples.len() * spec_dx(s.direction)) % (
        CELLS as int),
        run(s, apples).cells[0].y == (s.cells[0].y + apples.len() * spec_dy(s.direction)) % (
        CELLS as int),
    decreases apples.len(),
{
    if apples.len() > 0 {
        let prev = apples.drop_last();
        lemma_head_after_ticks(s, prev);
        let r = run(s, prev);
        let n = prev.len() as int;
        let dx = spec_dx(s.direction);
        let dy = spec_dy(s.direction);
        assert(run(s, apples) == step(r, apples.last()).0);
        assert(next_direction(r) == s.direction);
        let h = r.cells[0];
        assert(run(s, apples).cells[0] == step_cell(h, s.direction));
        assert(h.x == (s.cells[0].x + n * dx) % (CELLS as int));
        lemma_add_mod_noop_right(dx, s.cells[0].x + n * dx, CELLS as int);
        lemma_add_mod_noop_right(dy, s.cells[0].y + n * dy, CELLS as int);
        assert(s.cells[0].x + n * dx + dx == s.cells[0].x + (n + 1) * dx) by (nonlinear_arith);
        assert(s.cells[0].y + n * dy + dy == s.cells[0].y + (n + 1) * dy) by (nonlinear_arith);
        assert(0 <= (s.cells[0].x + n * dx) % (CELLS as int) < CELLS);
        assert(0 <= (s.cells[0].y + n * dy) % (CELLS as int) < CELLS);
        assert((h.x + dx) % (CELLS as int) == (s.cells[0].x + (n + 1) * dx) % (CELLS as int));
        assert((h.y + dy) % (CELLS as int) == (s.cells[0].y + (n + 1) * dy) % (CELLS as int));
        assert(apples.len() == n + 1);
        assert((s.cells[0].x + (n + 1) * dx) % (CELLS as int) == (s.cells[0].x + apples.len()
            * dx) % (CELLS as int));
        assert((s.cells[0].y + (n + 1) * dy) % (CELLS as int) == (s.cells[0].y + apples.len()
            * dy) % (CELLS as int));
        assert(run(s, apples).cells[0].x == (h.x + dx) % (CELLS as int));
        assert(run(s, apples).cells[0].y == (h.y + dy) % (CELLS as int));
    }
}

/// The neighbouring cell in direction `d`, wrapping around the edges.
pub fn wrap_step(c: Cell, d: Direction) -> (r: Cell)
    requires
        in_grid(c),
    ensures
        r == step_cell(c, d),
        in_grid(r),
{
    let x = c.x + d.dx() as i32;
    let y = c.y + d.dy() as i32;
    let x = if x < 0 {
        x + CELLS
    } else if x >= CELLS {
        x - CELLS
    } else {
        x
    };
    let y = if y < 0 {
        y + CELLS
    } else if y >= CELLS {
        y - CELLS
    } else {
        y
    };
    Cell { x, y }
}

/// A uniformly random cell of the board (it may lie on the snake).
pub fn gen_cell() -> (r: Cell)
    ensures
        in_grid(r),
{
    let x = random_range(0, CELLS as i64);
    let y = random_range(0, CELLS as i64);
    Cell { x: x as i32, y: y as i32 }
}

/// Logic ticks per second of the grid game, whatever the display's frame rate.
pub const TICKS_PER_SECOND: u64 = 7;

/// Time units in one tick: the timer counts microseconds times
/// `TICKS_PER_SECOND`, so that a tick is exactly one million units.
pub const TICK_UNITS: u64 = 1_000_000;

/// Accumulates frame time and hands out whole ticks.
pub struct TickTimer {
    /// Time since the last tick, in microseconds times `TICKS_PER_SECOND`.
    pub acc: u64,
}

impl TickTimer {
    pub fn new() -> (r: TickTimer)
        ensures
            r.acc == 0,
    {
        TickTimer { acc: 0 }
    }

    /// Adds a frame of `frame_us` microseconds and returns how many ticks are
    /// now due; the remainder carries over to later frames.
    pub fn advance(&mut self, frame_us: u64) -> (ticks: u64)
        requires
            old(self).acc < TICK_UNITS,
            frame_us <= 1_000_000_000_000,
        ensures
            ticks == (old(self).acc + TICKS_PER_SECOND * frame_us) / (TICK_UNITS as int),
            final(self).acc == (old(self).acc + TICKS_PER_SECOND * frame_us) % (TICK_UNITS as int),
            final(self).acc < TICK_UNITS,
    {
        let total = self.acc + TICKS_PER_SECOND * frame_us;
        self.acc = total % TICK_UNITS;
        total / TICK_UNITS
    }
}

impl GridSnake {
    pub open spec fn wf(&self) -> bool {
        state_wf(self@)
    }

    /// A one-cell snake in the middle of the board, heading right.
    pub fn new(apple: Cell) -> (r: GridSnake)
        requires
            in_grid(apple),
        ensures
            r.wf(),
            r@.cells == seq![Cell { x: 10, y: 10 }],
            r@.direction == Direction::Right,
            r@.queue.len() == 0,
            r@.apple == apple,
            r@.score == 0,
    {
        GridSnake {
            cells: vec![Cell { x: 10, y: 10 }],
            direction: Direction::Right,
            direction_queue: Vec::new(),
            apple,
            score: 0,
        }
    }

    /// Queues a requested direction; it is looked at on a later tick.
    pub fn queue_direction(&mut self, d: Direction)
        requires
            old(self).wf(),
        ensures
            final(self).wf(),
            final(self)@ == (GridState { queue: old(self)@.queue.push(d), ..old(self)@ }),
    {
        self.direction_queue.push(d);
    }

    /// One tick of the game, with `next_apple` as the apple that replaces an
    /// eaten one. Returns false when the snake ran into itself.
    pub fn tick(&mut self, next_apple: Cell) -> (alive: bool)
        requires
            old(self).wf(),
            in_grid(next_apple),
            old(self).score < usize::MAX - 1,
        ensures
            final(self).wf(),
            (final(self)@, alive) == step(old(self)@, next_apple),
            final(self).cells@.len() == final(self).score + 1,
            final(self).direction != spec_opposite(old(self).direction),
    {
        let ghost s = self@;
        if self.direction_queue.len() > 0 {
            let d = self.direction_queue.remove(0);
            if self.direction.can_change_to(d) {
                self.direction = d;
            }
        }
        assert(self.direction_queue@ =~= next_queue(s));
        assert(self.direction == next_direction(s));

        let n = self.cells.len();
        let old_head = self.cells[0];
        let mut i: usize = n - 1;
        while i > 0
            invariant
                self.score == s.score,
                self.apple == s.apple,
                self.direction == next_direction(s),
                self.direction_queue@ == next_queue(s),
                self.cells@.len() == n,
                n == s.cells.len(),
                n >= 1,
                0 <= i < n,
                forall|k: int| i < k < n ==> #[trigger] self.cells@[k] == s.cells[k - 1],
                forall|k: int| 0 <= k <= i ==> #[trigger] self.cells@[k] == s.cells[k],
            decreases i,
        {
            let c = self.cells[i - 1];
            self.cells[i] = c;
            i = i - 1;
        }
        let head = wrap_step(old_head, self.direction);
        self.cells[0] = head;
        let ghost moved = seq![head] + s.cells.drop_last();
        assert(self.cells@ =~= moved);

        if head == self.apple {
            let tail = self.cells[n - 1];
            self.cells.push(tail);
            self.apple = next_apple;
            self.score = self.score + 1;
            assert(self.cells@ =~= moved.push(moved.last()));
            assert forall|k: int| 0 <= k < self.cells@.len() implies in_grid(
                #[trigger] self.cells@[k],
            ) by {
                if 1 <= k < n {
                    assert(self.cells@[k] == s.cells[k - 1]);
                } else if k == n as int && n > 1 {
                    assert(self.cells@[k] == s.cells[n - 2]);
                }
            }
            return true;
        }
        assert forall|k: int| 0 <= k < self.cells@.len() implies in_grid(
            #[trigger] self.cells@[k],
        ) by {
            if 1 <= k < n {
                assert(self.cells@[k] == s.cells[k - 1]);
            }
        }
        let mut j: usize = 1;
        while j < n
            invariant
                self.cells@ == moved,
                n == moved.len(),
                1 <= j <= n,
                head == moved[0],
                forall|k: int| 1 <= k < j ==> moved[k] != head,
            ensures
                j < n ==> moved[j as int] == head,
            decreases n - j,
        {
            if self.cells[j] == head {
                break;
            }
            j = j + 1;
        }
        if j < n {
            assert(moved.drop_first()[j - 1] == head);
        } else {
            assert(!moved.drop_first().contains(head)) by {
                if moved.drop_first().contains(head) {
                    let k = choose|k: int|
                        0 <= k < moved.drop_first().len() && moved.drop_first()[k] == head;
                    assert(moved[k + 1] == head);
                }
            }
        }
        j == n
    }

    /// One tick with a freshly drawn apple in reserve. Whatever cell is
    /// drawn, the outcome is the tick's for some cell of the board.
    pub fn fixed_update(&mut self) -> (alive: bool)
        requires
            old(self).wf(),
            old(self).score < usize::MAX - 1,
        ensures
            final(self).wf(),
            exists|a: Cell| in_grid(a) && (final(self)@, alive) == step(old(self)@, a),
    {
        let a = gen_cell();
        self.tick(a)
    }
}

} // verus!
