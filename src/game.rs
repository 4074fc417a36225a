//! The game state and its rules: gravity, jumps, scrolling pipes, collisions
//! and the restart after a loss.
use vstd::prelude::*;
use crate::geometry::{rects_intersect, rects_overlap};

verus! {

/// Side of the player's square block; also the width of every pipe.
pub const BLOCK_SIZE: i64 = 250;
/// Height of the passable gap in each pipe.
pub const GAP_SIZE: i64 = 900;
/// Height of the play area; the floor is at zero.
pub const WINDOW_HEIGHT: i64 = 3600;
/// Width of the play area; recycled pipes reappear at this `x`.
pub const WINDOW_WIDTH: i64 = 6400;
/// Distance a pipe moves to the left on each tick.
pub const PIPE_SPEED: i64 = 20;
/// Amount added to the vertical velocity on each tick.
pub const GRAVITY: i64 = 2;
/// Vertical velocity that a jump sets.
pub const JUMP_IMPULSE: i64 = -50;
/// Horizontal distance between consecutive pipes at the start.
pub const PIPE_SPACING: i64 = 2000;
/// Horizontal position of the player at the start.
pub const START_X: i64 = 500;
/// Vertical position of the player at the start: the middle of the play area.
pub const START_Y: i64 = 1800;
/// Lowest centre a gap may have, so that the gap stays inside the play area.
pub const GAP_MIN: i64 = 450;
/// Bound above the centres a gap may have; a centre is drawn below it.
pub const GAP_MAX: i64 = 3150;

/// How the constants fit together: the block starts in the middle of the play
/// area, gap centres keep the whole gap inside it, gravity pulls towards
/// positive velocities and a jump pushes the other way.
pub proof fn lemma_layout()
    ensures
        START_Y == WINDOW_HEIGHT / 2,
        GAP_MIN == GAP_SIZE / 2,
        GAP_MAX == WINDOW_HEIGHT - GAP_SIZE / 2,
        GAP_MIN < GAP_MAX,
        GRAVITY > 0,
        JUMP_IMPULSE < 0,
        !out_of_bounds(START_Y as int),
{
}

/// One pipe: its left edge and the vertical centre of its gap.
#[derive(Clone, Copy, Debug, PartialEq, Eq, Structural)]
pub struct Pipe {
    pub x: i64,
    pub gap_y: i64,
}

/// The whole state of a game.
pub struct Game {
    pub pipes: Vec<Pipe>,
    pub block_x: i64,
    pub block_y: i64,
    pub vel_y: i64,
    pub game_over: bool,
}

/// A gap centre that keeps both parts of its pipe of non-negative height.
pub open spec fn gap_in_range(gap_y: int) -> bool {
    GAP_MIN <= gap_y <= GAP_MAX
}

/// A pipe that has been placed or moved by the rules of the game.
pub open spec fn pipe_wf(p: Pipe) -> bool {
    gap_in_range(p.gap_y as int) && p.x >= -BLOCK_SIZE
}

/// Every pipe of `pipes` is in place.
pub open spec fn pipes_wf(pipes: Seq<Pipe>) -> bool {
    forall|i: int| 0 <= i < pipes.len() ==> #[trigger] pipe_wf(pipes[i])
}

/// Left edge of pipe `i` at the start of a game.
pub open spec fn initial_x(i: int) -> int {
    WINDOW_WIDTH + PIPE_SPACING * i
}

/// Height of the lower part of a pipe, negative when there is none.
pub open spec fn bottom_height(gap_y: int) -> int {
    gap_y - GAP_SIZE / 2
}

/// Bottom edge of the upper part of a pipe.
pub open spec fn top_y(gap_y: int) -> int {
    gap_y + GAP_SIZE / 2
}

/// Height of the upper part of a pipe, negative when there is none.
pub open spec fn top_height(gap_y: int) -> int {
    WINDOW_HEIGHT - top_y(gap_y)
}

/// The block at `(bx, by)` overlaps a part of pipe `p` of positive height.
pub open spec fn hits_pipe(bx: int, by: int, p: Pipe) -> bool {
    (bottom_height(p.gap_y as int) > 0 && rects_overlap(
        bx, by, BLOCK_SIZE as int, BLOCK_SIZE as int,
        p.x as int, 0, BLOCK_SIZE as int, bottom_height(p.gap_y as int),
    )) || (top_height(p.gap_y as int) > 0 && rects_overlap(
        bx, by, BLOCK_SIZE as int, BLOCK_SIZE as int,
        p.x as int, top_y(p.gap_y as int), BLOCK_SIZE as int, top_height(p.gap_y as int),
    ))
}

/// The block at height `by` reaches below the floor or above the top.
pub open spec fn out_of_bounds(by: int) -> bool {
    by < 0 || by + BLOCK_SIZE > WINDOW_HEIGHT
}

/// The block at `(bx, by)` leaves the play area or hits one of `pipes`.
pub open spec fn collides(bx: int, by: int, pipes: Seq<Pipe>) -> bool {
    out_of_bounds(by) || exists|i: int| 0 <= i < pipes.len() && #[trigger] hits_pipe(bx, by, pipes[i])
}

/// Pipe `p` after one tick: moved left, and put back at the right edge with
/// the gap centre `fresh_gap` once it has passed the left edge of the play area.
pub open spec fn advanced(p: Pipe, fresh_gap: i64) -> Pipe {
    if p.x - PIPE_SPEED < -BLOCK_SIZE {
        Pipe { x: WINDOW_WIDTH, gap_y: fresh_gap }
    } else {
        Pipe { x: (p.x - PIPE_SPEED) as i64, gap_y: p.gap_y }
    }
}

impl Pipe {
    /// This pipe after one tick, with `fresh_gap` as the gap centre it takes
    /// if it is put back at the right edge.
    pub fn advance(&self, fresh_gap: i64) -> (r: Pipe)
        requires
            pipe_wf(*self),
        ensures
            r == advanced(*self, fresh_gap),
    {
        let x = self.x - PIPE_SPEED;
        if x < -BLOCK_SIZE {
            Pipe { x: WINDOW_WIDTH, gap_y: fresh_gap }
        } else {
            Pipe { x, gap_y: self.gap_y }
        }
    }

    /// Whether the block with lower left corner `(block_x, block_y)` overlaps
    /// a part of this pipe of positive height.
    pub fn hit_by(&self, block_x: i64, block_y: i64) -> (r: bool)
        requires
            gap_in_range(self.gap_y as int),
        ensures
            r == hits_pipe(block_x as int, block_y as int, *self),
    {
        let bottom_height = self.gap_y - GAP_SIZE / 2;
        let top_y = self.gap_y + GAP_SIZE / 2;
        let top_height = WINDOW_HEIGHT - top_y;
        let mut hit = false;
        if bottom_height > 0 {
            if rects_intersect(
                block_x, block_y, BLOCK_SIZE, BLOCK_SIZE,
                self.x, 0, BLOCK_SIZE, bottom_height,
            ) {
                hit = true;
            }
        }
        if top_height > 0 {
            if rects_intersect(
                block_x, block_y, BLOCK_SIZE, BLOCK_SIZE,
                self.x, top_y, BLOCK_SIZE, top_height,
            ) {
                hit = true;
            }
        }
        hit
    }
}

impl Game {
    /// What every state reached by the rules of the game satisfies: the pipes
    /// are in place and, while the game goes on, the block lies inside the
    /// play area and moves no faster than its height per tick.
    pub open spec fn wf(&self) -> bool {
        &&& self.pipes.len() <= i32::MAX
        &&& pipes_wf(self.pipes@)
        &&& !self.game_over ==> {
            &&& !out_of_bounds(self.block_y as int)
            &&& -WINDOW_HEIGHT <= self.vel_y <= WINDOW_HEIGHT
        }
    }

    /// Ends the game if the block has left the play area or overlaps a pipe;
    /// every pipe is checked. Nothing else changes.
    pub fn check_collisions(&mut self)
        requires
            pipes_wf(old(self).pipes@),
        ensures
            final(self).pipes@ == old(self).pipes@,
            final(self).block_x == old(self).block_x,
            final(self).block_y == old(self).block_y,
            final(self).vel_y == old(self).vel_y,
            final(self).game_over == (old(self).game_over || collides(
                old(self).block_x as int, old(self).block_y as int, old(self).pipes@)),
    {
        let mut hit = false;
        let mut i: usize = 0;
        while i < self.pipes.len()
            invariant
                i <= self.pipes.len(),
                pipes_wf(self.pipes@),
                hit == exists|j: int| 0 <= j < i
                    && #[trigger] hits_pipe(self.block_x as int, self.block_y as int, self.pipes@[j]),
            decreases self.pipes.len() - i,
        {
            assert(pipe_wf(self.pipes[i as int]));
            if self.pipes[i].hit_by(self.block_x, self.block_y) {
                hit = true;
            }
            i = i + 1;
        }
        if hit || self.block_y < 0 || self.block_y > WINDOW_HEIGHT - BLOCK_SIZE {
            self.game_over = true;
        }
    }
    /// One tick with `fresh_gaps[i]` as the gap centre that pipe `i` takes if
    /// it is put back at the right edge. Nothing changes once the game is
    /// over. Otherwise the block moves by its velocity from before the tick,
    /// gravity is then added to the velocity, every pipe advances, and the
    /// game ends if the block now collides.
    pub fn update_with_gaps(&mut self, fresh_gaps: &Vec<i64>)
        requires
            old(self).wf(),
            fresh_gaps.len() == old(self).pipes.len(),
            forall|i: int| 0 <= i < fresh_gaps.len() ==> gap_in_range(#[trigger] fresh_gaps[i] as int),
        ensures
            final(self).wf(),
            old(self).game_over ==> *final(self) == *old(self),
            !old(self).game_over ==> {
                &&& final(self).block_x == old(self).block_x
                &&& final(self).block_y == old(self).block_y + old(self).vel_y
                &&& final(self).vel_y == old(self).vel_y + GRAVITY
                &&& final(self).pipes.len() == old(self).pipes.len()
                &&& forall|i: int| 0 <= i < final(self).pipes.len()
                    ==> #[trigger] final(self).pipes[i] == advanced(old(self).pipes[i], fresh_gaps[i])
                &&& final(self).game_over == collides(
                    final(self).block_x as int, final(self).block_y as int, final(self).pipes@)
            },
    {
        if self.game_over {
            return;
        }
        self.block_y = self.block_y + self.vel_y;
        self.vel_y = self.vel_y + GRAVITY;
        let n = self.pipes.len();
        let mut i: usize = 0;
        while i < n
            invariant
                n == self.pipes.len() == old(self).pipes.len() == fresh_gaps.len(),
                i <= n,
                !self.game_over,
                self.block_x == old(self).block_x,
                self.block_y == old(self).block_y + old(self).vel_y,
                self.vel_y == old(self).vel_y + GRAVITY,
                pipes_wf(old(self).pipes@),
                forall|j: int| 0 <= j < fresh_gaps.len() ==> gap_in_range(#[trigger] fresh_gaps[j] as int),
                forall|j: int| 0 <= j < i
                    ==> #[trigger] self.pipes[j] == advanced(old(self).pipes[j], fresh_gaps[j]),
                forall|j: int| i <= j < n ==> #[trigger] self.pipes[j] == old(self).pipes[j],
            decreases n - i,
        {
            assert(pipe_wf(old(self).pipes[i as int]));
            let moved = self.pipes[i].advance(fresh_gaps[i]);
            self.pipes[i] = moved;
            i = i + 1;
        }
        assert forall|j: int| 0 <= j < self.pipes.len() implies #[trigger] pipe_wf(self.pipes[j]) by {
            assert(pipe_wf(old(self).pipes[j]));
            assert(gap_in_range(fresh_gaps[j] as int));
        }
        self.check_collisions();
    }

    /// One tick, with a random gap centre for each pipe that is put back at
    /// the right edge. Nothing changes once the game is over. Otherwise the
    /// block moves by its velocity from before the tick, gravity is then added
    /// to the velocity, every pipe advances, and the game ends if the block
    /// now collides.
    pub fn update(&mut self)
        requires
            old(self).wf(),
        ensures
            final(self).wf(),
            old(self).game_over ==> *final(self) == *old(self),
            !old(self).game_over ==> {
                &&& final(self).block_x == old(self).block_x
                &&& final(self).block_y == old(self).block_y + old(self).vel_y
                &&& final(self).vel_y == old(self).vel_y + GRAVITY
                &&& final(self).pipes.len() == old(self).pipes.len()
                &&& forall|i: int| 0 <= i < final(self).pipes.len() ==> {
                    let before = old(self).pipes[i];
                    let after = #[trigger] final(self).pipes[i];
                    if before.x - PIPE_SPEED < -BLOCK_SIZE {
                        after.x == WINDOW_WIDTH && gap_in_range(after.gap_y as int)
                    } else {
                        after == Pipe { x: (before.x - PIPE_SPEED) as i64, gap_y: before.gap_y }
                    }
                }
                &&& final(self).game_over == collides(
                    final(self).block_x as int, final(self).block_y as int, final(self).pipes@)
            },
    {
        if self.game_over {
            return;
        }
        let fresh_gaps = draw_gaps(self.pipes.len());
        self.update_with_gaps(&fresh_gaps);
        assert forall|i: int| 0 <= i < self.pipes.len() implies
            #[trigger] self.pipes[i] == advanced(old(self).pipes[i], fresh_gaps[i])
            && gap_in_range(fresh_gaps[i] as int) by {}
    }

    /// Sets the vertical velocity to the jump impulse, whatever it was, unless
    /// the game is over; then nothing changes.
    pub fn jump(&mut self)
        ensures
            old(self).wf() ==> final(self).wf(),
            old(self).game_over ==> *final(self) == *old(self),
            !old(self).game_over ==> {
                &&& final(self).vel_y == JUMP_IMPULSE
                &&& final(self).pipes@ == old(self).pipes@
                &&& final(self).block_x == old(self).block_x
                &&& final(self).block_y == old(self).block_y
                &&& !final(self).game_over
            },
    {
        if !self.game_over {
            self.vel_y = JUMP_IMPULSE;
        }
    }
    /// A new game with one pipe for each entry of `gaps`, which gives its gap
    /// centre; the pipes stand evenly spaced from the right edge of the play
    /// area, and the block rests at its starting point.
    pub fn from_gaps(gaps: &Vec<i64>) -> (r: Game)
        requires
            gaps.len() <= i32::MAX,
            forall|i: int| 0 <= i < gaps.len() ==> gap_in_range(#[trigger] gaps[i] as int),
        ensures
            r.wf(),
            r.pipes.len() == gaps.len(),
            forall|i: int| 0 <= i < gaps.len()
                ==> #[trigger] r.pipes[i] == (Pipe { x: initial_x(i) as i64, gap_y: gaps[i] }),
            r.block_x == START_X,
            r.block_y == START_Y,
            r.vel_y == 0,
            !r.game_over,
    {
        Game {
            pipes: spaced_pipes(gaps),
            block_x: START_X,
            block_y: START_Y,
            vel_y: 0,
            game_over: false,
        }
    }

    /// A new game with `pipe_count` pipes (none if it is negative) whose gap
    /// centres are drawn at random; the pipes stand evenly spaced from the
    /// right edge of the play area, and the block rests at its starting point.
    pub fn new(pipe_count: i32) -> (r: Game)
        ensures
            r.wf(),
            r.pipes.len() == if pipe_count < 0 { 0 } else { pipe_count as int },
            forall|i: int| 0 <= i < r.pipes.len() ==> {
                &&& #[trigger] r.pipes[i].x == initial_x(i)
                &&& gap_in_range(r.pipes[i].gap_y as int)
            },
            r.block_x == START_X,
            r.block_y == START_Y,
            r.vel_y == 0,
            !r.game_over,
    {
        let n: usize = if pipe_count < 0 { 0 } else { pipe_count as usize };
        let gaps = draw_gaps(n);
        let r = Game::from_gaps(&gaps);
        assert forall|i: int| 0 <= i < r.pipes.len() implies
            #[trigger] r.pipes[i] == (Pipe { x: initial_x(i) as i64, gap_y: gaps[i] })
            && gap_in_range(gaps[i] as int) by {}
        r
    }

    /// After a loss, puts the block back at its starting point at rest, puts
    /// pipe `i` back at its starting place with gap centre `gaps[i]`, and
    /// starts the game again. While the game goes on, nothing changes.
    pub fn reset_with_gaps(&mut self, gaps: &Vec<i64>)
        requires
            old(self).wf(),
            gaps.len() == old(self).pipes.len(),
            forall|i: int| 0 <= i < gaps.len() ==> gap_in_range(#[trigger] gaps[i] as int),
        ensures
            final(self).wf(),
            !old(self).game_over ==> *final(self) == *old(self),
            old(self).game_over ==> {
                &&& final(self).pipes.len() == old(self).pipes.len()
                &&& forall|i: int| 0 <= i < gaps.len()
                    ==> #[trigger] final(self).pipes[i] == (Pipe { x: initial_x(i) as i64, gap_y: gaps[i] })
                &&& final(self).block_x == START_X
                &&& final(self).block_y == START_Y
                &&& final(self).vel_y == 0
                &&& !final(self).game_over
            },
    {
        if self.game_over {
            self.block_x = START_X;
            self.block_y = START_Y;
            self.vel_y = 0;
            self.pipes = spaced_pipes(gaps);
            self.game_over = false;
        }
    }

    /// After a loss, puts the block back at its starting point at rest, puts
    /// every pipe back at its starting place with a gap centre drawn at
    /// random, and starts the game again. While the game goes on, nothing
    /// changes.
    pub fn reset(&mut self)
        requires
            old(self).wf(),
        ensures
            final(self).wf(),
            !old(self).game_over ==> *final(self) == *old(self),
            old(self).game_over ==> {
                &&& final(self).pipes.len() == old(self).pipes.len()
                &&& forall|i: int| 0 <= i < final(self).pipes.len() ==> {
                    &&& #[trigger] final(self).pipes[i].x == initial_x(i)
                    &&& gap_in_range(final(self).pipes[i].gap_y as int)
                }
                &&& final(self).block_x == START_X
                &&& final(self).block_y == START_Y
                &&& final(self).vel_y == 0
                &&& !final(self).game_over
            },
    {
        if self.game_over {
            let gaps = draw_gaps(self.pipes.len());
            self.reset_with_gaps(&gaps);
            assert forall|i: int| 0 <= i < self.pipes.len() implies
                #[trigger] self.pipes[i] == (Pipe { x: initial_x(i) as i64, gap_y: gaps[i] })
                && gap_in_range(gaps[i] as int) by {}
        }
    }
}

/// Relies on rand::random_range: a value drawn from the half-open range
/// `lo..hi`, which panics when the range is empty.
#[verifier::external_body]
fn random_in(lo: i64, hi: i64) -> (r: i64)
    requires
        lo < hi,
    ensures
        lo <= r < hi,
{
    rand::random_range(lo..hi)
}

/// Pipes evenly spaced from the right edge of the play area, pipe `i` with
/// gap centre `gaps[i]`.
fn spaced_pipes(gaps: &Vec<i64>) -> (r: Vec<Pipe>)
    requires
        gaps.len() <= i32::MAX,
        forall|i: int| 0 <= i < gaps.len() ==> gap_in_range(#[trigger] gaps[i] as int),
    ensures
        r.len() == gaps.len(),
        pipes_wf(r@),
        forall|i: int| 0 <= i < gaps.len()
            ==> #[trigger] r[i] == (Pipe { x: initial_x(i) as i64, gap_y: gaps[i] }),
{
    let mut r: Vec<Pipe> = Vec::new();
    let mut i: usize = 0;
    let mut x: i64 = WINDOW_WIDTH;
    while i < gaps.len()
        invariant
            i <= gaps.len() <= i32::MAX,
            forall|j: int| 0 <= j < gaps.len() ==> gap_in_range(#[trigger] gaps[j] as int),
            x == initial_x(i as int),
            r.len() == i,
            pipes_wf(r@),
            forall|j: int| 0 <= j < i
                ==> #[trigger] r[j] == (Pipe { x: initial_x(j) as i64, gap_y: gaps[j] }),
        decreases gaps.len() - i,
    {
        assert(gap_in_range(gaps[i as int] as int));
        r.push(Pipe { x, gap_y: gaps[i] });
        i = i + 1;
        x = x + PIPE_SPACING;
    }
    r
}

/// `n` gap centres drawn at random, each within range.
pub fn draw_gaps(n: usize) -> (r: Vec<i64>)
    ensures
        r.len() == n,
        forall|i: int| 0 <= i < n ==> gap_in_range(#[trigger] r[i] as int),
{
    let mut r: Vec<i64> = Vec::new();
    let mut i: usize = 0;
    while i < n
        invariant
            i <= n,
            r.len() == i,
            forall|j: int| 0 <= j < i ==> gap_in_range(#[trigger] r[j] as int),
        decreases n - i,
    {
        r.push(random_in(GAP_MIN, GAP_MAX));
        i = i + 1;
    }
    r
}

} // verus!
