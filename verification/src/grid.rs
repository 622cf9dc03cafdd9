//! The cell grid: toroidal neighbourhood, the life rule, stepping and seeding.
//!
//! The grid a running simulator keeps on the GPU is modelled here as a flat
//! vector of booleans in row-major order, one per cell; the compute shader's
//! per-cell rule is the verified `step` below, so the properties proved of it
//! speak about the state the simulation maintains.

use vstd::prelude::*;
use vstd::arithmetic::div_mod::{
    lemma_fundamental_div_mod, lemma_fundamental_div_mod_converse, lemma_mod_bound,
};
use crate::random::draw_with_ratio;

verus! {

/// The life rule: a live cell survives with two or three live neighbours, a
/// dead cell is born with exactly three, and every other cell is dead after
/// the step.
pub open spec fn next_state(alive: bool, neighbours: int) -> bool {
    if alive {
        neighbours == 2 || neighbours == 3
    } else {
        neighbours == 3
    }
}

/// Toroidal step one cell towards lower coordinates: `0` wraps to `n - 1`.
pub open spec fn wrap_dec(i: int, n: int) -> int {
    if i == 0 {
        n - 1
    } else {
        i - 1
    }
}

/// Toroidal step one cell towards higher coordinates: `n - 1` wraps to `0`.
pub open spec fn wrap_inc(i: int, n: int) -> int {
    if i + 1 == n {
        0
    } else {
        i + 1
    }
}

/// Toroidal neighbour coordinate for an offset `d` of -1, 0 or +1.
pub open spec fn wrap_offset(i: int, d: int, n: int) -> int {
    if d == -1 {
        wrap_dec(i, n)
    } else if d == 1 {
        wrap_inc(i, n)
    } else {
        i
    }
}

/// The cell of a row-major grid of width `w` at column `x`, row `y`.
pub open spec fn cell(g: Seq<bool>, w: int, x: int, y: int) -> bool {
    g[y * w + x]
}

/// 1 when the neighbour of `(x, y)` at offset `(dx, dy)` is alive, else 0.
pub open spec fn neighbour_live(
    g: Seq<bool>,
    w: int,
    h: int,
    x: int,
    y: int,
    dx: int,
    dy: int,
) -> int {
    if cell(g, w, wrap_offset(x, dx, w), wrap_offset(y, dy, h)) {
        1
    } else {
        0
    }
}

/// Number of live cells among the eight toroidal neighbours of `(x, y)`.
pub open spec fn live_neighbours(g: Seq<bool>, w: int, h: int, x: int, y: int) -> int {
    neighbour_live(g, w, h, x, y, -1, -1) + neighbour_live(g, w, h, x, y, 0, -1)
        + neighbour_live(g, w, h, x, y, 1, -1) + neighbour_live(g, w, h, x, y, -1, 0)
        + neighbour_live(g, w, h, x, y, 1, 0) + neighbour_live(g, w, h, x, y, -1, 1)
        + neighbour_live(g, w, h, x, y, 0, 1) + neighbour_live(g, w, h, x, y, 1, 1)
}

/// The grid after one simulation step.
pub open spec fn step_spec(g: Seq<bool>, w: int, h: int) -> Seq<bool> {
    Seq::new((w * h) as nat, |i: int| next_state(g[i], live_neighbours(g, w, h, i % w, i / w)))
}

/// The grid after `n` simulation steps.
pub open spec fn step_n_spec(g: Seq<bool>, w: int, h: int, n: nat) -> Seq<bool>
    decreases n,
{
    if n == 0 {
        g
    } else {
        step_spec(step_n_spec(g, w, h, (n - 1) as nat), w, h)
    }
}

/// Every cell of the grid is dead.
pub open spec fn all_dead(g: Seq<bool>) -> bool {
    forall|i: int| 0 <= i < g.len() ==> !g[i]
}

/// A row-major index stays inside a `w` by `h` grid.
pub proof fn lemma_index_bound(x: int, y: int, w: int, h: int)
    requires
        0 <= x < w,
        0 <= y < h,
    ensures
        0 <= y * w + x < w * h,
{
    assert(y * w + x < w * h) by (nonlinear_arith)
        requires
            0 <= x < w,
            0 <= y < h,
    ;
    assert(y * w + x >= 0) by (nonlinear_arith)
        requires
            0 <= x,
            0 <= y,
            0 < w,
    ;
}

/// Row and column are recovered from a row-major index by division and
/// remainder.
pub proof fn lemma_index_roundtrip(x: int, y: int, w: int)
    requires
        0 <= x < w,
        0 <= y,
    ensures
        (y * w + x) % w == x,
        (y * w + x) / w == y,
{
    lemma_fundamental_div_mod_converse(y * w + x, w, y, x);
}

/// Any index into the grid lies under a row below `h` and a column below `w`.
pub proof fn lemma_cell_coords(i: int, w: int, h: int)
    requires
        0 < w,
        0 < h,
        0 <= i < w * h,
    ensures
        0 <= i % w < w,
        0 <= i / w < h,
{
    lemma_mod_bound(i, w);
    lemma_fundamental_div_mod(i, w);
    let q = i / w;
    if q < 0 {
        assert(w * q <= w * -1) by (nonlinear_arith)
            requires
                0 < w,
                q <= -1,
        ;
        assert(false);
    }
    if q >= h {
        assert(w * q >= w * h) by (nonlinear_arith)
            requires
                0 < w,
                q >= h,
        ;
        assert(false);
    }
}

/// The grid of a running simulation: a row-major vector of one liveness flag
/// per cell, together with the immutable dimensions.
pub struct Grid {
    pub width: usize,
    pub height: usize,
    pub cells: Vec<bool>,
}

/// Toroidal step towards lower coordinates inside `0 .. n`.
pub fn prev_coord(i: usize, n: usize) -> (r: usize)
    requires
        i < n,
    ensures
        r < n,
        r as int == wrap_dec(i as int, n as int),
{
    if i == 0 {
        n - 1
    } else {
        i - 1
    }
}

/// Toroidal step towards higher coordinates inside `0 .. n`.
pub fn next_coord(i: usize, n: usize) -> (r: usize)
    requires
        i < n,
    ensures
        r < n,
        r as int == wrap_inc(i as int, n as int),
{
    if i + 1 == n {
        0
    } else {
        i + 1
    }
}

impl Grid {
    /// The cell vector covers exactly the advertised dimensions.
    pub open spec fn wf(self) -> bool {
        self.cells@.len() == self.width * self.height
    }

    /// The immutable (width, height) pair both pipeline stages read.
    pub fn dimensions(&self) -> (r: (usize, usize))
        ensures
            r.0 == self.width,
            r.1 == self.height,
    {
        (self.width, self.height)
    }

    /// Number of cells, and hence of drawn instances.
    pub fn cell_count(&self) -> (r: usize)
        requires
            self.wf(),
        ensures
            r == self.width * self.height,
    {
        self.cells.len()
    }

    /// The state of the cell at column `x`, row `y`.
    pub fn cell_at(&self, x: usize, y: usize) -> (r: bool)
        requires
            self.wf(),
            x < self.width,
            y < self.height,
        ensures
            r == cell(self.cells@, self.width as int, x as int, y as int),
    {
        // The exec length bounds width * height by usize::MAX, so the
        // row-major index below cannot overflow.
        let total: usize = self.cells.len();
        proof {
            lemma_index_bound(x as int, y as int, self.width as int, self.height as int);
            assert(y * self.width + x < total);
        }
        self.cells[y * self.width + x]
    }

    /// Count the live cells among the eight toroidal neighbours of `(x, y)`.
    pub fn live_neighbour_count(&self, x: usize, y: usize) -> (r: u8)
        requires
            self.wf(),
            x < self.width,
            y < self.height,
        ensures
            r as int == live_neighbours(
                self.cells@,
                self.width as int,
                self.height as int,
                x as int,
                y as int,
            ),
            r <= 8,
    {
        let xl = prev_coord(x, self.width);
        let xr = next_coord(x, self.width);
        let yl = prev_coord(y, self.height);
        let yr = next_coord(y, self.height);
        let mut count: u8 = 0;
        if self.cell_at(xl, yl) {
            count += 1;
        }
        if self.cell_at(x, yl) {
            count += 1;
        }
        if self.cell_at(xr, yl) {
            count += 1;
        }
        if self.cell_at(xl, y) {
            count += 1;
        }
        if self.cell_at(xr, y) {
            count += 1;
        }
        if self.cell_at(xl, yr) {
            count += 1;
        }
        if self.cell_at(x, yr) {
            count += 1;
        }
        if self.cell_at(xr, yr) {
            count += 1;
        }
        count
    }

    /// One simulation step: every cell is visited exactly once and the next
    /// grid holds the life rule's outcome for it.
    pub fn step(&self) -> (r: Grid)
        requires
            self.wf(),
        ensures
            r.wf(),
            r.width == self.width,
            r.height == self.height,
            r.cells@ == step_spec(self.cells@, self.width as int, self.height as int),
    {
        let w = self.width;
        let h = self.height;
        let ghost target = step_spec(self.cells@, w as int, h as int);
        let mut out: Vec<bool> = Vec::new();
        let mut y: usize = 0;
        while y < h
            invariant
                self.wf(),
                w == self.width,
                h == self.height,
                y <= h,
                out@.len() == y * w,
                target == step_spec(self.cells@, w as int, h as int),
                target.len() == w * h,
                forall|i: int| 0 <= i < out@.len() ==> out@[i] == target[i],
            decreases h - y,
        {
            let mut x: usize = 0;
            while x < w
                invariant
                    self.wf(),
                    w == self.width,
                    h == self.height,
                    y < h,
                    x <= w,
                    out@.len() == y * w + x,
                    target == step_spec(self.cells@, w as int, h as int),
                    target.len() == w * h,
                    forall|i: int| 0 <= i < out@.len() ==> out@[i] == target[i],
                decreases w - x,
            {
                proof {
                    lemma_index_bound(x as int, y as int, w as int, h as int);
                    lemma_index_roundtrip(x as int, y as int, w as int);
                }
                let n = self.live_neighbour_count(x, y);
                let alive = self.cell_at(x, y);
                let next = if alive {
                    n == 2 || n == 3
                } else {
                    n == 3
                };
                proof {
                    assert(target[(y * w + x) as int] == next);
                }
                out.push(next);
                x += 1;
            }
            proof {
                assert((y + 1) * w == y * w + w) by (nonlinear_arith);
            }
            y += 1;
        }
        proof {
            assert(h * w == w * h) by (nonlinear_arith);
            assert(out@ =~= target);
        }
        Grid { width: w, height: h, cells: out }
    }

    /// Apply `n` consecutive simulation steps.
    pub fn step_n(self, n: u64) -> (r: Grid)
        requires
            self.wf(),
        ensures
            r.wf(),
            r.width == self.width,
            r.height == self.height,
            r.cells@ == step_n_spec(
                self.cells@,
                self.width as int,
                self.height as int,
                n as nat,
            ),
    {
        let ghost g0 = self.cells@;
        let mut cur = self;
        let mut i: u64 = 0;
        while i < n
            invariant
                i <= n,
                cur.wf(),
                cur.width == self.width,
                cur.height == self.height,
                cur.cells@ == step_n_spec(g0, self.width as int, self.height as int, i as nat),
                g0 == self.cells@,
            decreases n - i,
        {
            cur = cur.step();
            i += 1;
        }
        cur
    }
}

/// The toroidal wrap is arithmetic modulo the grid extent: stepping down from
/// column 0 lands on `n - 1` and stepping up from `n - 1` lands on 0, so the
/// corner cell `(0, 0)` has its diagonal neighbour at `(w - 1, h - 1)`.
pub proof fn lemma_wrap_is_modular(i: int, n: int)
    requires
        0 <= i < n,
    ensures
        wrap_dec(i, n) == (i - 1 + n) % n,
        wrap_inc(i, n) == (i + 1) % n,
        0 <= wrap_dec(i, n) < n,
        0 <= wrap_inc(i, n) < n,
{
    if i == 0 {
        lemma_fundamental_div_mod_converse(n - 1, n, 0, n - 1);
    } else {
        lemma_fundamental_div_mod_converse(i - 1 + n, n, 1, i - 1);
    }
    if i + 1 == n {
        lemma_fundamental_div_mod_converse(i + 1, n, 1, 0);
    } else {
        lemma_fundamental_div_mod_converse(i + 1, n, 0, i + 1);
    }
}

/// The corner cell's neighbourhood wraps to the opposite edges: its
/// up-left, left and up neighbours are the cells at `(w - 1, h - 1)`,
/// `(w - 1, 0)` and `(0, h - 1)`.
pub proof fn lemma_corner_neighbours_wrap(g: Seq<bool>, w: int, h: int)
    requires
        2 <= w,
        2 <= h,
    ensures
        neighbour_live(g, w, h, 0, 0, -1, -1) == (if cell(g, w, w - 1, h - 1) {
            1int
        } else {
            0int
        }),
        neighbour_live(g, w, h, 0, 0, -1, 0) == (if cell(g, w, w - 1, 0) {
            1int
        } else {
            0int
        }),
        neighbour_live(g, w, h, 0, 0, 0, -1) == (if cell(g, w, 0, h - 1) {
            1int
        } else {
            0int
        }),
{
}

/// Underpopulation: a live cell with no live neighbours is dead after one
/// step.
pub proof fn lemma_underpopulation(g: Seq<bool>, w: int, h: int, x: int, y: int)
    requires
        g.len() == w * h,
        0 <= x < w,
        0 <= y < h,
        cell(g, w, x, y),
        live_neighbours(g, w, h, x, y) == 0,
    ensures
        !cell(step_spec(g, w, h), w, x, y),
{
    lemma_index_bound(x, y, w, h);
    lemma_index_roundtrip(x, y, w);
}

/// Birth rule: a dead cell with exactly three live neighbours is alive after
/// one step; with two or with four it stays dead.
pub proof fn lemma_birth_rule(g: Seq<bool>, w: int, h: int, x: int, y: int)
    requires
        g.len() == w * h,
        0 <= x < w,
        0 <= y < h,
        !cell(g, w, x, y),
    ensures
        live_neighbours(g, w, h, x, y) == 3 ==> cell(step_spec(g, w, h), w, x, y),
        live_neighbours(g, w, h, x, y) == 2 ==> !cell(step_spec(g, w, h), w, x, y),
        live_neighbours(g, w, h, x, y) == 4 ==> !cell(step_spec(g, w, h), w, x, y),
{
    lemma_index_bound(x, y, w, h);
    lemma_index_roundtrip(x, y, w);
}

/// In an all-dead grid every cell has zero live neighbours.
proof fn lemma_dead_cell_count(g: Seq<bool>, w: int, h: int, x: int, y: int)
    requires
        g.len() == w * h,
        all_dead(g),
        0 <= x < w,
        0 <= y < h,
    ensures
        live_neighbours(g, w, h, x, y) == 0,
{
    let xl = wrap_dec(x, w);
    let xr = wrap_inc(x, w);
    let yl = wrap_dec(y, h);
    let yr = wrap_inc(y, h);
    lemma_index_bound(xl, yl, w, h);
    lemma_index_bound(x, yl, w, h);
    lemma_index_bound(xr, yl, w, h);
    lemma_index_bound(xl, y, w, h);
    lemma_index_bound(xr, y, w, h);
    lemma_index_bound(xl, yr, w, h);
    lemma_index_bound(x, yr, w, h);
    lemma_index_bound(xr, yr, w, h);
}

/// An all-dead grid is unchanged by one simulation step.
pub proof fn lemma_dead_grid_stays_dead(g: Seq<bool>, w: int, h: int)
    requires
        0 < w,
        0 < h,
        g.len() == w * h,
        all_dead(g),
    ensures
        all_dead(step_spec(g, w, h)),
        step_spec(g, w, h) == g,
{
    let s = step_spec(g, w, h);
    assert forall|i: int| 0 <= i < s.len() implies !s[i] by {
        lemma_cell_coords(i, w, h);
        lemma_dead_cell_count(g, w, h, i % w, i / w);
    }
    assert(s =~= g);
}

/// An all-dead grid stays all-dead after any number of steps.
pub proof fn lemma_dead_grid_stays_dead_n(g: Seq<bool>, w: int, h: int, n: nat)
    requires
        0 < w,
        0 < h,
        g.len() == w * h,
        all_dead(g),
    ensures
        step_n_spec(g, w, h, n) == g,
    decreases n,
{
    if n > 0 {
        lemma_dead_grid_stays_dead_n(g, w, h, (n - 1) as nat);
        lemma_dead_grid_stays_dead(g, w, h);
    }
}

/// 1 for a true flag, 0 for a false one.
pub open spec fn b2i(b: bool) -> int {
    if b {
        1
    } else {
        0
    }
}

/// Whether coordinate `v` lies on the 2-cell band starting at `b`.
pub open spec fn on_band(v: int, b: int) -> bool {
    v == b || v == b + 1
}

/// A cell of the 2-by-2 block whose lowest corner is `(bx, by)`.
pub open spec fn in_block(x: int, y: int, bx: int, by: int) -> bool {
    on_band(x, bx) && on_band(y, by)
}

/// The `w` by `h` grid holding exactly one live 2-by-2 block at `(bx, by)`.
pub open spec fn block_grid(w: int, h: int, bx: int, by: int) -> Seq<bool> {
    Seq::new((w * h) as nat, |i: int| in_block(i % w, i / w, bx, by))
}

/// How many of the three columns of a cell's neighbourhood window around
/// coordinate `v` lie on the block's band.
pub open spec fn band_hits(v: int, n: int, b: int) -> int {
    b2i(on_band(wrap_dec(v, n), b)) + b2i(on_band(v, b)) + b2i(on_band(wrap_inc(v, n), b))
}

/// On an extent of at least 4 the neighbourhood window meets the 2-cell band
/// twice from on the band and at most once from off it.
proof fn lemma_band_hits(v: int, n: int, b: int)
    requires
        4 <= n,
        0 <= v < n,
        0 <= b,
        b + 2 <= n,
    ensures
        on_band(v, b) ==> band_hits(v, n, b) == 2,
        !on_band(v, b) ==> band_hits(v, n, b) <= 1,
        0 <= band_hits(v, n, b) <= 2,
{
}

/// Reading the block grid at in-range coordinates is the block test.
proof fn lemma_block_cell(w: int, h: int, bx: int, by: int, x: int, y: int)
    requires
        0 < w,
        0 < h,
        0 <= x < w,
        0 <= y < h,
    ensures
        cell(block_grid(w, h, bx, by), w, x, y) == in_block(x, y, bx, by),
{
    lemma_index_bound(x, y, w, h);
    lemma_index_roundtrip(x, y, w);
}

/// In the block grid, a cell's live-neighbour count is the product of its
/// column and row band hits, less one when the cell itself is in the block.
proof fn lemma_block_neighbours(w: int, h: int, bx: int, by: int, x: int, y: int)
    requires
        4 <= w,
        4 <= h,
        0 <= bx,
        bx + 2 <= w,
        0 <= by,
        by + 2 <= h,
        0 <= x < w,
        0 <= y < h,
    ensures
        live_neighbours(block_grid(w, h, bx, by), w, h, x, y) == band_hits(x, w, bx) * band_hits(
            y,
            h,
            by,
        ) - b2i(in_block(x, y, bx, by)),
{
    let g = block_grid(w, h, bx, by);
    let xl = wrap_dec(x, w);
    let xr = wrap_inc(x, w);
    let yl = wrap_dec(y, h);
    let yr = wrap_inc(y, h);
    lemma_block_cell(w, h, bx, by, xl, yl);
    lemma_block_cell(w, h, bx, by, x, yl);
    lemma_block_cell(w, h, bx, by, xr, yl);
    lemma_block_cell(w, h, bx, by, xl, y);
    lemma_block_cell(w, h, bx, by, xr, y);
    lemma_block_cell(w, h, bx, by, xl, yr);
    lemma_block_cell(w, h, bx, by, x, yr);
    lemma_block_cell(w, h, bx, by, xr, yr);
    let a = b2i(on_band(xl, bx));
    let b = b2i(on_band(x, bx));
    let c = b2i(on_band(xr, bx));
    let d = b2i(on_band(yl, by));
    let e = b2i(on_band(y, by));
    let f = b2i(on_band(yr, by));
    assert(neighbour_live(g, w, h, x, y, -1, -1) == a * d);
    assert(neighbour_live(g, w, h, x, y, 0, -1) == b * d);
    assert(neighbour_live(g, w, h, x, y, 1, -1) == c * d);
    assert(neighbour_live(g, w, h, x, y, -1, 0) == a * e);
    assert(neighbour_live(g, w, h, x, y, 1, 0) == c * e);
    assert(neighbour_live(g, w, h, x, y, -1, 1) == a * f);
    assert(neighbour_live(g, w, h, x, y, 0, 1) == b * f);
    assert(neighbour_live(g, w, h, x, y, 1, 1) == c * f);
    assert(b2i(in_block(x, y, bx, by)) == b * e);
    assert((a + b + c) * (d + e + f) == a * d + b * d + c * d + a * e + b * e + c * e + a * f + b
        * f + c * f) by (nonlinear_arith);
}

/// A 2-by-2 live block with everything else dead is a still life: one step —
/// and hence any two consecutive steps — leaves the grid unchanged, provided
/// the grid is at least 4 by 4 so the block cannot touch itself around the
/// torus.
pub proof fn lemma_block_still_life(w: int, h: int, bx: int, by: int)
    requires
        4 <= w,
        4 <= h,
        0 <= bx,
        bx + 2 <= w,
        0 <= by,
        by + 2 <= h,
    ensures
        step_spec(block_grid(w, h, bx, by), w, h) == block_grid(w, h, bx, by),
        step_n_spec(block_grid(w, h, bx, by), w, h, 2) == block_grid(w, h, bx, by),
{
    let g = block_grid(w, h, bx, by);
    let s = step_spec(g, w, h);
    assert forall|i: int| 0 <= i < s.len() implies s[i] == g[i] by {
        lemma_cell_coords(i, w, h);
        let x = i % w;
        let y = i / w;
        lemma_block_neighbours(w, h, bx, by, x, y);
        lemma_band_hits(x, w, bx);
        lemma_band_hits(y, h, by);
        let cx = band_hits(x, w, bx);
        let cy = band_hits(y, h, by);
        if on_band(x, bx) && on_band(y, by) {
            assert(cx * cy == 4) by (nonlinear_arith)
                requires
                    cx == 2,
                    cy == 2,
            ;
            assert(live_neighbours(g, w, h, x, y) == 3);
        } else {
            assert(cx * cy <= 2) by (nonlinear_arith)
                requires
                    0 <= cx <= 2,
                    0 <= cy <= 2,
                    cx <= 1 || cy <= 1,
            ;
        }
    }
    assert(s =~= g);
    assert(step_n_spec(g, w, h, 2) == step_spec(step_n_spec(g, w, h, 1), w, h));
    assert(step_n_spec(g, w, h, 1) == step_spec(step_n_spec(g, w, h, 0), w, h));
}

/// Allocate a `width` by `height` grid and seed every cell independently with
/// probability `alive_numerator / alive_denominator` of being alive.
pub fn seed_grid(
    width: usize,
    height: usize,
    alive_numerator: u32,
    alive_denominator: u32,
    rng: &mut rand::rngs::ThreadRng,
) -> (r: Grid)
    requires
        0 < alive_denominator,
        alive_numerator <= alive_denominator,
        width * height <= usize::MAX,
    ensures
        r.wf(),
        r.width == width,
        r.height == height,
        alive_numerator == 0 ==> all_dead(r.cells@),
        alive_numerator == alive_denominator ==> (forall|i: int|
            0 <= i < r.cells@.len() ==> r.cells@[i]),
{
    let total = width * height;
    let mut cells: Vec<bool> = Vec::new();
    let mut i: usize = 0;
    while i < total
        invariant
            i <= total,
            cells@.len() == i,
            0 < alive_denominator,
            alive_numerator <= alive_denominator,
            alive_numerator == 0 ==> all_dead(cells@),
            alive_numerator == alive_denominator ==> (forall|j: int|
                0 <= j < cells@.len() ==> cells@[j]),
        decreases total - i,
    {
        let alive = draw_with_ratio(rng, alive_numerator, alive_denominator);
        cells.push(alive);
        i += 1;
    }
    Grid { width, height, cells }
}

} // verus!
