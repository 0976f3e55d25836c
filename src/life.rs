//! The cellular automaton: a toroidal grid of cells kept in two pages, one of
//! them current and one used as scratch while the next generation is computed.

use vstd::prelude::*;
use crate::rng::{advance, coin, xorshift, Rng};

verus! {

/// The state of one cell.
#[derive(Debug, Clone, Copy, PartialEq, Eq, Structural)]
pub enum LifeCell {
    Dead,
    Alive,
}

/// A grid of `width` by `height` cells whose edges wrap around.
pub struct Life {
    width: usize,
    height: usize,
    /// The current generation, one `Vec` per row.
    page: Vec<Vec<LifeCell>>,
    /// Scratch space of the same shape, written by `step`.
    scratch: Vec<Vec<LifeCell>>,
}

/// True when `rows` holds `height` rows of `width` cells each.
pub open spec fn has_shape(rows: Seq<Vec<LifeCell>>, width: nat, height: nat) -> bool {
    &&& rows.len() == height
    &&& forall|y: int| 0 <= y < height ==> (#[trigger] rows[y])@.len() == width
}

/// 1 for a live cell, 0 for a dead one.
pub open spec fn weight(c: LifeCell) -> int {
    match c {
        LifeCell::Alive => 1,
        LifeCell::Dead => 0,
    }
}

/// Coordinate `i` wrapped onto `0..n`, for `i` at most one step outside it.
#[verifier::opaque]
pub open spec fn wrap(i: int, n: int) -> int {
    (i + n) % n
}

/// Conway's rule: a live cell survives with 2 or 3 live neighbours, a dead
/// cell comes alive with exactly 3; every other cell is dead.
pub open spec fn next_cell(c: LifeCell, neighbors: int) -> LifeCell {
    match c {
        LifeCell::Alive => if neighbors == 2 || neighbors == 3 {
            LifeCell::Alive
        } else {
            LifeCell::Dead
        },
        LifeCell::Dead => if neighbors == 3 {
            LifeCell::Alive
        } else {
            LifeCell::Dead
        },
    }
}

proof fn lemma_wrap(i: int, n: int)
    requires
        n > 0,
        -1 <= i <= n,
    ensures
        wrap(i, n) == if i < 0 {
            n - 1
        } else if i == n {
            0
        } else {
            i
        },
{
    reveal(wrap);
    if i < 0 {
        assert((i + n) % n == n - 1) by (nonlinear_arith)
            requires i == -1, n > 0;
    } else if i == n {
        assert((i + n) % n == 0) by (nonlinear_arith)
            requires i == n, n > 0;
    } else {
        assert((i + n) % n == i) by (nonlinear_arith)
            requires 0 <= i < n, n > 0;
    }
}

impl View for Life {
    type V = Seq<Seq<LifeCell>>;

    /// The current generation, row by row.
    closed spec fn view(&self) -> Seq<Seq<LifeCell>> {
        self.page@.map_values(|row: Vec<LifeCell>| row@)
    }
}

impl Life {
    /// The number of columns.
    pub closed spec fn spec_width(&self) -> nat {
        self.width as nat
    }

    /// The number of rows.
    pub closed spec fn spec_height(&self) -> nat {
        self.height as nat
    }

    /// Both pages have the grid's shape.
    pub closed spec fn wf(&self) -> bool {
        &&& has_shape(self.page@, self.width as nat, self.height as nat)
        &&& has_shape(self.scratch@, self.width as nat, self.height as nat)
    }

    /// True when (x, y) names a cell of the grid.
    pub open spec fn in_bounds(&self, x: int, y: int) -> bool {
        0 <= x < self.spec_width() && 0 <= y < self.spec_height()
    }

    /// The cell at (x, y) of the current generation; `Dead` outside the grid.
    pub open spec fn cell(&self, x: int, y: int) -> LifeCell {
        if self.in_bounds(x, y) {
            self@[y][x]
        } else {
            LifeCell::Dead
        }
    }

    /// Every cell of the grid is dead.
    pub open spec fn all_dead(&self) -> bool {
        forall|x: int, y: int| #[trigger] self.cell(x, y) == LifeCell::Dead
    }

    /// Whether the neighbour of (x, y) at offset (dx, dy), wrapped around
    /// both edges, is alive: 1 if so, else 0.
    #[verifier::opaque]
    pub open spec fn neighbor(&self, x: int, y: int, dx: int, dy: int) -> int {
        weight(
            self.cell(
                wrap(x + dx, self.spec_width() as int),
                wrap(y + dy, self.spec_height() as int),
            ),
        )
    }

    /// The number of live cells among the eight around (x, y) on the torus.
    pub open spec fn live_neighbors(&self, x: int, y: int) -> int {
        self.neighbor(x, y, -1, -1) + self.neighbor(x, y, 0, -1) + self.neighbor(x, y, 1, -1)
            + self.neighbor(x, y, -1, 0) + self.neighbor(x, y, 1, 0)
            + self.neighbor(x, y, -1, 1) + self.neighbor(x, y, 0, 1)
            + self.neighbor(x, y, 1, 1)
    }

    /// `next` holds the generation that follows this one: same shape, and
    /// each cell given by Conway's rule on this generation.
    pub open spec fn is_successor(&self, next: &Life) -> bool {
        &&& next.spec_width() == self.spec_width()
        &&& next.spec_height() == self.spec_height()
        &&& forall|x: int, y: int|
            self.in_bounds(x, y) ==> #[trigger] next.cell(x, y) == next_cell(
                self.cell(x, y),
                self.live_neighbors(x, y),
            )
    }

    /// `next` is this grid with cell (x, y) set to `c` where (x, y) lies in
    /// the grid, and otherwise the same grid.
    pub open spec fn is_edit(&self, next: &Life, x: int, y: int, c: LifeCell) -> bool {
        &&& next.wf()
        &&& next.spec_width() == self.spec_width()
        &&& next.spec_height() == self.spec_height()
        &&& forall|i: int, j: int|
            #[trigger] next.cell(i, j) == if i == x && j == y && self.in_bounds(i, j) {
                c
            } else {
                self.cell(i, j)
            }
    }

    /// `next` is this grid cut or extended to `width` by `height` cells: cells
    /// in both grids keep their state, and the others are dead.
    pub open spec fn is_resize(&self, next: &Life, width: int, height: int) -> bool {
        &&& next.wf()
        &&& next.spec_width() == width
        &&& next.spec_height() == height
        &&& forall|i: int, j: int| #[trigger] next.cell(i, j) == self.cell(i, j) || !next.in_bounds(i, j)
    }

    /// `next` is this grid with the cells of row `y` from column `x` to
    /// column `x + count - 1` made alive, as far as they lie in the grid.
    pub open spec fn is_line(&self, next: &Life, x: int, y: int, count: int) -> bool {
        &&& next.wf()
        &&& next.spec_width() == self.spec_width()
        &&& next.spec_height() == self.spec_height()
        &&& forall|i: int, j: int|
            #[trigger] next.cell(i, j) == if j == y && x <= i < x + count && self.in_bounds(i, j) {
                LifeCell::Alive
            } else {
                self.cell(i, j)
            }
    }

    /// `next` is this grid with every cell dead.
    pub open spec fn is_cleared(&self, next: &Life) -> bool {
        &&& next.wf()
        &&& next.spec_width() == self.spec_width()
        &&& next.spec_height() == self.spec_height()
        &&& next.all_dead()
    }

    /// `next` is this grid with every cell given its coin flip from a
    /// generator that started in state `seed`.
    pub open spec fn is_randomized(&self, next: &Life, seed: u64) -> bool {
        &&& next.wf()
        &&& next.spec_width() == self.spec_width()
        &&& next.spec_height() == self.spec_height()
        &&& next.is_random(seed)
    }

    /// Every cell holds its coin flip from a generator that started in state
    /// `seed`.
    pub open spec fn is_random(&self, seed: u64) -> bool {
        &&& self.wf()
        &&& forall|i: int, j: int|
            self.in_bounds(i, j) ==> #[trigger] self.cell(i, j) == random_cell(
                seed,
                self.spec_width(),
                i,
                j,
            )
    }

    proof fn lemma_neighbor(&self, x: int, y: int, dx: int, dy: int, i: int, j: int)
        requires
            self.in_bounds(x, y),
            -1 <= dx <= 1,
            -1 <= dy <= 1,
            i == if x + dx < 0 {
                self.spec_width() - 1
            } else if x + dx == self.spec_width() {
                0
            } else {
                x + dx
            },
            j == if y + dy < 0 {
                self.spec_height() - 1
            } else if y + dy == self.spec_height() {
                0
            } else {
                y + dy
            },
        ensures
            self.neighbor(x, y, dx, dy) == weight(self.cell(i, j)),
    {
        reveal(Life::neighbor);
        lemma_wrap(x + dx, self.spec_width() as int);
        lemma_wrap(y + dy, self.spec_height() as int);
    }

    proof fn lemma_same_neighbors(a: Life, b: Life, x: int, y: int)
        requires
            a@ == b@,
            a.spec_width() == b.spec_width(),
            a.spec_height() == b.spec_height(),
        ensures
            a.live_neighbors(x, y) == b.live_neighbors(x, y),
    {
        reveal(Life::neighbor);
    }

    proof fn lemma_cell(&self, x: int, y: int)
        requires
            self.wf(),
            self.in_bounds(x, y),
        ensures
            self.cell(x, y) == self.page@[y]@[x],
            self@[y].len() == self.width,
    {
    }

    /// The weight of the cell in row `y`, column `x`, read directly.
    fn weight_at(&self, x: usize, y: usize) -> (r: u8)
        requires
            self.wf(),
            self.in_bounds(x as int, y as int),
        ensures
            r == weight(self.cell(x as int, y as int)),
    {
        match self.page[y][x] {
            LifeCell::Alive => 1,
            LifeCell::Dead => 0,
        }
    }

    /// The number of live neighbours of (x, y), wrapping around the edges.
    #[verifier::spinoff_prover]
    #[verifier::rlimit(40)]
    fn count_neighbors(&self, x: usize, y: usize) -> (r: u8)
        requires
            self.wf(),
            self.in_bounds(x as int, y as int),
        ensures
            r == self.live_neighbors(x as int, y as int),
    {
        let w = self.width;
        let h = self.height;
        let xl = if x == 0 { w - 1 } else { x - 1 };
        let xr = if x + 1 == w { 0 } else { x + 1 };
        let yu = if y == 0 { h - 1 } else { y - 1 };
        let yd = if y + 1 == h { 0 } else { y + 1 };
        let a = self.weight_at(xl, yu);
        let b = self.weight_at(x, yu);
        let c = self.weight_at(xr, yu);
        let d = self.weight_at(xl, y);
        let e = self.weight_at(xr, y);
        let f = self.weight_at(xl, yd);
        let g = self.weight_at(x, yd);
        let k = self.weight_at(xr, yd);
        proof {
            self.lemma_neighbor(x as int, y as int, -1, -1, xl as int, yu as int);
            self.lemma_neighbor(x as int, y as int, 0, -1, x as int, yu as int);
            self.lemma_neighbor(x as int, y as int, 1, -1, xr as int, yu as int);
            self.lemma_neighbor(x as int, y as int, -1, 0, xl as int, y as int);
            self.lemma_neighbor(x as int, y as int, 1, 0, xr as int, y as int);
            self.lemma_neighbor(x as int, y as int, -1, 1, xl as int, yd as int);
            self.lemma_neighbor(x as int, y as int, 0, 1, x as int, yd as int);
            self.lemma_neighbor(x as int, y as int, 1, 1, xr as int, yd as int);
        }
        a + b + c + d + e + f + g + k
    }

    /// Advances one generation: computes it into the scratch page from the
    /// current one, then makes the scratch page current.
    pub fn step(&mut self)
        requires
            old(self).wf(),
        ensures
            final(self).wf(),
            old(self).is_successor(final(self)),
    {
        let mut y: usize = 0;
        while y < self.height
            invariant
                self.wf(),
                self.width == old(self).width,
                self.height == old(self).height,
                self.page == old(self).page,
                old(self).wf(),
                y <= self.height,
                forall|i: int, j: int|
                    0 <= j < y && 0 <= i < self.width ==> #[trigger] self.scratch@[j]@[i]
                        == next_cell(old(self).cell(i, j), old(self).live_neighbors(i, j)),
            decreases self.height - y,
        {
            let mut x: usize = 0;
            while x < self.width
                invariant
                    self.wf(),
                    self.width == old(self).width,
                    self.height == old(self).height,
                    self.page == old(self).page,
                    old(self).wf(),
                    y < self.height,
                    x <= self.width,
                    forall|i: int, j: int|
                        (0 <= j < y && 0 <= i < self.width) || (j == y && 0 <= i < x)
                            ==> #[trigger] self.scratch@[j]@[i]
                        == next_cell(old(self).cell(i, j), old(self).live_neighbors(i, j)),
                decreases self.width - x,
            {
                let n = self.count_neighbors(x, y);
                let c = self.page[y][x];
                let next = if n == 3 || (n == 2 && c == LifeCell::Alive) {
                    LifeCell::Alive
                } else {
                    LifeCell::Dead
                };
                proof {
                    old(self).lemma_cell(x as int, y as int);
                    Self::lemma_same_neighbors(*self, *old(self), x as int, y as int);
                    assert(next == next_cell(old(self).cell(x as int, y as int), old(self).live_neighbors(x as int, y as int)));
                }
                self.scratch[y][x] = next;
                x = x + 1;
            }
            y = y + 1;
        }
        std::mem::swap(&mut self.page, &mut self.scratch);
        proof {
            assert forall|x: int, y: int| old(self).in_bounds(x, y) implies
                #[trigger] self.cell(x, y) == next_cell(old(self).cell(x, y), old(self).live_neighbors(x, y)) by {
                self.lemma_cell(x, y);
            }
        }
    }

    /// An empty grid of zero by zero cells.
    pub fn new() -> (r: Self)
        ensures
            r.wf(),
            r.spec_width() == 0,
            r.spec_height() == 0,
    {
        Life { width: 0, height: 0, page: Vec::new(), scratch: Vec::new() }
    }

    /// Replaces both pages with `width` by `height` dead cells.
    pub fn init(&mut self, width: usize, height: usize)
        ensures
            final(self).wf(),
            final(self).spec_width() == width,
            final(self).spec_height() == height,
            final(self).all_dead(),
    {
        let page = Self::dead_rows(width, height);
        let scratch = Self::dead_rows(width, height);
        self.width = width;
        self.height = height;
        self.page = page;
        self.scratch = scratch;
    }

    /// `height` rows of `width` dead cells.
    fn dead_rows(width: usize, height: usize) -> (r: Vec<Vec<LifeCell>>)
        ensures
            has_shape(r@, width as nat, height as nat),
            forall|x: int, y: int|
                0 <= y < height && 0 <= x < width ==> #[trigger] r@[y]@[x] == LifeCell::Dead,
    {
        let mut rows: Vec<Vec<LifeCell>> = Vec::new();
        let mut i: usize = 0;
        while i < height
            invariant
                i <= height,
                has_shape(rows@, width as nat, i as nat),
                forall|x: int, y: int|
                    0 <= y < i && 0 <= x < width ==> #[trigger] rows@[y]@[x] == LifeCell::Dead,
            decreases height - i,
        {
            let row = vec![LifeCell::Dead; width];
            rows.push(row);
            i = i + 1;
        }
        rows
    }

    /// The number of columns.
    pub fn get_width(&self) -> (r: usize)
        ensures
            r == self.spec_width(),
    {
        self.width
    }

    /// The number of rows.
    pub fn get_height(&self) -> (r: usize)
        ensures
            r == self.spec_height(),
    {
        self.height
    }

    /// The cell at (x, y), or `Dead` where (x, y) lies outside the grid.
    pub fn get_cell(&self, x: usize, y: usize) -> (r: LifeCell)
        requires
            self.wf(),
        ensures
            r == self.cell(x as int, y as int),
    {
        if x < self.width && y < self.height {
            self.page[y][x]
        } else {
            LifeCell::Dead
        }
    }

    /// Sets the cell at (x, y); does nothing where (x, y) lies outside the grid.
    pub fn set_cell(&mut self, x: usize, y: usize, state: LifeCell)
        requires
            old(self).wf(),
        ensures
            old(self).is_edit(final(self), x as int, y as int, state),
    {
        if x < self.width && y < self.height {
            self.page[y][x] = state;
        }
    }

    /// Flips the cell at (x, y) between `Dead` and `Alive`; does nothing where
    /// (x, y) lies outside the grid.
    pub fn toggle(&mut self, x: usize, y: usize)
        requires
            old(self).wf(),
        ensures
            old(self).is_edit(final(self), x as int, y as int, flipped(old(self).cell(x as int, y as int))),
    {
        let c = self.get_cell(x, y);
        self.set_cell(x, y, flipped_cell(c));
    }

    /// Makes every cell of the current generation dead.
    pub fn clear(&mut self)
        requires
            old(self).wf(),
        ensures
            old(self).is_cleared(final(self)),
    {
        let mut y: usize = 0;
        while y < self.height
            invariant
                self.wf(),
                self.width == old(self).width,
                self.height == old(self).height,
                y <= self.height,
                forall|i: int, j: int|
                    0 <= j < y && 0 <= i < self.width ==> #[trigger] self.page@[j]@[i] == LifeCell::Dead,
            decreases self.height - y,
        {
            let mut x: usize = 0;
            while x < self.width
                invariant
                    self.wf(),
                    self.width == old(self).width,
                    self.height == old(self).height,
                    y < self.height,
                    x <= self.width,
                    forall|i: int, j: int|
                        (0 <= j < y && 0 <= i < self.width) || (j == y && 0 <= i < x)
                            ==> #[trigger] self.page@[j]@[i] == LifeCell::Dead,
                decreases self.width - x,
            {
                self.page[y][x] = LifeCell::Dead;
                x = x + 1;
            }
            y = y + 1;
        }
        proof {
            assert forall|x: int, y: int| #[trigger] self.cell(x, y) == LifeCell::Dead by {
                if self.in_bounds(x, y) {
                    self.lemma_cell(x, y);
                }
            }
        }
    }

    /// Makes alive the `count` cells of row `y` from column `x` rightwards;
    /// those that fall outside the grid are left out.
    pub fn horizontal_line(&mut self, x: usize, y: usize, count: u32)
        requires
            old(self).wf(),
        ensures
            old(self).is_line(final(self), x as int, y as int, count as int),
    {
        if x >= self.width {
            return;
        }
        let n: usize = if (count as u64) < ((self.width - x) as u64) {
            count as usize
        } else {
            self.width - x
        };
        let mut k: usize = 0;
        while k < n
            invariant
                self.wf(),
                x < self.width,
                n <= self.width - x,
                n == count || n == self.width - x,
                k <= n,
                self.width == old(self).width,
                self.height == old(self).height,
                forall|i: int, j: int|
                    #[trigger] self.cell(i, j) == if j == y && x <= i < x + k && old(self).in_bounds(i, j) {
                        LifeCell::Alive
                    } else {
                        old(self).cell(i, j)
                    },
            decreases n - k,
        {
            self.set_cell(x + k, y, LifeCell::Alive);
            k = k + 1;
        }
    }

    /// Changes the grid to `width` by `height` cells. Cells inside both the
    /// old and the new bounds keep their state; new cells are dead.
    pub fn resize(&mut self, width: usize, height: usize)
        requires
            old(self).wf(),
        ensures
            old(self).is_resize(final(self), width as int, height as int),
    {
        resize_rows(&mut self.page, self.width, width, height);
        resize_rows(&mut self.scratch, self.width, width, height);
        proof {
            let ghost w = self.width as int;
            let ghost h = self.height as int;
            assert forall|i: int, j: int| 0 <= i < width && 0 <= j < height implies
                #[trigger] self.page@[j]@[i] == old(self).cell(i, j) by {
                if 0 <= i < w && 0 <= j < h {
                    old(self).lemma_cell(i, j);
                }
            }
        }
        self.width = width;
        self.height = height;
        proof {
            assert forall|i: int, j: int| self.in_bounds(i, j) implies
                #[trigger] self.cell(i, j) == old(self).cell(i, j) by {
                self.lemma_cell(i, j);
            }
        }
    }

    /// Gives every cell of the current generation a fresh coin flip from `rng`:
    /// `Alive` on heads, `Dead` on tails.
    pub fn randomize(&mut self, rng: &mut Rng)
        requires
            old(self).wf(),
        ensures
            old(self).is_randomized(final(self), old(rng).spec_state()),
            final(rng).spec_state() == advance(
                old(rng).spec_state(),
                old(self).spec_width() * old(self).spec_height(),
            ),
    {
        let ghost s0 = rng.spec_state();
        let ghost w = self.width as nat;
        let ghost mut k: nat = 0;
        let mut y: usize = 0;
        while y < self.height
            invariant
                self.wf(),
                self.width == old(self).width,
                self.height == old(self).height,
                y <= self.height,
                k == y * w,
                w == self.width,
                rng.spec_state() == advance(s0, k),
                forall|i: int, j: int|
                    0 <= j < y && 0 <= i < self.width ==> #[trigger] self.page@[j]@[i]
                        == random_cell(s0, w, i, j),
            decreases self.height - y,
        {
            let mut x: usize = 0;
            while x < self.width
                invariant
                    self.wf(),
                    self.width == old(self).width,
                    self.height == old(self).height,
                    y < self.height,
                    x <= self.width,
                    k == y * w + x,
                    w == self.width,
                    rng.spec_state() == advance(s0, k),
                    forall|i: int, j: int|
                        (0 <= j < y && 0 <= i < self.width) || (j == y && 0 <= i < x)
                            ==> #[trigger] self.page@[j]@[i] == random_cell(s0, w, i, j),
                decreases self.width - x,
            {
                let heads = rng.next_bool();
                proof {
                    k = k + 1;
                    assert(advance(s0, k) == xorshift(advance(s0, (k - 1) as nat)));
                }
                self.page[y][x] = if heads {
                    LifeCell::Alive
                } else {
                    LifeCell::Dead
                };
                x = x + 1;
            }
            proof {
                assert(k == (y + 1) * w) by (nonlinear_arith)
                    requires k == y * w + w;
            }
            y = y + 1;
        }
        proof {
            assert forall|i: int, j: int| self.in_bounds(i, j) implies
                #[trigger] self.cell(i, j) == random_cell(s0, w, i, j) by {
                self.lemma_cell(i, j);
            }
            assert(k == w * self.height) by (nonlinear_arith)
                requires k == self.height * w;
        }
    }

    /// Row `y` of the current generation, or `None` below the last row.
    pub fn get_row(&self, y: usize) -> (r: Option<&Vec<LifeCell>>)
        requires
            self.wf(),
        ensures
            match r {
                Some(row) => {
                    &&& y < self.spec_height()
                    &&& row@ == self@[y as int]
                    &&& row@.len() == self.spec_width()
                    &&& forall|x: int| 0 <= x < self.spec_width() ==> #[trigger] row@[x] == self.cell(x, y as int)
                },
                None => y >= self.spec_height(),
            },
    {
        if y < self.height {
            proof {
                assert forall|x: int| 0 <= x < self.spec_width() implies #[trigger] self.page@[y as int]@[x]
                    == self.cell(x, y as int) by {
                    self.lemma_cell(x, y as int);
                }
            }
            Some(&self.page[y])
        } else {
            None
        }
    }

    /// The whole current generation, row by row.
    pub fn get_cells(&self) -> (r: &Vec<Vec<LifeCell>>)
        requires
            self.wf(),
        ensures
            r@.len() == self.spec_height(),
            forall|j: int| 0 <= j < self.spec_height() ==> (#[trigger] r@[j])@ == self@[j],
            forall|j: int| 0 <= j < self.spec_height() ==> (#[trigger] r@[j])@.len() == self.spec_width(),
            forall|i: int, j: int|
                0 <= i < self.spec_width() && 0 <= j < self.spec_height() ==> #[trigger] r@[j]@[i]
                    == self.cell(i, j),
    {
        proof {
            assert forall|i: int, j: int|
                0 <= i < self.spec_width() && 0 <= j < self.spec_height() implies #[trigger] self.page@[j]@[i]
                    == self.cell(i, j) by {
                self.lemma_cell(i, j);
            }
            assert forall|j: int| 0 <= j < self.spec_height() implies (#[trigger] self.page@[j])@.len()
                == self.spec_width() by {
                assert(has_shape(self.page@, self.width as nat, self.height as nat));
            }
        }
        &self.page
    }
}

/// The state that `randomize` gives cell (x, y) of a grid `width` cells wide,
/// when the generator starts in state `s`: cells take one flip each, row by
/// row, left to right.
pub open spec fn random_cell(s: u64, width: nat, x: int, y: int) -> LifeCell {
    if coin(advance(s, (y * width + x + 1) as nat)) {
        LifeCell::Alive
    } else {
        LifeCell::Dead
    }
}

/// The other state.
pub open spec fn flipped(c: LifeCell) -> LifeCell {
    match c {
        LifeCell::Alive => LifeCell::Dead,
        LifeCell::Dead => LifeCell::Alive,
    }
}

fn flipped_cell(c: LifeCell) -> (r: LifeCell)
    ensures
        r == flipped(c),
{
    match c {
        LifeCell::Alive => LifeCell::Dead,
        LifeCell::Dead => LifeCell::Alive,
    }
}

/// Cuts or extends `rows` (of `old_width` cells each) to `height` rows of
/// `width` cells, keeping what fits and filling the rest with dead cells.
fn resize_rows(rows: &mut Vec<Vec<LifeCell>>, old_width: usize, width: usize, height: usize)
    requires
        has_shape(old(rows)@, old_width as nat, old(rows)@.len()),
    ensures
        has_shape(final(rows)@, width as nat, height as nat),
        forall|i: int, j: int|
            0 <= i < width && 0 <= j < height ==> #[trigger] final(rows)@[j]@[i] == if j < old(rows)@.len()
                && i < old_width {
                old(rows)@[j]@[i]
            } else {
                LifeCell::Dead
            },
{
    rows.truncate(height);
    let kept = rows.len();
    let mut y: usize = 0;
    while y < kept
        invariant
            kept == rows@.len(),
            kept <= height,
            kept <= old(rows)@.len(),
            y <= kept,
            has_shape(old(rows)@, old_width as nat, old(rows)@.len()),
            forall|j: int| 0 <= j < y ==> (#[trigger] rows@[j])@.len() == width,
            forall|j: int| y <= j < kept ==> #[trigger] rows@[j] == old(rows)@[j],
            forall|i: int, j: int|
                0 <= i < width && 0 <= j < y ==> #[trigger] rows@[j]@[i] == if i < old_width {
                    old(rows)@[j]@[i]
                } else {
                    LifeCell::Dead
                },
        decreases kept - y,
    {
        rows[y].resize(width, LifeCell::Dead);
        y = y + 1;
    }
    while rows.len() < height
        invariant
            kept <= rows@.len() <= height,
            kept <= old(rows)@.len(),
            kept == height || kept == old(rows)@.len(),
            forall|j: int| 0 <= j < rows@.len() ==> (#[trigger] rows@[j])@.len() == width,
            forall|i: int, j: int|
                0 <= i < width && 0 <= j < rows@.len() ==> #[trigger] rows@[j]@[i] == if j < kept && i
                    < old_width {
                    old(rows)@[j]@[i]
                } else {
                    LifeCell::Dead
                },
        decreases height - rows@.len(),
    {
        rows.push(vec![LifeCell::Dead; width]);
    }
}

/// Setting a cell to `Alive` and reading it back gives `Alive` exactly when
/// the cell lies in the grid.
pub proof fn law_set_then_get(g: Life, next: Life, x: int, y: int)
    requires
        g.is_edit(&next, x, y, LifeCell::Alive),
    ensures
        (next.cell(x, y) == LifeCell::Alive) <==> g.in_bounds(x, y),
{
    assert(next.cell(x, y) == if g.in_bounds(x, y) { LifeCell::Alive } else { g.cell(x, y) });
}

/// Setting or toggling a cell outside the grid changes no cell of it.
pub proof fn law_edit_out_of_bounds(g: Life, next: Life, x: int, y: int, c: LifeCell)
    requires
        g.is_edit(&next, x, y, c),
        !g.in_bounds(x, y),
    ensures
        forall|i: int, j: int| #[trigger] next.cell(i, j) == g.cell(i, j),
{
}

/// The successor of an all-dead grid is all dead.
pub proof fn law_dead_grid_stays_dead(g: Life, next: Life)
    requires
        g.all_dead(),
        g.is_successor(&next),
    ensures
        next.all_dead(),
{
    assert forall|x: int, y: int| #[trigger] next.cell(x, y) == LifeCell::Dead by {
        if g.in_bounds(x, y) {
            reveal(Life::neighbor);
            assert(g.live_neighbors(x, y) == 0);
        }
    }
}

/// A live cell without live neighbours is dead in the next generation.
pub proof fn law_lonely_cell_dies(g: Life, next: Life, x: int, y: int)
    requires
        g.is_successor(&next),
        g.in_bounds(x, y),
        g.cell(x, y) == LifeCell::Alive,
        g.live_neighbors(x, y) == 0,
    ensures
        next.cell(x, y) == LifeCell::Dead,
{
}

/// The edges wrap: the neighbour up and to the left of the corner (0, 0) is
/// the opposite corner (width - 1, height - 1).
pub proof fn law_corners_are_neighbors(g: Life)
    requires
        g.spec_width() > 0,
        g.spec_height() > 0,
    ensures
        g.neighbor(0, 0, -1, -1) == weight(
            g.cell(g.spec_width() - 1, g.spec_height() - 1),
        ),
{
    reveal(Life::neighbor);
    lemma_wrap(-1, g.spec_width() as int);
    lemma_wrap(-1, g.spec_height() as int);
}

/// After a resize the grid has the new size, and the generation that
/// follows keeps it.
pub proof fn law_resize_then_step(g: Life, resized: Life, next: Life, width: int, height: int)
    requires
        g.is_resize(&resized, width, height),
        resized.is_successor(&next),
    ensures
        resized.spec_width() == width,
        resized.spec_height() == height,
        next.spec_width() == width,
        next.spec_height() == height,
{
}

} // verus!
