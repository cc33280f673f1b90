use crate::game_of_life::ConstructionError;
use crate::game_of_life::GameOfLife;
use crate::grid_model::next_cell_state;
use crate::grid_model::GridModel;
use vstd::prelude::*;

verus! {

/// A second, independently written engine with the same contract as
/// [`crate::GameOfLifeSolution`]: the board is again a row-major vector of
/// cells, but every operation addresses the storage directly instead of
/// going through the bounds-checked query, and the generation step walks the
/// board by row and column rather than by storage position.
#[derive(Clone, Debug)]
pub struct GameOfLifeMine {
    width: usize,
    height: usize,
    cells: Vec<bool>,
}

impl GameOfLifeMine {
    /// Build a board with the given dimensions, every cell dead. Fails with
    /// a [`ConstructionError`] exactly when `width` or `height` is zero; the
    /// cell count must fit in a `usize`, since one cell is stored per
    /// coordinate pair.
    pub fn new(width: usize, height: usize) -> (r: Result<GameOfLifeMine, ConstructionError>)
        requires
            width * height <= usize::MAX,
        ensures
            r is Ok <==> width >= 1 && height >= 1,
            r matches Ok(g) ==> g.inv() && g.model() == GridModel::dead_board(
                width as nat,
                height as nat,
            ),
    {
        if width == 0 || height == 0 {
            return Err(ConstructionError);
        }
        let n: usize = width * height;
        let mut cells: Vec<bool> = Vec::new();
        let mut i: usize = 0;
        while i < n
            invariant
                i <= n,
                cells@.len() == i,
                forall|j: int| 0 <= j < i ==> !cells@[j],
            decreases n - i,
        {
            cells.push(false);
            i = i + 1;
        }
        let g = GameOfLifeMine { width, height, cells };
        proof {
            assert(g.model().cells =~= GridModel::dead_board(width as nat, height as nat).cells);
            assert(g.model() =~= GridModel::dead_board(width as nat, height as nat));
        }
        Ok(g)
    }

    /// Storage position of the in-range cell at `(x, y)`.
    fn position(&self, x: usize, y: usize) -> (i: usize)
        requires
            self.inv(),
            x < self.width,
            y < self.height,
        ensures
            i as int == self.model().index_of(x as int, y as int),
            i < self.cells@.len(),
    {
        let len: usize = self.cells.len();
        proof {
            self.model().lemma_index_in_range(x as int, y as int);
            assert(x + y * self.width < len);
            assert(y * self.width <= x + y * self.width);
        }
        x + y * self.width
    }

    /// Direct read of the in-range cell at `(x, y)`.
    fn alive_at(&self, x: usize, y: usize) -> (r: bool)
        requires
            self.inv(),
            x < self.width,
            y < self.height,
        ensures
            r == self.model().alive(x as int, y as int),
    {
        let i: usize = self.position(x, y);
        self.cells[i]
    }

    /// Live cells among the up-to-8 neighbors of the in-range cell at
    /// `(x, y)`, each neighbor checked against the board's edges before it
    /// is read.
    fn count_live_around(&self, x: usize, y: usize) -> (count: u8)
        requires
            self.inv(),
            x < self.width,
            y < self.height,
        ensures
            count as int == self.model().live_neighbors(x as int, y as int),
    {
        let mut count: u8 = 0;
        if x > 0 && y > 0 && self.alive_at(x - 1, y - 1) {
            count = count + 1;
        }
        if y > 0 && self.alive_at(x, y - 1) {
            count = count + 1;
        }
        if x + 1 < self.width && y > 0 && self.alive_at(x + 1, y - 1) {
            count = count + 1;
        }
        if x > 0 && self.alive_at(x - 1, y) {
            count = count + 1;
        }
        if x + 1 < self.width && self.alive_at(x + 1, y) {
            count = count + 1;
        }
        if x > 0 && y + 1 < self.height && self.alive_at(x - 1, y + 1) {
            count = count + 1;
        }
        if y + 1 < self.height && self.alive_at(x, y + 1) {
            count = count + 1;
        }
        if x + 1 < self.width && y + 1 < self.height && self.alive_at(x + 1, y + 1) {
            count = count + 1;
        }
        count
    }
}

impl GameOfLife for GameOfLifeMine {
    /// The stored dimensions are positive and the cell vector holds exactly
    /// one entry per coordinate pair.
    closed spec fn inv(&self) -> bool {
        &&& self.width >= 1
        &&& self.height >= 1
        &&& self.cells@.len() == self.width * self.height
    }

    closed spec fn model(&self) -> GridModel {
        GridModel { width: self.width as nat, height: self.height as nat, cells: self.cells@ }
    }

    open spec fn cell_spec(m: GridModel, x: usize, y: usize) -> Option<bool> {
        m.cell(x as int, y as int)
    }

    open spec fn toggle_spec(m: GridModel, x: usize, y: usize) -> GridModel {
        m.toggled(x as int, y as int)
    }

    open spec fn tick_spec(m: GridModel) -> GridModel {
        m.ticked()
    }

    fn is_cell_alive(&self, x: usize, y: usize) -> (r: Option<bool>) {
        if x < self.width && y < self.height {
            Some(self.alive_at(x, y))
        } else {
            None
        }
    }

    fn toggle_cell(&mut self, x: usize, y: usize) {
        if x >= self.width || y >= self.height {
            return ;
        }
        let i: usize = self.position(x, y);
        let cur: bool = self.cells[i];
        self.cells[i] = !cur;
        proof {
            assert(self.model() =~= Self::toggle_spec(old(self).model(), x, y));
        }
    }

    fn tick(&mut self) {
        let ghost m0 = self.model();
        let w: usize = self.width;
        let h: usize = self.height;
        let mut next_cells: Vec<bool> = Vec::new();
        let mut y: usize = 0;
        while y < h
            invariant
                self.inv(),
                self.model() == m0,
                w == self.width,
                h == self.height,
                y <= h,
                next_cells@.len() == y * w,
                forall|i: int| 0 <= i < y * w ==> next_cells@[i] == m0.next_at(i),
            decreases h - y,
        {
            let mut x: usize = 0;
            proof {
                assert((y + 1) * w == y * w + w) by (nonlinear_arith);
                assert((y + 1) * w <= h * w) by (nonlinear_arith)
                    requires
                        y < h,
                        w >= 0,
                ;
                assert(h * w == w * h) by (nonlinear_arith);
            }
            while x < w
                invariant
                    self.inv(),
                    self.model() == m0,
                    w == self.width,
                    h == self.height,
                    y < h,
                    x <= w,
                    y * w + w <= m0.cells.len(),
                    next_cells@.len() == y * w + x,
                    forall|i: int| 0 <= i < y * w + x ==> next_cells@[i] == m0.next_at(i),
                decreases w - x,
            {
                let count: u8 = self.count_live_around(x, y);
                let cur: bool = self.alive_at(x, y);
                let alive_next: bool = next_cell_state(cur, count);
                proof {
                    let u = y * w + x;
                    vstd::arithmetic::div_mod::lemma_fundamental_div_mod_converse(
                        u as int,
                        w as int,
                        y as int,
                        x as int,
                    );
                    assert(m0.index_of(x as int, y as int) == u);
                    assert(alive_next == m0.next_at(u as int));
                }
                next_cells.push(alive_next);
                x = x + 1;
            }
            y = y + 1;
            proof {
                assert(y * w == (y - 1) * w + w) by (nonlinear_arith);
            }
        }
        self.cells = next_cells;
        proof {
            assert(h * w == w * h) by (nonlinear_arith);
            assert(self.model().cells =~= Self::tick_spec(m0).cells);
            assert(self.model() =~= Self::tick_spec(m0));
        }
    }

    fn width(&self) -> (w: usize) {
        self.width
    }

    fn height(&self) -> (h: usize) {
        self.height
    }
}

} // verus!
