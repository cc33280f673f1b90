use crate::game_of_life::ConstructionError;
use crate::game_of_life::GameOfLife;
use crate::grid_model::next_cell_state;
use crate::grid_model::GridModel;
use vstd::prelude::*;

verus! {

/// The reference engine: a `width` by `height` board of cells stored
/// row-major in a single vector, with the cell at `(x, y)` at position
/// `x + y * width`.
#[derive(Clone, Debug)]
pub struct GameOfLifeSolution {
    width: usize,
    height: usize,
    playground: Vec<bool>,
}

impl GameOfLifeSolution {
    /// Build a board with the given dimensions, every cell dead. Fails with
    /// a [`ConstructionError`] exactly when `width` or `height` is zero; the
    /// cell count must fit in a `usize`, since one cell is stored per
    /// coordinate pair.
    pub fn new(width: usize, height: usize) -> (r: Result<GameOfLifeSolution, ConstructionError>)
        requires
            width * height <= usize::MAX,
        ensures
            r is Ok <==> width >= 1 && height >= 1,
            r matches Ok(g) ==> g.inv() && g.model() == GridModel::dead_board(
                width as nat,
                height as nat,
            ),
    {
        if width == 0 || height == 0 {
            return Err(ConstructionError);
        }
        let n: usize = width * height;
        let mut playground: Vec<bool> = Vec::new();
        let mut i: usize = 0;
        while i < n
            invariant
                i <= n,
                playground@.len() == i,
                forall|j: int| 0 <= j < i ==> !playground@[j],
            decreases n - i,
        {
            playground.push(false);
            i = i + 1;
        }
        let g = GameOfLifeSolution { width, height, playground };
        proof {
            assert(g.model().cells =~= GridModel::dead_board(width as nat, height as nat).cells);
            assert(g.model() =~= GridModel::dead_board(width as nat, height as nat));
        }
        Ok(g)
    }

    /// Storage position of the in-range cell at `(x, y)`.
    fn cell_index(&self, x: usize, y: usize) -> (i: usize)
        requires
            self.inv(),
            x < self.width,
            y < self.height,
        ensures
            i as int == self.model().index_of(x as int, y as int),
            i < self.playground@.len(),
    {
        let len: usize = self.playground.len();
        proof {
            self.model().lemma_index_in_range(x as int, y as int);
            assert(x + y * self.width < len);
            assert(y * self.width <= x + y * self.width);
        }
        x + y * self.width
    }

    /// Live cells among the up-to-8 neighbors of the in-range cell at
    /// `(x, y)`; neighbors beyond the edge of the board are absent from the
    /// count.
    fn live_neighbor_count(&self, x: usize, y: usize) -> (count: u8)
        requires
            self.inv(),
            x < self.width,
            y < self.height,
        ensures
            count as int == self.model().live_neighbors(x as int, y as int),
    {
        let mut count: u8 = 0;
        if x > 0 && y > 0 && matches!(self.is_cell_alive(x - 1, y - 1), Some(true)) {
            count = count + 1;
        }
        if y > 0 && matches!(self.is_cell_alive(x, y - 1), Some(true)) {
            count = count + 1;
        }
        if y > 0 && matches!(self.is_cell_alive(x + 1, y - 1), Some(true)) {
            count = count + 1;
        }
        if x > 0 && matches!(self.is_cell_alive(x - 1, y), Some(true)) {
            count = count + 1;
        }
        if matches!(self.is_cell_alive(x + 1, y), Some(true)) {
            count = count + 1;
        }
        if x > 0 && matches!(self.is_cell_alive(x - 1, y + 1), Some(true)) {
            count = count + 1;
        }
        if matches!(self.is_cell_alive(x, y + 1), Some(true)) {
            count = count + 1;
        }
        if matches!(self.is_cell_alive(x + 1, y + 1), Some(true)) {
            count = count + 1;
        }
        count
    }
}

impl GameOfLife for GameOfLifeSolution {
    /// The stored dimensions are positive and the cell vector holds exactly
    /// one entry per coordinate pair.
    closed spec fn inv(&self) -> bool {
        &&& self.width >= 1
        &&& self.height >= 1
        &&& self.playground@.len() == self.width * self.height
    }

    closed spec fn model(&self) -> GridModel {
        GridModel {
            width: self.width as nat,
            height: self.height as nat,
            cells: self.playground@,
        }
    }

    open spec fn cell_spec(m: GridModel, x: usize, y: usize) -> Option<bool> {
        m.cell(x as int, y as int)
    }

    open spec fn toggle_spec(m: GridModel, x: usize, y: usize) -> GridModel {
        m.toggled(x as int, y as int)
    }

    open spec fn tick_spec(m: GridModel) -> GridModel {
        m.ticked()
    }

    fn is_cell_alive(&self, x: usize, y: usize) -> (r: Option<bool>) {
        if x < self.width && y < self.height {
            let i: usize = self.cell_index(x, y);
            Some(self.playground[i])
        } else {
            None
        }
    }

    fn toggle_cell(&mut self, x: usize, y: usize) {
        if x < self.width && y < self.height {
            let i: usize = self.cell_index(x, y);
            let cur: bool = self.playground[i];
            self.playground[i] = !cur;
            proof {
                assert(self.model() =~= Self::toggle_spec(old(self).model(), x, y));
            }
        }
    }

    fn tick(&mut self) {
        let ghost m0 = self.model();
        let w: usize = self.width;
        let h: usize = self.height;
        let n: usize = self.playground.len();
        let mut next_cells: Vec<bool> = Vec::new();
        let mut u: usize = 0;
        while u < n
            invariant
                self.inv(),
                self.model() == m0,
                w == self.width,
                h == self.height,
                n as int == m0.cells.len(),
                u <= n,
                next_cells@.len() == u,
                forall|i: int| 0 <= i < u ==> next_cells@[i] == m0.next_at(i),
            decreases n - u,
        {
            let x: usize = u % w;
            let y: usize = u / w;
            proof {
                vstd::arithmetic::div_mod::lemma_fundamental_div_mod(u as int, w as int);
                assert(u / w < h) by (nonlinear_arith)
                    requires
                        w >= 1,
                        u < n,
                        n == w * h,
                        u == w * (u / w) + u % w,
                        u % w >= 0,
                ;
            }
            let count: u8 = self.live_neighbor_count(x, y);
            let cur: bool = self.playground[u];
            let alive_next: bool = next_cell_state(cur, count);
            proof {
                assert(x as int == u as int % m0.width as int);
                assert(y as int == u as int / m0.width as int);
                assert(alive_next == m0.next_at(u as int));
            }
            next_cells.push(alive_next);
            u = u + 1;
        }
        self.playground = next_cells;
        proof {
            assert(self.model().cells =~= Self::tick_spec(m0).cells);
            assert(self.model() =~= Self::tick_spec(m0));
        }
    }

    fn width(&self) -> (w: usize) {
        self.width
    }

    fn height(&self) -> (h: usize) {
        self.height
    }
}

} // verus!
