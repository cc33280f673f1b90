use vstd::prelude::*;

verus! {

/// Mathematical model of a finite Game of Life board: a `width` by `height`
/// matrix of boolean cells stored row-major, `true` meaning alive.
///
/// The cell with coordinates `(x, y)` (origin at the top left) is stored at
/// position `x + y * width`.
#[verifier::ext_equal]
pub ghost struct GridModel {
    pub width: nat,
    pub height: nat,
    pub cells: Seq<bool>,
}

impl GridModel {
    /// A board is well formed when it has at least one column and one row,
    /// and stores exactly one cell per coordinate pair.
    pub open spec fn wf(self) -> bool {
        &&& self.width >= 1
        &&& self.height >= 1
        &&& self.cells.len() == self.width * self.height
    }

    pub open spec fn in_bounds(self, x: int, y: int) -> bool {
        0 <= x < self.width && 0 <= y < self.height
    }

    /// Row-major storage position of the cell at `(x, y)`.
    pub open spec fn index_of(self, x: int, y: int) -> int {
        x + y * self.width
    }

    pub open spec fn alive(self, x: int, y: int) -> bool {
        self.cells[self.index_of(x, y)]
    }

    /// What a bounds-checked liveness query reports: `Some` of the cell's
    /// state in range, `None` out of range.
    pub open spec fn cell(self, x: int, y: int) -> Option<bool> {
        if self.in_bounds(x, y) {
            Some(self.alive(x, y))
        } else {
            None
        }
    }

    /// The board after a toggle request at `(x, y)`: the one cell in range is
    /// flipped, and an out-of-range request leaves the board unchanged.
    pub open spec fn toggled(self, x: int, y: int) -> GridModel {
        if self.in_bounds(x, y) {
            GridModel {
                width: self.width,
                height: self.height,
                cells: self.cells.update(self.index_of(x, y), !self.alive(x, y)),
            }
        } else {
            self
        }
    }

    /// 1 if `(x, y)` names a live cell, 0 if it names a dead cell or no cell
    /// at all (positions beyond the edge are simply absent, never alive).
    pub open spec fn live_at(self, x: int, y: int) -> int {
        if self.in_bounds(x, y) && self.alive(x, y) {
            1
        } else {
            0
        }
    }

    /// Number of live cells among the up-to-8 Moore neighbors of `(x, y)`.
    pub open spec fn live_neighbors(self, x: int, y: int) -> int {
        self.live_at(x - 1, y - 1) + self.live_at(x, y - 1) + self.live_at(x + 1, y - 1)
            + self.live_at(x - 1, y) + self.live_at(x + 1, y)
            + self.live_at(x - 1, y + 1) + self.live_at(x, y + 1) + self.live_at(x + 1, y + 1)
    }

    /// The standard rule: fewer than two or more than three live neighbors
    /// kill a cell, exactly three create one, and exactly two keep the cell
    /// as it was.
    pub open spec fn next_cell(alive: bool, neighbors: int) -> bool {
        if neighbors < 2 {
            false
        } else if neighbors == 2 {
            alive
        } else if neighbors == 3 {
            true
        } else {
            false
        }
    }

    /// Next state of the cell stored at position `i`, judged against the
    /// current generation only.
    pub open spec fn next_at(self, i: int) -> bool {
        Self::next_cell(
            self.cells[i],
            self.live_neighbors(i % self.width as int, i / self.width as int),
        )
    }

    /// The whole board one generation later.
    pub open spec fn ticked(self) -> GridModel {
        GridModel {
            width: self.width,
            height: self.height,
            cells: Seq::new(self.width * self.height, |i: int| self.next_at(i)),
        }
    }

    pub open spec fn all_dead(self) -> bool {
        forall|i: int| 0 <= i < self.cells.len() ==> !self.cells[i]
    }

    /// The all-dead board with the given dimensions.
    pub open spec fn dead_board(width: nat, height: nat) -> GridModel {
        GridModel { width, height, cells: Seq::new(width * height, |i: int| false) }
    }

    /// On a well-formed board, every coordinate pair in range names a storage
    /// position within the cell sequence.
    pub proof fn lemma_index_in_range(self, x: int, y: int)
        requires
            self.wf(),
            self.in_bounds(x, y),
        ensures
            0 <= self.index_of(x, y) < self.cells.len(),
    {
        assert(0 <= x + y * self.width < self.width * self.height) by (nonlinear_arith)
            requires
                0 <= x < self.width,
                0 <= y < self.height,
        ;
    }

    /// The coordinate-to-position mapping is injective over the coordinate
    /// pairs in range: distinct cells have distinct storage positions.
    pub proof fn lemma_index_injective(self, x1: int, y1: int, x2: int, y2: int)
        requires
            self.in_bounds(x1, y1),
            self.in_bounds(x2, y2),
            self.index_of(x1, y1) == self.index_of(x2, y2),
        ensures
            x1 == x2 && y1 == y2,
    {
        assert(x1 == x2 && y1 == y2) by (nonlinear_arith)
            requires
                0 <= x1 < self.width,
                0 <= x2 < self.width,
                0 <= y1 < self.height,
                0 <= y2 < self.height,
                x1 + y1 * self.width == x2 + y2 * self.width,
        ;
    }

    /// Toggling a cell in range flips exactly that cell, as the next liveness
    /// query reports, and leaves every other cell unchanged.
    pub proof fn lemma_toggle_in_range(self, x: int, y: int)
        requires
            self.wf(),
            self.in_bounds(x, y),
        ensures
            self.toggled(x, y).wf(),
            self.toggled(x, y).cell(x, y) == Some(!self.alive(x, y)),
            forall|x2: int, y2: int|
                self.in_bounds(x2, y2) && (x2 != x || y2 != y) ==> self.toggled(x, y).cell(x2, y2)
                    == self.cell(x2, y2),
    {
        self.lemma_index_in_range(x, y);
        assert forall|x2: int, y2: int|
            self.in_bounds(x2, y2) && (x2 != x || y2 != y) implies self.toggled(x, y).cell(x2, y2)
            == self.cell(x2, y2) by {
            self.lemma_index_in_range(x2, y2);
            if self.index_of(x2, y2) == self.index_of(x, y) {
                self.lemma_index_injective(x2, y2, x, y);
            }
        }
    }

    /// A toggle request out of range changes no cell's state, and a liveness
    /// query there reports no cell.
    pub proof fn lemma_toggle_out_of_range(self, x: int, y: int)
        requires
            !self.in_bounds(x, y),
        ensures
            self.toggled(x, y) == self,
            self.cell(x, y) is None,
    {
    }

    /// No spontaneous life: one step of an all-dead board of any size is all
    /// dead again.
    pub proof fn lemma_tick_all_dead(self)
        requires
            self.wf(),
            self.all_dead(),
        ensures
            self.ticked().all_dead(),
    {
        assert forall|x: int, y: int| #[trigger] self.live_at(x, y) == 0 by {
            if self.in_bounds(x, y) {
                self.lemma_index_in_range(x, y);
            }
        }
        assert forall|i: int| 0 <= i < self.ticked().cells.len() implies !self.ticked().cells[i] by {
            assert(self.live_neighbors(i % self.width as int, i / self.width as int) == 0);
        }
    }

    /// The dimensions fixed at construction are stable: neither a toggle nor
    /// a tick changes the board's width or height.
    pub proof fn lemma_dimensions_stable(self, x: int, y: int)
        ensures
            self.toggled(x, y).width == self.width,
            self.toggled(x, y).height == self.height,
            self.ticked().width == self.width,
            self.ticked().height == self.height,
    {
    }

    /// A tick keeps the board well formed.
    pub proof fn lemma_tick_wf(self)
        requires
            self.wf(),
        ensures
            self.ticked().wf(),
    {
    }
}

/// Executable evaluation of the update rule for one cell.
pub(crate) fn next_cell_state(alive: bool, neighbors: u8) -> (r: bool)
    ensures
        r == GridModel::next_cell(alive, neighbors as int),
{
    if neighbors < 2 {
        false
    } else if neighbors == 2 {
        alive
    } else if neighbors == 3 {
        true
    } else {
        false
    }
}

} // verus!
