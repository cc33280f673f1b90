use crate::game_of_life::GameOfLife;
use crate::grid_model::GridModel;
use vstd::prelude::*;

verus! {

/// A deliberately wrong engine, kept around as a foil for the real ones: it
/// owns a single cell whatever size was asked for, answers every query from
/// that one cell, and toggles it no matter which coordinates are given.
///
/// Its contracts are honest about all of that: the model is a board that
/// claims to be 49 by 40 cells but is backed by one shared cell, so nothing
/// proved against [`GameOfLife`] mistakes it for a real engine.
#[derive(Clone, Debug)]
pub struct BrokenGame {
    cell_state: bool,
}

impl BrokenGame {
    /// The board every `BrokenGame` value pretends to be: the claimed fixed
    /// dimensions over a single stored cell.
    pub open spec fn board_of(cell_state: bool) -> GridModel {
        GridModel { width: 49, height: 40, cells: seq![cell_state] }
    }

    /// The requested dimensions must be positive, and are then ignored: the
    /// one cell starts out alive.
    #[allow(unused_variables)]
    pub fn new(game_width: usize, game_height: usize) -> (r: BrokenGame)
        requires
            game_width >= 1,
            game_height >= 1,
        ensures
            r.inv(),
            r.model() == BrokenGame::board_of(true),
    {
        BrokenGame { cell_state: true }
    }
}

impl GameOfLife for BrokenGame {
    open spec fn inv(&self) -> bool {
        true
    }

    closed spec fn model(&self) -> GridModel {
        BrokenGame::board_of(self.cell_state)
    }

    /// Wrong on purpose: the answer ignores the coordinates entirely, and no
    /// coordinate pair is ever reported as out of range.
    open spec fn cell_spec(m: GridModel, x: usize, y: usize) -> Option<bool> {
        Some(m.cells[0])
    }

    /// Wrong on purpose: whatever the coordinates, the one cell flips.
    open spec fn toggle_spec(m: GridModel, x: usize, y: usize) -> GridModel {
        GridModel { width: m.width, height: m.height, cells: seq![!m.cells[0]] }
    }

    /// Wrong on purpose: a generation is just another toggle of the one cell.
    open spec fn tick_spec(m: GridModel) -> GridModel {
        Self::toggle_spec(m, 42, 42)
    }

    fn is_cell_alive(&self, _x: usize, _y: usize) -> (r: Option<bool>) {
        Some(self.cell_state)
    }

    fn toggle_cell(&mut self, _x: usize, _y: usize) {
        self.cell_state = !self.cell_state;
        proof {
            assert(self.model() =~= Self::toggle_spec(old(self).model(), _x, _y));
        }
    }

    fn tick(&mut self) {
        self.toggle_cell(42, 42);
    }

    fn width(&self) -> (w: usize) {
        49
    }

    fn height(&self) -> (h: usize) {
        40
    }
}

} // verus!
