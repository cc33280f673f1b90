use crate::grid_model::GridModel;
use vstd::prelude::*;

verus! {

/// Raised when a grid is constructed with a zero width or a zero height;
/// the caller gets no grid back in that case.
#[derive(Clone, Copy, Debug, PartialEq, Eq, Structural)]
pub struct ConstructionError;

/// The capability contract of a Game of Life engine.
///
/// Every implementation chooses how it represents a board, and exposes that
/// choice only through the spec functions below: `model` abstracts a value
/// into a [`GridModel`], and `cell_spec`, `toggle_spec` and `tick_spec` say
/// what the three operations mean on that abstraction. The executable
/// methods are then pinned, implementation by implementation, to exactly
/// those meanings.
pub trait GameOfLife: Sized {
    /// Internal well-formedness of a board value. Constructors establish it
    /// and every operation preserves it.
    spec fn inv(&self) -> bool;

    /// The board this value represents.
    spec fn model(&self) -> GridModel;

    /// What a liveness query at `(x, y)` reports on the given board.
    spec fn cell_spec(m: GridModel, x: usize, y: usize) -> Option<bool>;

    /// The board after a toggle request at `(x, y)`.
    spec fn toggle_spec(m: GridModel, x: usize, y: usize) -> GridModel;

    /// The board one generation later.
    spec fn tick_spec(m: GridModel) -> GridModel;

    /// Return `Some(true)` if the cell at `(x, y)` is alive, `Some(false)`
    /// if it is dead, and `None` if the coordinates are out of range.
    /// The origin `(0, 0)` is the top-left cell.
    fn is_cell_alive(&self, x: usize, y: usize) -> (r: Option<bool>)
        requires
            self.inv(),
        ensures
            r == Self::cell_spec(self.model(), x, y),
    ;

    /// Flip the cell at `(x, y)` from alive to dead or dead to alive; a
    /// silent no-op when the coordinates are out of range.
    fn toggle_cell(&mut self, x: usize, y: usize)
        requires
            old(self).inv(),
        ensures
            final(self).inv(),
            final(self).model() == Self::toggle_spec(old(self).model(), x, y),
    ;

    /// Advance the board one generation: cells live on, are born, or die
    /// according to how many live neighbors they have.
    fn tick(&mut self)
        requires
            old(self).inv(),
        ensures
            final(self).inv(),
            final(self).model() == Self::tick_spec(old(self).model()),
    ;

    /// The board's width in cells.
    fn width(&self) -> (w: usize)
        requires
            self.inv(),
        ensures
            w as nat == self.model().width,
    ;

    /// The board's height in cells.
    fn height(&self) -> (h: usize)
        requires
            self.inv(),
        ensures
            h as nat == self.model().height,
    ;
}

} // verus!
