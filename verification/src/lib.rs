//! A verified engine for Conway's Game of Life.
//!
//! The engine owns a rectangular grid of boolean cells, answers
//! bounds-checked liveness queries, accepts toggle requests, and advances the
//! board one generation at a time under the standard rule set. Rendering,
//! input handling and scheduling live outside the engine and drive it only
//! through the [`GameOfLife`] capability contract.

mod bench;
mod game_of_life;
mod game_of_life_broken;
mod game_of_life_mine;
mod game_of_life_solution;
mod grid_model;
mod ui;

pub use bench::run_bench;
pub use game_of_life::ConstructionError;
pub use game_of_life::GameOfLife;
pub use game_of_life_broken::BrokenGame;
pub use game_of_life_mine::GameOfLifeMine;
pub use game_of_life_solution::GameOfLifeSolution;
pub use grid_model::GridModel;
pub use ui::Simulation;
pub use ui::SimulationState;
pub use ui::UiOptions;

use vstd::prelude::*;

verus! {

/// The board states walked through by the first half of the default
/// pattern: for each column `x` from the given one up to `width - 2`, a
/// toggle at `(x, 1)` and a toggle at `(x, height - 2)`.
pub open spec fn border_row_pass<G: GameOfLife>(m: GridModel, w: int, h: int, x: int) -> GridModel
    decreases w - 1 - x,
{
    if x < 1 || x >= w - 1 {
        m
    } else {
        border_row_pass::<G>(
            G::toggle_spec(G::toggle_spec(m, x as usize, 1), x as usize, (h - 2) as usize),
            w,
            h,
            x + 1,
        )
    }
}

/// The board states walked through by the second half of the default
/// pattern: for each row `y` from the given one up to `height - 2`, a
/// toggle at `(1, y)` and a toggle at `(width - 2, y)`.
pub open spec fn border_col_pass<G: GameOfLife>(m: GridModel, w: int, h: int, y: int) -> GridModel
    decreases h - 1 - y,
{
    if y < 1 || y >= h - 1 {
        m
    } else {
        border_col_pass::<G>(
            G::toggle_spec(G::toggle_spec(m, 1, y as usize), (w - 2) as usize, y as usize),
            w,
            h,
            y + 1,
        )
    }
}

/// The whole default pattern: both passes, column pass first, applied to
/// the board's own reported dimensions.
pub open spec fn default_pattern_spec<G: GameOfLife>(m: GridModel) -> GridModel {
    border_col_pass::<G>(
        border_row_pass::<G>(m, m.width as int, m.height as int, 1),
        m.width as int,
        m.height as int,
        1,
    )
}

/// Seed a game with the default pattern, a rectangular border one cell in
/// from the edge of the board, drawn by toggling each border cell: one pass
/// along the two inner rows, then one pass along the two inner columns.
/// Cells hit by both passes, such as `(1, 1)`, are toggled twice.
///
/// The preconditions rule out exactly the dimensions for which some pass
/// would have to address a row or column that the board does not have.
pub fn apply_default_pattern<G: GameOfLife>(game: &mut G)
    requires
        old(game).inv(),
        old(game).model().width >= 1,
        old(game).model().height >= 1,
        old(game).model().width >= 3 ==> old(game).model().height >= 2,
        old(game).model().height >= 3 ==> old(game).model().width >= 2,
    ensures
        final(game).inv(),
        final(game).model() == default_pattern_spec::<G>(old(game).model()),
{
    let ghost m0 = game.model();
    let w: usize = game.width();
    let h: usize = game.height();
    let mut x: usize = 1;
    while x < w - 1
        invariant
            game.inv(),
            w as nat == m0.width,
            h as nat == m0.height,
            w >= 1,
            1 <= x,
            x < w - 1 ==> h >= 2,
            border_row_pass::<G>(game.model(), w as int, h as int, x as int) == border_row_pass::<
                G,
            >(m0, w as int, h as int, 1),
        decreases w - 1 - x,
    {
        let ghost before = game.model();
        game.toggle_cell(x, 1);
        game.toggle_cell(x, h - 2);
        proof {
            assert(border_row_pass::<G>(game.model(), w as int, h as int, x as int + 1)
                == border_row_pass::<G>(before, w as int, h as int, x as int));
        }
        x = x + 1;
    }
    let ghost mid = game.model();
    proof {
        assert(mid == border_row_pass::<G>(m0, w as int, h as int, 1));
    }
    let mut y: usize = 1;
    while y < h - 1
        invariant
            game.inv(),
            w as nat == m0.width,
            h as nat == m0.height,
            h >= 1,
            1 <= y,
            y < h - 1 ==> w >= 2,
            border_col_pass::<G>(game.model(), w as int, h as int, y as int) == border_col_pass::<
                G,
            >(mid, w as int, h as int, 1),
        decreases h - 1 - y,
    {
        let ghost before = game.model();
        game.toggle_cell(1, y);
        game.toggle_cell(w - 2, y);
        proof {
            assert(border_col_pass::<G>(game.model(), w as int, h as int, y as int + 1)
                == border_col_pass::<G>(before, w as int, h as int, y as int));
        }
        y = y + 1;
    }
}

} // verus!
