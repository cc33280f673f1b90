use crate::game_of_life::GameOfLife;
use crate::grid_model::GridModel;
use vstd::prelude::*;

verus! {

/// The board after `n` generations of the engine `G`, starting from `m`.
pub open spec fn ticked_times<G: GameOfLife>(m: GridModel, n: nat) -> GridModel
    decreases n,
{
    if n == 0 {
        m
    } else {
        G::tick_spec(ticked_times::<G>(m, (n - 1) as nat))
    }
}

/// Advance the game a fixed number of generations in a row, as a batch or
/// benchmark driver does.
pub fn run_bench<G: GameOfLife>(game: &mut G, num_iterations: u32)
    requires
        old(game).inv(),
    ensures
        final(game).inv(),
        final(game).model() == ticked_times::<G>(old(game).model(), num_iterations as nat),
{
    let ghost m0 = game.model();
    let mut i: u32 = 0;
    while i < num_iterations
        invariant
            game.inv(),
            i <= num_iterations,
            game.model() == ticked_times::<G>(m0, i as nat),
        decreases num_iterations - i,
    {
        game.tick();
        i = i + 1;
    }
}

} // verus!
