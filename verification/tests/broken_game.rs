use conway::BrokenGame;
use conway::GameOfLife;

/// A basic check that the deliberately wrong engine is still wrong: toggling
/// one cell changes what a query about a completely different cell reports.
#[test]
fn broken_game_is_definitely_broken() {
    let mut game = BrokenGame::new(10, 10);
    let cell_0_0_orig_val = game.is_cell_alive(0, 0);

    // change a totally different cell from 0,0
    game.toggle_cell(1, 1);

    let cell_0_0_new_val = game.is_cell_alive(0, 0);
    assert_ne!(
        cell_0_0_orig_val, cell_0_0_new_val,
        "Uh oh, cell 0,0 failed to change from its \
         original value even though we tried to mutate another cell, so BrokenGame may not be \
         broken anymore!?"
    );
}

#[test]
fn game_of_life_broken_broken_game_is_definitely_broken() {
    let mut game = BrokenGame::new(10, 10);
    let cell_0_0_orig_val = game.is_cell_alive(0, 0);

    game.toggle_cell(1, 1);

    let cell_0_0_new_val = game.is_cell_alive(0, 0);
    assert_ne!(
        cell_0_0_orig_val, cell_0_0_new_val,
        "Uh oh, cell 0,0 failed to change from its \
         original value even though we tried to mutate another cell, so BrokenGame may not be \
         broken anymore!?"
    );
}

#[test]
fn game_of_life_broken_game_is_definitely_broken() {
    let mut game = BrokenGame::new(10, 10);
    let cell_0_0_orig_val = game.is_cell_alive(0, 0);

    game.toggle_cell(1, 1);

    let cell_0_0_new_val = game.is_cell_alive(0, 0);
    assert_ne!(
        cell_0_0_orig_val, cell_0_0_new_val,
        "Uh oh, cell 0,0 failed to change from its \
         original value even though we tried to mutate another cell, so BrokenGame is may not be \
         broken anymore!?"
    );
}

#[test]
fn broken_game_reports_fixed_dimensions() {
    let game = BrokenGame::new(7, 3);
    assert_eq!(game.width(), 49);
    assert_eq!(game.height(), 40);
}

#[test]
fn broken_game_tick_flips_the_single_cell() {
    let mut game = BrokenGame::new(10, 10);
    assert_eq!(game.is_cell_alive(123, 456), Some(true));
    game.tick();
    assert_eq!(game.is_cell_alive(0, 0), Some(false));
    game.tick();
    assert_eq!(game.is_cell_alive(0, 0), Some(true));
}
