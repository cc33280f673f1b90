use conway::GameOfLife;
use conway::GameOfLifeSolution;

fn fresh(width: usize, height: usize) -> GameOfLifeSolution {
    GameOfLifeSolution::new(width, height).unwrap()
}

#[test]
fn construction_starts_all_dead() {
    let game = fresh(4, 3);
    assert_eq!(game.width(), 4);
    assert_eq!(game.height(), 3);
    for x in 0..4 {
        for y in 0..3 {
            assert_eq!(game.is_cell_alive(x, y), Some(false));
        }
    }
}

#[test]
fn construction_fails_on_zero_dimensions() {
    assert!(GameOfLifeSolution::new(0, 5).is_err());
    assert!(GameOfLifeSolution::new(5, 0).is_err());
    assert!(GameOfLifeSolution::new(0, 0).is_err());
    assert!(GameOfLifeSolution::new(1, 1).is_ok());
}

#[test]
fn toggle_in_range_flips_only_that_cell() {
    let mut game = fresh(3, 3);
    game.toggle_cell(1, 2);
    for x in 0..3 {
        for y in 0..3 {
            let expected = x == 1 && y == 2;
            assert_eq!(game.is_cell_alive(x, y), Some(expected));
        }
    }
    // toggling again restores the previous state
    game.toggle_cell(1, 2);
    for x in 0..3 {
        for y in 0..3 {
            assert_eq!(game.is_cell_alive(x, y), Some(false));
        }
    }
}

#[test]
fn out_of_range_access_is_harmless() {
    let mut game = fresh(3, 3);
    game.toggle_cell(0, 0);

    assert_eq!(game.is_cell_alive(3, 0), None);
    assert_eq!(game.is_cell_alive(0, 3), None);
    assert_eq!(game.is_cell_alive(usize::MAX, usize::MAX), None);

    game.toggle_cell(3, 0);
    game.toggle_cell(0, 3);
    game.toggle_cell(usize::MAX, 1);
    for x in 0..3 {
        for y in 0..3 {
            let expected = x == 0 && y == 0;
            assert_eq!(game.is_cell_alive(x, y), Some(expected));
        }
    }
}

#[test]
fn tick_of_all_dead_board_stays_all_dead() {
    let mut game = fresh(6, 4);
    game.tick();
    for x in 0..6 {
        for y in 0..4 {
            assert_eq!(game.is_cell_alive(x, y), Some(false));
        }
    }
}

#[test]
fn lone_center_cell_dies_of_isolation() {
    let mut game = fresh(3, 3);
    game.toggle_cell(1, 1);
    game.tick();
    for x in 0..3 {
        for y in 0..3 {
            assert_eq!(game.is_cell_alive(x, y), Some(false));
        }
    }
}

#[test]
fn full_block_is_a_still_life() {
    let mut game = fresh(2, 2);
    game.toggle_cell(0, 0);
    game.toggle_cell(1, 0);
    game.toggle_cell(0, 1);
    game.toggle_cell(1, 1);
    for _ in 0..5 {
        game.tick();
        for x in 0..2 {
            for y in 0..2 {
                assert_eq!(game.is_cell_alive(x, y), Some(true));
            }
        }
    }
}

#[test]
fn blinker_oscillates_with_period_two() {
    let mut game = fresh(5, 5);
    game.toggle_cell(1, 2);
    game.toggle_cell(2, 2);
    game.toggle_cell(3, 2);

    game.tick();
    for x in 0..5 {
        for y in 0..5 {
            let expected = x == 2 && (y == 1 || y == 2 || y == 3);
            assert_eq!(game.is_cell_alive(x, y), Some(expected));
        }
    }

    game.tick();
    for x in 0..5 {
        for y in 0..5 {
            let expected = y == 2 && (x == 1 || x == 2 || x == 3);
            assert_eq!(game.is_cell_alive(x, y), Some(expected));
        }
    }
}

#[test]
fn dimensions_survive_toggles_and_ticks() {
    let mut game = fresh(7, 5);
    for i in 0..10 {
        game.toggle_cell(i % 7, i % 5);
        game.tick();
        assert_eq!(game.width(), 7);
        assert_eq!(game.height(), 5);
    }
}
