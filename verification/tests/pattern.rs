use conway::apply_default_pattern;
use conway::run_bench;
use conway::GameOfLife;
use conway::GameOfLifeSolution;

/// On a 5 by 4 board the row pass toggles `(1..=3, 1)` and `(1..=3, 2)`,
/// and the column pass toggles `(1, 1..=2)` and `(3, 1..=2)`; the cells hit
/// twice cancel out, leaving exactly `(2, 1)` and `(2, 2)` alive.
#[test]
fn default_pattern_on_a_small_board() {
    let mut game = GameOfLifeSolution::new(5, 4).unwrap();
    apply_default_pattern(&mut game);
    for x in 0..5 {
        for y in 0..4 {
            let expected = x == 2 && (y == 1 || y == 2);
            assert_eq!(game.is_cell_alive(x, y), Some(expected));
        }
    }
}

/// On a wide board the pattern draws the border one cell in from the edge,
/// with the four corner cells of that border toggled twice and so left dead.
#[test]
fn default_pattern_draws_an_open_border() {
    let mut game = GameOfLifeSolution::new(6, 5).unwrap();
    apply_default_pattern(&mut game);
    for x in 0..6 {
        for y in 0..5 {
            let on_border = (1..=4).contains(&x) && (1..=3).contains(&y) && (x == 1 || x == 4
                || y == 1 || y == 3);
            let corner = (x == 1 || x == 4) && (y == 1 || y == 3);
            let expected = on_border && !corner;
            assert_eq!(game.is_cell_alive(x, y), Some(expected), "at {}, {}", x, y);
        }
    }
}

/// Boards too small for any pass are left untouched.
#[test]
fn default_pattern_on_a_tiny_board_is_a_no_op() {
    let mut game = GameOfLifeSolution::new(2, 2).unwrap();
    apply_default_pattern(&mut game);
    for x in 0..2 {
        for y in 0..2 {
            assert_eq!(game.is_cell_alive(x, y), Some(false));
        }
    }
}

/// An even number of generations returns a blinker to where it started.
#[test]
fn run_bench_advances_the_given_number_of_generations() {
    let mut game = GameOfLifeSolution::new(5, 5).unwrap();
    game.toggle_cell(1, 2);
    game.toggle_cell(2, 2);
    game.toggle_cell(3, 2);

    run_bench(&mut game, 6);
    for x in 0..5 {
        for y in 0..5 {
            let expected = y == 2 && (x == 1 || x == 2 || x == 3);
            assert_eq!(game.is_cell_alive(x, y), Some(expected));
        }
    }

    run_bench(&mut game, 3);
    for x in 0..5 {
        for y in 0..5 {
            let expected = x == 2 && (y == 1 || y == 2 || y == 3);
            assert_eq!(game.is_cell_alive(x, y), Some(expected));
        }
    }
}
