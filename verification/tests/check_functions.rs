use tic_tac_toe::board::Field;
use tic_tac_toe::checks::cats_game;
use tic_tac_toe::checks::check_for_diagonals;
use tic_tac_toe::checks::check_for_two;
use tic_tac_toe::checks::someone_has_won;

// someone_has_won exercises check_for_three on every line, so the win tests
// cover both.
#[test]
fn test_someone_has_won_rows() {
    let board = vec![Field::Cross, Field::Cross, Field::Cross, Field::Free, Field::Free, Field::Free, Field::Free, Field::Free, Field::Free];
    let results = someone_has_won(&board);
    assert_eq!(true, results.0);
}

#[test]
fn test_someone_has_won_rows_second() {
    let board = vec![Field::Free, Field::Free, Field::Free, Field::Cross, Field::Cross, Field::Cross, Field::Free, Field::Free, Field::Free];
    let results = someone_has_won(&board);
    assert_eq!(true, results.0);
}

#[test]
fn test_someone_has_won_rows_third() {
    let board = vec![Field::Free, Field::Free, Field::Free, Field::Free, Field::Free, Field::Free, Field::Cross, Field::Cross, Field::Cross];
    let results = someone_has_won(&board);
    assert_eq!(true, results.0);
}

#[test]
fn test_someone_has_won_cols() {
    let board = vec![Field::Cross, Field::Free, Field::Free, Field::Cross, Field::Free, Field::Free, Field::Cross, Field::Free, Field::Free];
    let results = someone_has_won(&board);
    assert_eq!(true, results.0);
}

#[test]
fn test_someone_has_won_cols_second_col() {
    let board = vec![Field::Free, Field::Cross, Field::Free, Field::Free, Field::Cross, Field::Free, Field::Free, Field::Cross, Field::Free];
    let results = someone_has_won(&board);
    assert_eq!(true, results.0);
}

#[test]
fn test_someone_has_won_cols_third_col() {
    let board = vec![Field::Free, Field::Free, Field::Cross, Field::Free, Field::Free, Field::Cross, Field::Free, Field::Free, Field::Cross];
    let results = someone_has_won(&board);
    assert_eq!(true, results.0);
}

#[test]
fn test_someone_has_won_diags() {
    let board = vec![Field::Cross, Field::Free, Field::Free, Field::Free, Field::Cross, Field::Free, Field::Free, Field::Free, Field::Cross];
    let results = someone_has_won(&board);
    assert_eq!(true, results.0);
}

#[test]
fn test_someone_has_won_diags_other_side() {
    let board = vec![Field::Free, Field::Free, Field::Cross, Field::Free, Field::Cross, Field::Free, Field::Cross, Field::Free, Field::Free];
    let results = someone_has_won(&board);
    assert_eq!(true, results.0);
}

#[test]
fn test_cats_game_happened() {
    let board = vec![Field::Circle, Field::Circle, Field::Cross, Field::Circle, Field::Cross, Field::Circle, Field::Cross, Field::Circle, Field::Circle];
    assert_eq!(true, cats_game(&board));
}

#[test]
fn test_cats_game_has_not_happened() {
    let board = vec![Field::Circle, Field::Circle, Field::Cross, Field::Circle, Field::Cross, Field::Circle, Field::Cross, Field::Circle, Field::Free];
    assert_eq!(false, cats_game(&board));
}

#[test]
fn test_check_for_two_rows() {
    let board = vec![Field::Cross, Field::Cross, Field::Free, Field::Free, Field::Free, Field::Free, Field::Free, Field::Free, Field::Free];
    let results = check_for_two(&board, false);
    assert_eq!(true, results.0);
    assert_eq!(2, results.1);
}

#[test]
fn test_check_for_two_rows_second() {
    let board = vec![Field::Free, Field::Free, Field::Free, Field::Cross, Field::Free, Field::Cross, Field::Free, Field::Free, Field::Free];
    let results = check_for_two(&board, false);
    assert_eq!(true, results.0);
    assert_eq!(4, results.1);
}

#[test]
fn test_check_for_two_rows_third() {
    let board = vec![Field::Free, Field::Free, Field::Free, Field::Free, Field::Free, Field::Free, Field::Cross, Field::Cross, Field::Free];
    let results = check_for_two(&board, false);
    assert_eq!(true, results.0);
    assert_eq!(8, results.1);
}

#[test]
fn test_check_for_two_cols() {
    let board = vec![Field::Cross, Field::Free, Field::Free, Field::Free, Field::Free, Field::Free, Field::Cross, Field::Free, Field::Free];
    let results = check_for_two(&board, true);
    assert_eq!(true, results.0);
    assert_eq!(3, results.1);
}

#[test]
fn test_check_for_two_cols_second_col() {
    let board = vec![Field::Free, Field::Cross, Field::Free, Field::Free, Field::Cross, Field::Free, Field::Free, Field::Free, Field::Free];
    let results = check_for_two(&board, true);
    assert_eq!(true, results.0);
    assert_eq!(7, results.1);
}

#[test]
fn test_check_for_two_cols_third_col() {
    let board = vec![Field::Free, Field::Free, Field::Free, Field::Free, Field::Free, Field::Cross, Field::Free, Field::Free, Field::Cross];
    let results = check_for_two(&board, true);
    assert_eq!(true, results.0);
    assert_eq!(2, results.1)
}

#[test]
fn test_check_for_diagonals() {
    let board = vec![Field::Cross, Field::Free, Field::Free, Field::Free, Field::Cross, Field::Free, Field::Free, Field::Free, Field::Free];
    let results = check_for_diagonals(&board);
    assert_eq!(true, results.0);
    assert_eq!(8, results.1);
}

#[test]
fn test_check_for_diagonals_other_side() {
    let board = vec![Field::Free, Field::Free, Field::Free, Field::Free, Field::Cross, Field::Free, Field::Cross, Field::Free, Field::Free];
    let results = check_for_diagonals(&board);
    assert_eq!(true, results.0);
    assert_eq!(2, results.1)
}
