use tic_tac_toe::board::Board;
use tic_tac_toe::board::Cell;
use tic_tac_toe::board::MoveError;
use tic_tac_toe::player::Player;

#[test]
fn new_board_is_empty_with_x_to_move() {
    let b = Board::new();
    assert_eq!(b.grid.len(), 9);
    for i in 0..9 {
        assert_eq!(b.grid[i], Cell::Empty);
    }
    assert_eq!(b.current_turn, Player::X);
    assert_eq!(b.outcome, None);
}

#[test]
fn first_move_marks_the_square_and_no_winner() {
    let mut b = Board::new();
    assert!(b.place(0).is_ok());
    assert_eq!(b.grid[0], Cell::OccupiedBy(Player::X));
    assert_eq!(b.evaluate(), None);
    assert_eq!(b.outcome, None);
}

#[test]
fn top_row_wins_after_five_alternating_moves() {
    let mut b = Board::new();
    assert_eq!(b.step(0), Ok(None)); // X
    assert_eq!(b.step(3), Ok(None)); // O
    assert_eq!(b.step(1), Ok(None)); // X
    assert_eq!(b.step(4), Ok(None)); // O
    assert_eq!(b.step(2), Ok(Some(Player::X))); // X completes the top row
    assert_eq!(b.outcome, Some(Player::X));
    // the game is over: the turn did not pass after the winning move
    assert_eq!(b.current_turn, Player::X);
}

#[test]
fn out_of_range_and_occupied_are_rejected() {
    let mut b = Board::new();
    assert_eq!(b.place(9), Err(MoveError::OutOfRange));
    assert!(b.place(0).is_ok());
    assert_eq!(b.place(0), Err(MoveError::Occupied));
}

#[test]
fn rejected_moves_leave_the_board_unchanged() {
    let mut b = Board::new();
    assert!(b.place(4).is_ok());
    let grid_before = b.grid.clone();
    let turn_before = b.current_turn;
    let outcome_before = b.outcome;

    assert_eq!(b.place(42), Err(MoveError::OutOfRange));
    assert_eq!(b.grid, grid_before);
    assert_eq!(b.current_turn, turn_before);
    assert_eq!(b.outcome, outcome_before);

    assert_eq!(b.place(4), Err(MoveError::Occupied));
    assert_eq!(b.grid, grid_before);
    assert_eq!(b.current_turn, turn_before);
    assert_eq!(b.outcome, outcome_before);
}

#[test]
fn main_diagonal_wins() {
    let mut b = Board::new();
    assert_eq!(b.step(0), Ok(None)); // X
    assert_eq!(b.step(1), Ok(None)); // O
    assert_eq!(b.step(4), Ok(None)); // X
    assert_eq!(b.step(2), Ok(None)); // O
    assert_eq!(b.step(8), Ok(Some(Player::X))); // X completes 0, 4, 8
}

#[test]
fn column_win_is_detected() {
    let mut b = Board::new();
    assert_eq!(b.step(1), Ok(None)); // X
    assert_eq!(b.step(0), Ok(None)); // O
    assert_eq!(b.step(4), Ok(None)); // X
    assert_eq!(b.step(2), Ok(None)); // O
    assert_eq!(b.step(7), Ok(Some(Player::X))); // X completes column 1, 4, 7
}

#[test]
fn anti_diagonal_wins_and_beats_another_complete_line() {
    // An adversarial grid, not a legal game: X marks squares 3 and 5 first,
    // then the anti-diagonal 2, 4, 6, so the middle row 3, 4, 5 and the
    // anti-diagonal are both complete in the same evaluation pass. The
    // anti-diagonal is checked last, so its player is reported.
    let mut b = Board::new();
    assert!(b.place(3).is_ok());
    assert!(b.place(5).is_ok());
    assert!(b.place(2).is_ok());
    assert!(b.place(4).is_ok());
    assert!(b.place(6).is_ok());
    assert_eq!(b.evaluate(), Some(Player::X));
}

#[test]
fn last_complete_line_in_evaluation_order_wins() {
    // Another adversarial grid: X owns the top row, O the bottom row. Rows
    // are checked top to bottom and each complete line overwrites the winner
    // found so far, so the bottom row's player is reported.
    let mut b = Board::new();
    assert!(b.place(0).is_ok());
    assert!(b.place(1).is_ok());
    assert!(b.place(2).is_ok());
    b.toggle_turn();
    assert!(b.place(6).is_ok());
    assert!(b.place(7).is_ok());
    assert!(b.place(8).is_ok());
    assert_eq!(b.evaluate(), Some(Player::O));
}

#[test]
fn evaluate_is_idempotent() {
    let mut b = Board::new();
    assert!(b.place(0).is_ok());
    let first = b.evaluate();
    assert_eq!(b.evaluate(), first);

    let mut won = Board::new();
    assert!(won.place(0).is_ok());
    assert!(won.place(1).is_ok());
    assert!(won.place(2).is_ok());
    let first = won.evaluate();
    assert_eq!(first, Some(Player::X));
    assert_eq!(won.evaluate(), first);
}

#[test]
fn toggle_turn_alternates_the_player() {
    let mut b = Board::new();
    assert_eq!(b.current_turn, Player::X);
    b.toggle_turn();
    assert_eq!(b.current_turn, Player::O);
    b.toggle_turn();
    assert_eq!(b.current_turn, Player::X);
}

#[test]
fn successful_move_then_no_winner_passes_the_turn() {
    let mut b = Board::new();
    let before = b.current_turn;
    assert_eq!(b.step(4), Ok(None));
    assert_ne!(b.current_turn, before);
    assert_eq!(b.current_turn, Player::O);
}

#[test]
fn rejected_step_keeps_the_turn() {
    let mut b = Board::new();
    assert_eq!(b.step(9), Err(MoveError::OutOfRange));
    assert_eq!(b.current_turn, Player::X);
    assert_eq!(b.step(0), Ok(None));
    assert_eq!(b.step(0), Err(MoveError::Occupied));
    assert_eq!(b.current_turn, Player::O);
}

#[test]
fn place_does_not_pass_the_turn_or_evaluate() {
    let mut b = Board::new();
    assert!(b.place(0).is_ok());
    assert_eq!(b.current_turn, Player::X);
    assert_eq!(b.outcome, None);
}
