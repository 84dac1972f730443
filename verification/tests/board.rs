use tictactoe::board::{Board, MoveError, Player};

fn marks_on(board: &Board) -> usize {
    let mut count = 0;
    for row in 0..3 {
        for col in 0..3 {
            if board.get_cell(row, col).is_some() {
                count += 1;
            }
        }
    }
    count
}

#[test]
fn new_board_has_nine_empty_cells() {
    let board = Board::new();
    for row in 0..3 {
        for col in 0..3 {
            assert_eq!(board.get_cell(row, col), None);
        }
    }
    assert!(!board.board_is_full());
}

#[test]
fn set_cell_records_the_mark_and_nothing_else() {
    let mut board = Board::new();
    assert_eq!(board.set_cell(1, 2, Player::Naught), Ok(()));
    assert_eq!(board.get_cell(1, 2), Some(&Player::Naught));
    assert_eq!(marks_on(&board), 1);
    assert_eq!(board.set_cell(2, 0, Player::Cross), Ok(()));
    assert_eq!(board.get_cell(2, 0), Some(&Player::Cross));
    assert_eq!(board.get_cell(1, 2), Some(&Player::Naught));
    assert_eq!(board.get_cell(0, 2), None);
    assert_eq!(board.get_cell(2, 1), None);
    assert_eq!(marks_on(&board), 2);
}

#[test]
fn set_cell_refuses_an_occupied_cell_and_keeps_the_first_mark() {
    let mut board = Board::new();
    assert_eq!(board.set_cell(0, 0, Player::Cross), Ok(()));
    assert_eq!(board.set_cell(0, 0, Player::Naught), Err(MoveError::CellOccupied));
    assert_eq!(board.get_cell(0, 0), Some(&Player::Cross));
    assert_eq!(board.set_cell(0, 0, Player::Cross), Err(MoveError::CellOccupied));
    assert_eq!(board.get_cell(0, 0), Some(&Player::Cross));
    assert_eq!(marks_on(&board), 1);
}

#[test]
fn board_is_full_only_once_the_ninth_cell_is_marked() {
    let mut board = Board::new();
    let mut placed = 0;
    for row in 0..3 {
        for col in 0..3 {
            assert!(!board.board_is_full());
            assert_eq!(board.set_cell(row, col, Player::Cross), Ok(()));
            placed += 1;
            assert_eq!(marks_on(&board), placed);
        }
    }
    assert!(board.board_is_full());
}

#[test]
fn board_with_only_the_last_cell_empty_is_not_full() {
    let mut board = Board::new();
    for row in 0..3 {
        for col in 0..3 {
            if (row, col) != (2, 2) {
                assert_eq!(board.set_cell(row, col, Player::Naught), Ok(()));
            }
        }
    }
    assert!(!board.board_is_full());
}

#[test]
fn board_with_only_the_first_cell_empty_is_not_full() {
    let mut board = Board::new();
    for row in 0..3 {
        for col in 0..3 {
            if (row, col) != (0, 0) {
                assert_eq!(board.set_cell(row, col, Player::Naught), Ok(()));
            }
        }
    }
    assert!(!board.board_is_full());
}

#[test]
fn clear_empties_every_cell() {
    let mut board = Board::new();
    for row in 0..3 {
        for col in 0..3 {
            assert_eq!(board.set_cell(row, col, Player::Naught), Ok(()));
        }
    }
    board.clear();
    assert_eq!(marks_on(&board), 0);
    assert!(!board.board_is_full());
    assert_eq!(board.set_cell(1, 1, Player::Cross), Ok(()));
    assert_eq!(board.get_cell(1, 1), Some(&Player::Cross));
}

#[test]
fn occupied_cell_error_describes_itself() {
    assert_eq!(MoveError::CellOccupied.message(), "cell already occupied");
}
