//! What holds of the rules: how the outcome follows from the filled lines, and
//! how the turn moves along a sequence of moves.

use crate::board::{in_grid, is_full, Marks, Player};
use crate::game::{fills, line_cell, line_owner, outcome_of, winner_from, winner_of, GameState, GameView};
use vstd::prelude::*;

verus! {

/// Every cell of every winning line lies on the grid.
pub proof fn lemma_line_cells_in_grid(k: int, i: int)
    requires
        0 <= k < 8,
        0 <= i < 3,
    ensures
        in_grid(line_cell(k, i).0, line_cell(k, i).1),
{
}

/// An empty board shows a game in progress.
pub proof fn lemma_empty_board_in_progress()
    ensures
        outcome_of(Marks::empty()) == GameState::InProgress,
{
    reveal_with_fuel(winner_from, 9);
}

/// A board has no winner exactly when none of the eight lines is filled.
pub proof fn lemma_no_winner_iff_no_filled_line(marks: Marks)
    ensures
        winner_of(marks) is None <==> forall|k: int|
            0 <= k < 8 ==> #[trigger] line_owner(marks, k) is None,
{
    reveal_with_fuel(winner_from, 9);
}

/// The first filled line in table order decides the winner, whatever the
/// later lines hold.
pub proof fn lemma_first_filled_line_decides(marks: Marks, k: int)
    requires
        0 <= k < 8,
        line_owner(marks, k) is Some,
        forall|j: int| 0 <= j < k ==> #[trigger] line_owner(marks, j) is None,
    ensures
        winner_of(marks) == line_owner(marks, k),
{
    reveal_with_fuel(winner_from, 9);
}

/// A full board on which no line is filled is a draw.
pub proof fn lemma_full_board_without_line_is_drawn(marks: Marks)
    requires
        is_full(marks),
        forall|k: int| 0 <= k < 8 ==> #[trigger] line_owner(marks, k) is None,
    ensures
        outcome_of(marks) == GameState::Drawn,
{
    lemma_no_winner_iff_no_filled_line(marks);
}

/// Whether `player` owns one of the lines that come before line `k` in table
/// order.
pub open spec fn owns_line_before(marks: Marks, player: Player, k: int) -> bool {
    exists|i: int| 0 <= i < k && #[trigger] line_owner(marks, i) == Some(player)
}

/// A line filled with one player's marks wins the game for that player,
/// however many cells are still empty. The one exception, which the second
/// condition leaves out: the other player owns an earlier line, and none of
/// the player's own lines comes before that one.
pub proof fn lemma_filled_line_wins(marks: Marks, k: int, player: Player)
    requires
        0 <= k < 8,
        fills(marks, k, player),
        forall|j: int|
            0 <= j < k && #[trigger] line_owner(marks, j) == Some(player.opponent())
                ==> owns_line_before(marks, player, j),
    ensures
        outcome_of(marks) == GameState::Won(player),
{
    reveal_with_fuel(winner_from, 9);
}

/// On a board without a filled line, the move that fills a line wins the game
/// for the player who made it, at that very turn.
pub proof fn lemma_completing_move_wins(game: GameView, row: int, col: int, k: int)
    requires
        winner_of(game.board) is None,
        !game.board.contains_key((row, col)),
        0 <= k < 8,
        line_owner(game.play(row, col).board, k) is Some,
    ensures
        game.play(row, col).state == GameState::Won(game.player),
{
    let after = game.play(row, col).board;
    lemma_no_winner_iff_no_filled_line(game.board);
    assert forall|j: int| 0 <= j < 8 implies #[trigger] line_owner(after, j) != Some(
        game.player.opponent(),
    ) by {
        assert(line_owner(game.board, j) is None);
    }
    lemma_filled_line_wins(after, k, game.player);
}

/// Marks are never taken off the board by a move: every mark that stood
/// before a turn stands after it.
pub proof fn lemma_marks_stay(game: GameView, row: int, col: int, at: (int, int))
    requires
        game.board.contains_key(at),
    ensures
        game.play(row, col).board.contains_key(at),
        game.play(row, col).board[at] == game.board[at],
{
}

/// A game that is won or drawn never goes back to being in progress.
pub proof fn lemma_finished_game_stays_finished(game: GameView, row: int, col: int)
    requires
        outcome_of(game.board) != GameState::InProgress,
    ensures
        game.play(row, col).state != GameState::InProgress,
{
    let after = game.play(row, col).board;
    lemma_no_winner_iff_no_filled_line(game.board);
    lemma_no_winner_iff_no_filled_line(after);
    if winner_of(game.board) is Some {
        let k: int = choose|k: int| 0 <= k < 8 && #[trigger] line_owner(game.board, k) is Some;
        assert(line_owner(after, k) is Some);
    }
}

/// A drawn game turns down every move on the grid and stays exactly as it is.
pub proof fn lemma_drawn_game_refuses_every_move(game: GameView, row: int, col: int)
    requires
        game.settled(),
        game.state == GameState::Drawn,
        in_grid(row, col),
    ensures
        game.play(row, col) == game,
{
}

/// However many moves are tried on cells that are occupied at the start, the
/// board and the player to move stay as they were, and the state is the
/// outcome that this board shows.
pub proof fn lemma_refused_moves_change_nothing(start: GameView, moves: Seq<(int, int)>)
    requires
        forall|k: int| 0 <= k < moves.len() ==> start.board.contains_key(#[trigger] moves[k]),
    ensures
        start.replay(moves).board == start.board,
        start.replay(moves).player == start.player,
        moves.len() > 0 ==> start.replay(moves).state == outcome_of(start.board),
    decreases moves.len(),
{
    if moves.len() > 0 {
        let earlier = moves.drop_last();
        lemma_refused_moves_change_nothing(start, earlier);
    }
}

/// The player to move after `count` accepted moves of a game that began with
/// Cross: Cross after an even number, Naught after an odd one.
pub open spec fn player_on_turn(count: int) -> Player {
    if count % 2 == 0 {
        Player::Cross
    } else {
        Player::Naught
    }
}

/// Along a sequence of moves from the start of a game, each made on a cell
/// that is empty at its turn, the players take turns strictly: Cross makes
/// the first move, Naught the second, and so on, also once the game is decided.
pub proof fn lemma_turns_alternate(moves: Seq<(int, int)>, count: int)
    requires
        GameView::initial().accepts_all(moves),
        0 <= count <= moves.len(),
    ensures
        GameView::initial().replay(moves.take(count)).player == player_on_turn(count),
    decreases count,
{
    if count > 0 {
        lemma_turns_alternate(moves, count - 1);
        let done = moves.take(count);
        assert(done.drop_last() =~= moves.take(count - 1));
    }
}

} // verus!
