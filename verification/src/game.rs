//! The turn cycle: whose move it is, how a move changes the game, and how the
//! outcome is read off the board.

use crate::board::{is_full, Board, Marks, MoveError, Player};
use crate::lemmas::lemma_empty_board_in_progress;
use vstd::prelude::*;

verus! {

/// The eight winning lines, each as its three cells `(row, col)`: the rows from
/// top to bottom, then the columns from left to right, then the two diagonals.
/// Lines are always examined in this order.
pub const WINNING_COMBOS: [[(usize, usize); 3]; 8] = [
    [(0, 0), (0, 1), (0, 2)],
    [(1, 0), (1, 1), (1, 2)],
    [(2, 0), (2, 1), (2, 2)],
    [(0, 0), (1, 0), (2, 0)],
    [(0, 1), (1, 1), (2, 1)],
    [(0, 2), (1, 2), (2, 2)],
    [(0, 0), (1, 1), (2, 2)],
    [(2, 0), (1, 1), (0, 2)],
];

/// Where a game stands.
#[derive(Clone, Copy, Debug, PartialEq, Eq, Structural)]
pub enum GameState {
    InProgress,
    Won(Player),
    Drawn,
}

/// The `i`-th cell of the `k`-th winning line.
pub open spec fn line_cell(k: int, i: int) -> (int, int) {
    (WINNING_COMBOS[k][i].0 as int, WINNING_COMBOS[k][i].1 as int)
}

/// Whether `marks` holds `player`'s mark at `at`.
pub open spec fn holds(marks: Marks, at: (int, int), player: Player) -> bool {
    marks.contains_key(at) && marks[at] == player
}

/// Whether all three cells of line `k` hold `player`'s mark.
pub open spec fn fills(marks: Marks, k: int, player: Player) -> bool {
    holds(marks, line_cell(k, 0), player) && holds(marks, line_cell(k, 1), player) && holds(
        marks,
        line_cell(k, 2),
        player,
    )
}

/// The player whose marks fill line `k`, if there is one.
pub open spec fn line_owner(marks: Marks, k: int) -> Option<Player> {
    if fills(marks, k, Player::Cross) {
        Some(Player::Cross)
    } else if fills(marks, k, Player::Naught) {
        Some(Player::Naught)
    } else {
        None
    }
}

/// The owner of the first filled line among the lines `k`, `k + 1`, …, 7.
pub open spec fn winner_from(marks: Marks, k: int) -> Option<Player>
    decreases 8 - k,
{
    if k < 0 || k >= 8 {
        None
    } else if line_owner(marks, k) is Some {
        line_owner(marks, k)
    } else {
        winner_from(marks, k + 1)
    }
}

/// The owner of the first filled line in table order, if any line is filled.
pub open spec fn winner_of(marks: Marks) -> Option<Player> {
    winner_from(marks, 0)
}

/// The outcome that a board shows: a win for the owner of its first filled
/// line, else a draw if no cell is left, else a game still in progress.
pub open spec fn outcome_of(marks: Marks) -> GameState {
    match winner_of(marks) {
        Some(player) => GameState::Won(player),
        None => if is_full(marks) {
            GameState::Drawn
        } else {
            GameState::InProgress
        },
    }
}

/// The mathematical content of a [`Game`].
pub struct GameView {
    pub board: Marks,
    pub player: Player,
    pub state: GameState,
}

impl GameView {
    /// A game before the first move.
    pub open spec fn initial() -> GameView {
        GameView { board: Marks::empty(), player: Player::Cross, state: GameState::InProgress }
    }

    /// Whether the recorded state is the outcome that the board shows.
    pub open spec fn settled(self) -> bool {
        self.state == outcome_of(self.board)
    }

    /// The game after the player to move tries `(row, col)`. On an empty cell the
    /// mark is placed and the turn passes; on an occupied one nothing moves.
    /// Either way the state is read anew off the board.
    pub open spec fn play(self, row: int, col: int) -> GameView {
        if self.board.contains_key((row, col)) {
            GameView { board: self.board, player: self.player, state: outcome_of(self.board) }
        } else {
            let board = self.board.insert((row, col), self.player);
            GameView { board, player: self.player.opponent(), state: outcome_of(board) }
        }
    }

    /// The game after trying each of `moves` in turn.
    pub open spec fn replay(self, moves: Seq<(int, int)>) -> GameView
        decreases moves.len(),
    {
        if moves.len() == 0 {
            self
        } else {
            self.replay(moves.drop_last()).play(moves.last().0, moves.last().1)
        }
    }

    /// Whether each of `moves`, tried in turn, lands on a cell that is empty
    /// when its turn comes.
    pub open spec fn accepts_all(self, moves: Seq<(int, int)>) -> bool {
        forall|k: int|
            0 <= k < moves.len() ==> !self.replay(#[trigger] moves.take(k)).board.contains_key(
                moves[k],
            )
    }
}

/// A game of tic-tac-toe: the board, the player to move, and the outcome as of
/// the last turn.
pub struct Game {
    pub player: Player,
    pub board: Board,
    pub state: GameState,
}

impl View for Game {
    type V = GameView;

    open spec fn view(&self) -> GameView {
        GameView { board: self.board@, player: self.player, state: self.state }
    }
}

impl Game {
    /// A fresh game: an empty board, Cross to move, in progress.
    pub fn new() -> (game: Game)
        ensures
            game@ == GameView::initial(),
            game@.settled(),
    {
        let game = Game { board: Board::new(), player: Player::Cross, state: GameState::InProgress };
        proof {
            lemma_empty_board_in_progress();
        }
        game
    }

    /// Starts over: empties the board, gives the move to Cross and sets the
    /// state back to in progress.
    pub fn reset_board(&mut self)
        ensures
            final(self)@ == GameView::initial(),
            final(self)@.settled(),
    {
        self.board.clear();
        self.player = Player::Cross;
        self.state = GameState::InProgress;
        proof {
            lemma_empty_board_in_progress();
        }
    }

    /// Tries to place the mark of the player to move at `(row, col)`.
    ///
    /// On an empty cell the mark is placed, the turn passes to the other player
    /// and `Ok` is returned. On an occupied cell the board and the player to
    /// move stay as they were and the refusal is returned. In both cases the
    /// state is then read anew off the board. A game that is already won or
    /// drawn still takes moves on its empty cells.
    pub fn play_turn(&mut self, row: usize, col: usize) -> (result: Result<(), MoveError>)
        requires
            row < 3,
            col < 3,
        ensures
            final(self)@ == old(self)@.play(row as int, col as int),
            final(self)@.settled(),
            result is Err <==> old(self)@.board.contains_key((row as int, col as int)),
            result matches Err(error) ==> error == MoveError::CellOccupied,
    {
        let result = self.board.set_cell(row, col, self.player);
        if result.is_ok() {
            self.toggle_player();
        }
        let state = match self.find_winner() {
            Some(player) => GameState::Won(*player),
            None => {
                if self.board_is_full() {
                    GameState::Drawn
                } else {
                    GameState::InProgress
                }
            },
        };
        self.state = state;
        result
    }

    /// Passes the turn to the other player.
    pub fn toggle_player(&mut self)
        ensures
            final(self).player == old(self).player.opponent(),
            final(self).board == old(self).board,
            final(self).state == old(self).state,
    {
        self.player = match self.player {
            Player::Cross => Player::Naught,
            Player::Naught => Player::Cross,
        };
    }

    /// Whether no cell of the board is left empty.
    pub fn board_is_full(&self) -> (full: bool)
        ensures
            full == is_full(self.board@),
    {
        self.board.board_is_full()
    }

    /// The first filled line's owner, scanning the lines in table order.
    pub fn find_winner(&self) -> (found: Option<&Player>)
        ensures
            match found {
                Some(player) => winner_of(self.board@) == Some(*player),
                None => winner_of(self.board@) is None,
            },
    {
        let mut winner: Option<&Player> = None;
        let mut k: usize = 0;
        while k < 8
            invariant_except_break
                winner is None,
            invariant
                k <= 8,
                winner_from(self.board@, k as int) == winner_of(self.board@),
            ensures
                match winner {
                    Some(player) => winner_of(self.board@) == Some(*player),
                    None => winner_of(self.board@) is None,
                },
            decreases 8 - k,
        {
            let combo = WINNING_COMBOS[k];
            // The occupant of the line's first cell is the candidate.
            let player = self.board.get_cell(combo[0].0, combo[0].1);
            let mut i: usize = 0;
            while i < 3
                invariant_except_break
                    i > 0 ==> winner is Some,
                    winner matches Some(kept) ==> *kept == self.board@[line_cell(k as int, 0)],
                    forall|j: int|
                        0 <= j < i ==> holds(
                            self.board@,
                            #[trigger] line_cell(k as int, j),
                            self.board@[line_cell(k as int, 0)],
                        ),
                invariant
                    k < 8,
                    i <= 3,
                    combo == WINNING_COMBOS[k as int],
                    player is Some <==> self.board@.contains_key(line_cell(k as int, 0)),
                    player matches Some(first) ==> *first == self.board@[line_cell(k as int, 0)],
                ensures
                    match winner {
                        Some(kept) => line_owner(self.board@, k as int) == Some(*kept),
                        None => line_owner(self.board@, k as int) is None,
                    },
                decreases 3 - i,
            {
                let cell = combo[i];
                let current = self.board.get_cell(cell.0, cell.1);
                if current.is_some() && player.is_some() && *current.unwrap() == *player.unwrap() {
                    // A match so far: keep the candidate and go on along the line.
                    winner = current;
                } else {
                    // One cell that differs rules the line out.
                    winner = None;
                    break ;
                }
                i += 1;
            }
            if winner.is_some() {
                break ;
            }
            k += 1;
        }
        winner
    }
}

} // verus!
