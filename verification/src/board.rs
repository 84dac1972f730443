//! The 3×3 grid and the single gate through which marks are placed on it.
//!
//! A board is modelled as a partial map from coordinates `(row, col)` to the
//! player whose mark stands there: a coordinate outside the map's domain is an
//! empty cell.

use vstd::prelude::*;

verus! {

/// One of the two sides.
#[derive(Clone, Copy, Debug, PartialEq, Eq, Structural)]
pub enum Player {
    Cross,
    Naught,
}

impl Player {
    /// The side that moves after `self`.
    pub open spec fn opponent(self) -> Player {
        match self {
            Player::Cross => Player::Naught,
            Player::Naught => Player::Cross,
        }
    }
}

/// Why a move was turned down.
#[derive(Clone, Copy, Debug, PartialEq, Eq, Structural)]
pub enum MoveError {
    /// The target cell already holds a mark.
    CellOccupied,
}

impl MoveError {
    /// A short description of the error, fit for showing to a player.
    pub fn message(&self) -> (text: &'static str)
        ensures
            text@ == "cell already occupied"@,
    {
        match self {
            MoveError::CellOccupied => "cell already occupied",
        }
    }
}

/// The marks on a board: the domain holds the occupied coordinates.
pub type Marks = Map<(int, int), Player>;

/// Whether `(row, col)` names one of the nine cells.
pub open spec fn in_grid(row: int, col: int) -> bool {
    0 <= row < 3 && 0 <= col < 3
}

/// Whether every mark stands on one of the nine cells.
pub open spec fn within_grid(marks: Marks) -> bool {
    forall|row: int, col: int| #[trigger] marks.contains_key((row, col)) ==> in_grid(row, col)
}

/// Whether every one of the nine cells holds a mark.
pub open spec fn is_full(marks: Marks) -> bool {
    forall|row: int, col: int| in_grid(row, col) ==> #[trigger] marks.contains_key((row, col))
}

/// A 3×3 grid of cells, each empty or holding one player's mark.
pub struct Board {
    cells: [[Option<Player>; 3]; 3],
}

impl View for Board {
    type V = Marks;

    closed spec fn view(&self) -> Marks {
        Map::new(
            |at: (int, int)| in_grid(at.0, at.1) && self.cells[at.0][at.1] is Some,
            |at: (int, int)| self.cells[at.0][at.1]->0,
        )
    }
}

impl Board {
    /// No board holds a mark outside the grid.
    pub proof fn lemma_within_grid(&self)
        ensures
            within_grid(self@),
    {
    }

    /// A board with every cell empty.
    pub fn new() -> (board: Board)
        ensures
            board@ == Marks::empty(),
    {
        Board { cells: [[None; 3]; 3] }
    }

    /// The mark at `(row, col)`, or `None` where the cell is empty.
    pub fn get_cell(&self, row: usize, col: usize) -> (cell: Option<&Player>)
        requires
            row < 3,
            col < 3,
        ensures
            cell is Some <==> self@.contains_key((row as int, col as int)),
            cell matches Some(player) ==> *player == self@[(row as int, col as int)],
    {
        self.cells[row][col].as_ref()
    }

    /// Places `player`'s mark at `(row, col)` if the cell is empty, and
    /// otherwise refuses and leaves the board as it was.
    pub fn set_cell(&mut self, row: usize, col: usize, player: Player) -> (result: Result<
        (),
        MoveError,
    >)
        requires
            row < 3,
            col < 3,
        ensures
            result is Err <==> old(self)@.contains_key((row as int, col as int)),
            result is Err ==> *final(self) == *old(self),
            result is Ok ==> final(self)@ == old(self)@.insert((row as int, col as int), player),
            result matches Err(error) ==> error == MoveError::CellOccupied,
    {
        if self.cells[row][col].is_some() {
            return Err(MoveError::CellOccupied);
        }
        self.cells[row][col] = Some(player);
        Ok(())
    }

    /// Whether every cell holds a mark.
    pub fn board_is_full(&self) -> (full: bool)
        ensures
            full == is_full(self@),
    {
        let mut row: usize = 0;
        while row < 3
            invariant
                row <= 3,
                forall|r: int, c: int| 0 <= r < row && 0 <= c < 3 ==> self@.contains_key((r, c)),
            decreases 3 - row,
        {
            let mut col: usize = 0;
            while col < 3
                invariant
                    row < 3,
                    col <= 3,
                    forall|r: int, c: int|
                        0 <= r < row && 0 <= c < 3 ==> self@.contains_key((r, c)),
                    forall|c: int| 0 <= c < col ==> self@.contains_key((row as int, c)),
                decreases 3 - col,
            {
                if self.cells[row][col].is_none() {
                    assert(!self@.contains_key((row as int, col as int)));
                    return false;
                }
                col += 1;
            }
            row += 1;
        }
        true
    }

    /// Empties every cell.
    pub fn clear(&mut self)
        ensures
            final(self)@ == Marks::empty(),
    {
        self.cells = [[None; 3]; 3];
    }
}

} // verus!
