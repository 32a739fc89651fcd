use vstd::prelude::*;

verus! {

/// Number of rows and of columns of the board.
pub const BOARD_SIZE: u8 = 10;

/// A square of the board, by row and column. Any pair of bytes can be
/// written; `is_valid` says whether it lies on the board.
#[derive(Debug, Clone, Copy, PartialEq, Eq, Structural, Hash)]
pub struct Position {
    pub row: u8,
    pub col: u8,
}

impl Position {
    /// The square lies on the ten-by-ten board.
    pub open spec fn on_board(self) -> bool {
        self.row < BOARD_SIZE && self.col < BOARD_SIZE
    }

    /// The square is one of the eight lake squares: rows 4 and 5, columns 2,
    /// 3, 6 and 7.
    pub open spec fn in_lake(self) -> bool {
        (self.row == 4 || self.row == 5) && (self.col == 2 || self.col == 3 || self.col == 6
            || self.col == 7)
    }

    /// The square at `row` and `col`, on the board or not.
    pub fn new(row: u8, col: u8) -> (r: Self)
        ensures
            r.row == row,
            r.col == col,
    {
        Position { row, col }
    }

    /// Returns true if the position is within the 10x10 board.
    pub fn is_valid(&self) -> (r: bool)
        ensures
            r == self.on_board(),
    {
        self.row < BOARD_SIZE && self.col < BOARD_SIZE
    }

    /// Returns true if the position is in a lake, where no piece may stand.
    pub fn is_lake(&self) -> (r: bool)
        ensures
            r == self.in_lake(),
    {
        match (self.row, self.col) {
            (4, 2) | (4, 3) | (5, 2) | (5, 3) | (4, 6) | (4, 7) | (5, 6) | (5, 7) => true,
            _ => false,
        }
    }
}

} // verus!
