//! The playing field: nine cells, who may mark them, and who has won.

use vstd::prelude::*;

verus! {

/// What one of the nine positions holds.
#[derive(Clone, Copy, Debug, PartialEq, Eq, Structural)]
pub enum Cell {
    Empty,
    MarkX,
    MarkO,
}

/// A participant. `No` stands for "nobody": no winner yet.
#[derive(Clone, Copy, Debug, PartialEq, Eq, Structural)]
pub enum Player {
    No,
    Px,
    Po,
}

/// The mark that a player places: `MarkX` for `Px`, `MarkO` for anyone else.
pub open spec fn mark_of(player: Player) -> Cell {
    if player == Player::Px {
        Cell::MarkX
    } else {
        Cell::MarkO
    }
}

/// The character that shows a cell on screen.
pub open spec fn cell_char(cell: Cell) -> char {
    match cell {
        Cell::Empty => '-',
        Cell::MarkX => 'X',
        Cell::MarkO => 'O',
    }
}

/// The player who moves when `player` does not: O for X, X for anyone else.
pub open spec fn opponent(player: Player) -> Player {
    if player == Player::Px {
        Player::Po
    } else {
        Player::Px
    }
}

/// The cells of a field on which nobody has moved yet.
pub open spec fn empty_cells() -> Seq<Cell> {
    Seq::new(9, |i: int| Cell::Empty)
}

/// The cell at `idx` is free, so a move there is accepted.
pub open spec fn vacant(cells: Seq<Cell>, idx: int) -> bool {
    cells[idx] == Cell::Empty
}

/// The cells after `player` has tried to move to `idx`: the mark is placed on a
/// free cell, and an occupied cell leaves everything as it was.
pub open spec fn after_move(cells: Seq<Cell>, player: Player, idx: int) -> Seq<Cell> {
    if vacant(cells, idx) {
        cells.update(idx, mark_of(player))
    } else {
        cells
    }
}

/// At least one cell is still free.
pub open spec fn has_empty(cells: Seq<Cell>) -> bool {
    exists|i: int| 0 <= i < cells.len() && cells[i] == Cell::Empty
}

/// How many of the cells hold `mark`.
pub open spec fn count_of(cells: Seq<Cell>, mark: Cell) -> nat
    decreases cells.len(),
{
    if cells.len() == 0 {
        0
    } else {
        count_of(cells.drop_last(), mark) + if cells.last() == mark {
            1nat
        } else {
            0nat
        }
    }
}

/// The eight winning lines: three rows, three columns, two diagonals.
pub const WIN_LINES: [(usize, usize, usize); 8] = [
    (0, 1, 2),
    (3, 4, 5),
    (6, 7, 8),
    (0, 3, 6),
    (1, 4, 7),
    (2, 5, 8),
    (0, 4, 8),
    (2, 4, 6),
];

/// All three cells of `line` hold `mark`.
pub open spec fn line_full(cells: Seq<Cell>, line: (usize, usize, usize), mark: Cell) -> bool {
    &&& cells[line.0 as int] == mark
    &&& cells[line.1 as int] == mark
    &&& cells[line.2 as int] == mark
}

/// Some winning line is filled with `mark`.
pub open spec fn wins(cells: Seq<Cell>, mark: Cell) -> bool {
    exists|k: int| 0 <= k < 8 && line_full(cells, #[trigger] WIN_LINES[k], mark)
}

/// The winner that the cells show: X is looked at first, then O.
pub open spec fn winner_of(cells: Seq<Cell>) -> Player {
    if wins(cells, Cell::MarkX) {
        Player::Px
    } else if wins(cells, Cell::MarkO) {
        Player::Po
    } else {
        Player::No
    }
}

/// The character of a player's mark: `'X'` for `Px`, `'O'` for anyone else.
pub fn player_marker(player: &Player) -> (marker: char)
    ensures
        marker == cell_char(mark_of(*player)),
{
    if *player == Player::Px {
        'X'
    } else {
        'O'
    }
}

impl Cell {
    /// The character that shows this cell: `'-'`, `'X'` or `'O'`.
    pub fn marker(self) -> (c: char)
        ensures
            c == cell_char(self),
    {
        match self {
            Cell::Empty => '-',
            Cell::MarkX => 'X',
            Cell::MarkO => 'O',
        }
    }

    /// The mark that `player` places.
    pub fn of_player(player: &Player) -> (mark: Cell)
        ensures
            mark == mark_of(*player),
    {
        if *player == Player::Px {
            Cell::MarkX
        } else {
            Cell::MarkO
        }
    }
}

/// The 3x3 playing field. Cell `row * 3 + col` is the one in that row and column.
/// Cells start empty, `make_move` is the only way to change one, and it never
/// touches a cell that is already marked.
#[derive(Clone, Copy, Debug)]
pub struct Field {
    cells: [Cell; 9],
}

impl View for Field {
    type V = Seq<Cell>;

    closed spec fn view(&self) -> Seq<Cell> {
        self.cells@
    }
}

impl Field {
    /// A field always has exactly nine cells.
    pub proof fn lemma_nine_cells(&self)
        ensures
            self@.len() == 9,
    {
    }

    /// An empty field.
    pub fn new() -> (field: Field)
        ensures
            field@ == empty_cells(),
    {
        Field { cells: [Cell::Empty;9] }
    }

    /// The cell at `idx`.
    pub fn get(&self, idx: usize) -> (cell: Cell)
        requires
            idx < 9,
        ensures
            cell == self@[idx as int],
    {
        self.cells[idx]
    }

    /// The character that shows the cell at `idx`.
    pub fn val_c(&self, idx: usize) -> (c: char)
        requires
            idx < 9,
        ensures
            c == cell_char(self@[idx as int]),
    {
        self.cells[idx].marker()
    }

    /// The three characters of row `r`, left to right.
    pub fn row(&self, r: usize) -> (marks: [char; 3])
        requires
            r < 3,
        ensures
            forall|col: int| 0 <= col < 3 ==> marks[col] == cell_char(self@[3 * r + col]),
    {
        let first: usize = 3 * r;
        [self.val_c(first), self.val_c(first + 1), self.val_c(first + 2)]
    }

    /// Whether the player's mark fills one of the winning lines.
    pub fn check_win_p(&self, player: &Player) -> (won: bool)
        ensures
            won == wins(self@, mark_of(*player)),
    {
        let mark = Cell::of_player(player);
        let mut k: usize = 0;
        while k < 8
            invariant
                k <= 8,
                mark == mark_of(*player),
                forall|j: int| 0 <= j < k ==> !line_full(self@, #[trigger] WIN_LINES[j], mark),
            decreases 8 - k,
        {
            let line = WIN_LINES[k];
            if self.cells[line.0] == mark && self.cells[line.1] == mark && self.cells[line.2]
                == mark {
                return true;
            }
            k += 1;
        }
        false
    }

    /// The player who has filled a winning line, X being looked at first;
    /// `Player::No` when neither has.
    pub fn check_win(&self) -> (winner: Player)
        ensures
            winner == winner_of(self@),
    {
        if self.check_win_p(&Player::Px) {
            Player::Px
        } else if self.check_win_p(&Player::Po) {
            Player::Po
        } else {
            Player::No
        }
    }

    /// Places the player's mark at `idx` if that cell is free and says whether it
    /// did. An occupied cell is left alone, and so is the rest of the field.
    pub fn make_move(&mut self, pl: &Player, idx: usize) -> (placed: bool)
        requires
            idx < 9,
        ensures
            placed == vacant(old(self)@, idx as int),
            final(self)@ == after_move(old(self)@, *pl, idx as int),
    {
        if self.cells[idx] == Cell::Empty {
            self.cells[idx] = Cell::of_player(pl);
            true
        } else {
            false
        }
    }

    /// Whether a move is still possible: some cell is free.
    pub fn move_left(&self) -> (left: bool)
        ensures
            left == has_empty(self@),
    {
        let mut i: usize = 0;
        while i < 9
            invariant
                i <= 9,
                forall|j: int| 0 <= j < i ==> self@[j] != Cell::Empty,
            decreases 9 - i,
        {
            if self.cells[i] == Cell::Empty {
                return true;
            }
            i += 1;
        }
        false
    }
}

} // verus!
