//! What holds of the playing field whatever is played on it, stated over the
//! same functions on cells that the contracts of `Field` use.

use crate::board::{
    after_move, count_of, empty_cells, has_empty, mark_of, opponent, vacant, winner_of, wins, Cell,
    Player, WIN_LINES,
};
use vstd::prelude::*;

verus! {

/// On a new field every one of the nine cells is empty.
pub proof fn lemma_new_field_is_empty(idx: int)
    requires
        0 <= idx < 9,
    ensures
        empty_cells().len() == 9,
        empty_cells()[idx] == Cell::Empty,
{
}

/// A new field has no winner, neither mark fills a line on it, and a move is
/// possible.
pub proof fn lemma_new_field_is_open()
    ensures
        !wins(empty_cells(), Cell::MarkX),
        !wins(empty_cells(), Cell::MarkO),
        winner_of(empty_cells()) == Player::No,
        has_empty(empty_cells()),
{
    assert(empty_cells()[0] == Cell::Empty);
}

/// On a new field every move of every player is accepted, and the cell then
/// holds that player's mark.
pub proof fn lemma_first_move_is_accepted(player: Player, idx: int)
    requires
        0 <= idx < 9,
    ensures
        vacant(empty_cells(), idx),
        after_move(empty_cells(), player, idx)[idx] == mark_of(player),
{
}

/// A move changes the cell it goes to and no other, and keeps the nine cells
/// nine.
pub proof fn lemma_move_touches_one_cell(cells: Seq<Cell>, player: Player, idx: int, other: int)
    requires
        0 <= idx < cells.len(),
        0 <= other < cells.len(),
        other != idx,
    ensures
        after_move(cells, player, idx).len() == cells.len(),
        after_move(cells, player, idx)[other] == cells[other],
{
}

/// A cell that holds a mark keeps it, whoever moves and wherever.
pub proof fn lemma_marks_are_never_reset(cells: Seq<Cell>, player: Player, idx: int, marked: int)
    requires
        0 <= idx < cells.len(),
        0 <= marked < cells.len(),
        cells[marked] != Cell::Empty,
    ensures
        after_move(cells, player, idx)[marked] == cells[marked],
{
}

/// A field on which nobody has moved holds nine empty cells and no mark.
pub proof fn lemma_empty_cells_hold_no_mark()
    ensures
        count_of(empty_cells(), Cell::Empty) == 9,
        count_of(empty_cells(), Cell::MarkX) == 0,
        count_of(empty_cells(), Cell::MarkO) == 0,
{
    lemma_blank_counts(9);
}

/// `n` empty cells hold no mark.
proof fn lemma_blank_counts(n: nat)
    ensures
        count_of(Seq::new(n, |i: int| Cell::Empty), Cell::Empty) == n,
        count_of(Seq::new(n, |i: int| Cell::Empty), Cell::MarkX) == 0,
        count_of(Seq::new(n, |i: int| Cell::Empty), Cell::MarkO) == 0,
    decreases n,
{
    if n > 0 {
        lemma_blank_counts((n - 1) as nat);
        assert(Seq::new(n, |i: int| Cell::Empty).drop_last() == Seq::new(
            (n - 1) as nat,
            |i: int| Cell::Empty,
        ));
    }
}

/// Every cell is empty or holds one of the two marks.
pub proof fn lemma_counts_add_up(cells: Seq<Cell>)
    ensures
        count_of(cells, Cell::Empty) + count_of(cells, Cell::MarkX) + count_of(cells, Cell::MarkO)
            == cells.len(),
    decreases cells.len(),
{
    if cells.len() > 0 {
        lemma_counts_add_up(cells.drop_last());
    }
}

/// A cell is free exactly if the count of empty cells is not zero.
pub proof fn lemma_has_empty_counts(cells: Seq<Cell>)
    ensures
        has_empty(cells) <==> count_of(cells, Cell::Empty) > 0,
    decreases cells.len(),
{
    if cells.len() > 0 {
        let front = cells.drop_last();
        lemma_has_empty_counts(front);
        if has_empty(front) {
            let i = choose|i: int| 0 <= i < front.len() && front[i] == Cell::Empty;
            assert(cells[i] == Cell::Empty);
        }
        if has_empty(cells) && cells.last() != Cell::Empty {
            let i = choose|i: int| 0 <= i < cells.len() && cells[i] == Cell::Empty;
            assert(front[i] == Cell::Empty);
        }
        if cells.last() == Cell::Empty {
            assert(cells[cells.len() - 1] == Cell::Empty);
        }
    }
}

/// Writing `new` into one cell takes one from the count of what the cell held
/// and adds one to the count of `new`.
pub proof fn lemma_count_of_update(cells: Seq<Cell>, idx: int, new: Cell, mark: Cell)
    requires
        0 <= idx < cells.len(),
    ensures
        count_of(cells.update(idx, new), mark) + (if cells[idx] == mark {
            1nat
        } else {
            0nat
        }) == count_of(cells, mark) + (if new == mark {
            1nat
        } else {
            0nat
        }),
    decreases cells.len(),
{
    let changed = cells.update(idx, new);
    if idx == cells.len() - 1 {
        assert(changed.drop_last() == cells.drop_last());
    } else {
        lemma_count_of_update(cells.drop_last(), idx, new, mark);
        assert(changed.drop_last() == cells.drop_last().update(idx, new));
    }
}

/// An accepted move takes one free cell and adds one mark of the player's;
/// the other mark's count stays. A refused move changes no count.
pub proof fn lemma_move_counts(cells: Seq<Cell>, player: Player, idx: int)
    requires
        0 <= idx < cells.len(),
    ensures
        ({
            let moved = after_move(cells, player, idx);
            let step: nat = if vacant(cells, idx) {
                1
            } else {
                0
            };
            &&& count_of(moved, Cell::Empty) + step == count_of(cells, Cell::Empty)
            &&& count_of(moved, mark_of(player)) == count_of(cells, mark_of(player)) + step
            &&& count_of(moved, mark_of(opponent(player))) == count_of(
                cells,
                mark_of(opponent(player)),
            )
        }),
{
    if vacant(cells, idx) {
        lemma_count_of_update(cells, idx, mark_of(player), Cell::Empty);
        lemma_count_of_update(cells, idx, mark_of(player), Cell::MarkX);
        lemma_count_of_update(cells, idx, mark_of(player), Cell::MarkO);
    }
}

/// Once a move to `idx` has been tried, the cell is taken: a second move there
/// is refused, whoever makes it, and changes nothing. If the cell was taken
/// before, the first move changed nothing either.
pub proof fn lemma_second_move_is_refused(
    cells: Seq<Cell>,
    first: Player,
    second: Player,
    idx: int,
)
    requires
        0 <= idx < cells.len(),
    ensures
        !vacant(after_move(cells, first, idx), idx),
        after_move(after_move(cells, first, idx), second, idx) == after_move(cells, first, idx),
        !vacant(cells, idx) ==> after_move(cells, first, idx) == cells,
{
}

/// A player who marks the three cells of a winning line on a new field, one
/// after the other, has not won after the first nor after the second mark and
/// has won after the third; the opponent's mark fills no line then.
pub proof fn lemma_filling_a_line_wins(k: int, player: Player)
    requires
        0 <= k < 8,
        player == Player::Px || player == Player::Po,
    ensures
        ({
            let line = WIN_LINES[k];
            let one = after_move(empty_cells(), player, line.0 as int);
            let two = after_move(one, player, line.1 as int);
            let three = after_move(two, player, line.2 as int);
            &&& winner_of(one) == Player::No
            &&& winner_of(two) == Player::No
            &&& winner_of(three) == player
            &&& wins(three, mark_of(player))
            &&& !wins(three, mark_of(opponent(player)))
        }),
{
}

} // verus!
