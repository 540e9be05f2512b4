//! One game from the first move to its end: whose turn it is, what a move
//! does to the field, and when the game is won or drawn.

use crate::board::{
    after_move, count_of, empty_cells, has_empty, mark_of, opponent, vacant, winner_of, wins, Cell,
    Field, Player,
};
use crate::theorems::{
    lemma_counts_add_up, lemma_empty_cells_hold_no_mark, lemma_has_empty_counts,
    lemma_move_counts,
};
use vstd::prelude::*;

verus! {

/// Where a game stands.
#[derive(Clone, Copy, Debug, PartialEq, Eq, Structural)]
pub enum Status {
    /// The game goes on, and this player moves next.
    InProgress(Player),
    /// This player has filled a line. No further move is accepted.
    Won(Player),
    /// Every cell is taken and nobody has filled a line. No further move is
    /// accepted.
    Draw,
}

/// What the one who runs the game has to do after offering a move.
#[derive(Clone, Copy, Debug, PartialEq, Eq, Structural)]
pub enum Action {
    /// The cell was taken: say so and ask the same player again.
    Retry,
    /// The move stands: ask the other player.
    Proceed,
    /// The move stands and has won the game for this player.
    AnnounceWin(Player),
    /// The move stands and has filled the field with no line complete.
    AnnounceDraw,
    /// The game was over before the move was offered; nothing has changed.
    Stop,
}

/// A game as the contracts see it: the nine cells and where the game stands.
pub struct GameState {
    pub cells: Seq<Cell>,
    pub status: Status,
}

/// The state in which every game starts: an empty field, and X to move.
pub open spec fn initial_state() -> GameState {
    GameState { cells: empty_cells(), status: Status::InProgress(Player::Px) }
}

/// A move to `idx` is accepted in `state`: the game goes on and the cell is
/// free.
pub open spec fn accepted(state: GameState, idx: int) -> bool {
    state.status is InProgress && vacant(state.cells, idx)
}

/// Where the game stands once `mover` has placed a mark and the cells are
/// `cells`: won if a line is full, drawn if no cell is left, and otherwise the
/// other player's turn.
pub open spec fn status_after(cells: Seq<Cell>, mover: Player) -> Status {
    if winner_of(cells) != Player::No {
        Status::Won(winner_of(cells))
    } else if !has_empty(cells) {
        Status::Draw
    } else {
        Status::InProgress(opponent(mover))
    }
}

/// The state that follows when a move to `idx` is offered in `state`. Only an
/// accepted move changes anything.
pub open spec fn step(state: GameState, idx: int) -> GameState {
    match state.status {
        Status::InProgress(mover) if vacant(state.cells, idx) => {
            let cells = after_move(state.cells, mover, idx);
            GameState { cells, status: status_after(cells, mover) }
        },
        _ => state,
    }
}

/// What is to be done after a move to `idx` has been offered in `state`.
pub open spec fn action_for(state: GameState, idx: int) -> Action {
    if !(state.status is InProgress) {
        Action::Stop
    } else if !vacant(state.cells, idx) {
        Action::Retry
    } else {
        match step(state, idx).status {
            Status::InProgress(_) => Action::Proceed,
            Status::Won(winner) => Action::AnnounceWin(winner),
            Status::Draw => Action::AnnounceDraw,
        }
    }
}

/// How many marks X has placed more than O.
pub open spec fn lead_of_x(cells: Seq<Cell>) -> int {
    count_of(cells, Cell::MarkX) - count_of(cells, Cell::MarkO)
}

/// What holds of every state that a game can reach: the field has nine
/// cells, the status says what the cells show, at most one player has filled
/// a line, and the players have moved in turn, X first.
pub open spec fn consistent(state: GameState) -> bool {
    &&& state.cells.len() == 9
    &&& match state.status {
        Status::InProgress(mover) => {
            &&& mover != Player::No
            &&& winner_of(state.cells) == Player::No
            &&& has_empty(state.cells)
            &&& lead_of_x(state.cells) == if mover == Player::Px {
                0int
            } else {
                1int
            }
        },
        Status::Won(winner) => {
            &&& winner != Player::No
            &&& wins(state.cells, mark_of(winner))
            &&& !wins(state.cells, mark_of(opponent(winner)))
            &&& lead_of_x(state.cells) == if winner == Player::Px {
                1int
            } else {
                0int
            }
        },
        Status::Draw => {
            &&& winner_of(state.cells) == Player::No
            &&& !has_empty(state.cells)
            &&& lead_of_x(state.cells) == 1
        },
    }
}

/// In a consistent state the status says no more and no less than the field
/// shows: the winner is the one player with a full line, a draw is a full
/// field without a winner, and a game that goes on has neither.
pub proof fn lemma_status_shows_the_field(state: GameState)
    requires
        consistent(state),
    ensures
        state.status is Won <==> winner_of(state.cells) != Player::No,
        state.status is Won ==> state.status == Status::Won(winner_of(state.cells)),
        state.status is Draw <==> winner_of(state.cells) == Player::No && !has_empty(state.cells),
        state.status is InProgress <==> winner_of(state.cells) == Player::No && has_empty(
            state.cells,
        ),
        !(wins(state.cells, Cell::MarkX) && wins(state.cells, Cell::MarkO)),
{
}

/// A game starts in a consistent state.
pub proof fn lemma_initial_state_is_consistent()
    ensures
        consistent(initial_state()),
{
    lemma_empty_cells_hold_no_mark();
    lemma_has_empty_counts(empty_cells());
}

/// Every move, accepted or refused, leads from a consistent state to a
/// consistent state.
pub proof fn lemma_step_keeps_consistent(state: GameState, idx: int)
    requires
        consistent(state),
        0 <= idx < 9,
    ensures
        consistent(step(state, idx)),
{
    if let Status::InProgress(mover) = state.status {
        if vacant(state.cells, idx) {
            let cells = after_move(state.cells, mover, idx);
            lemma_move_counts(state.cells, mover, idx);
            lemma_counts_add_up(cells);
            lemma_has_empty_counts(cells);
        }
    }
}

/// A move that is not accepted changes nothing: in a game that goes on the
/// same player is asked again, and a game that is won or drawn stays so.
pub proof fn lemma_refused_move_changes_nothing(state: GameState, idx: int)
    requires
        !accepted(state, idx),
    ensures
        step(state, idx) == state,
        action_for(state, idx) == if state.status is InProgress {
            Action::Retry
        } else {
            Action::Stop
        },
{
}

/// An accepted move places the mover's mark and takes one free cell, so that
/// a game is over after nine accepted moves at the latest. If it ends the
/// game with a winner, the winner is the player who has just moved; if it
/// does not end the game, the other player is next.
pub proof fn lemma_accepted_move(state: GameState, idx: int)
    requires
        consistent(state),
        0 <= idx < 9,
        accepted(state, idx),
    ensures
        ({
            let mover = state.status->InProgress_0;
            let next = step(state, idx);
            &&& next.cells == state.cells.update(idx, mark_of(mover))
            &&& count_of(next.cells, Cell::Empty) + 1 == count_of(state.cells, Cell::Empty)
            &&& count_of(state.cells, Cell::Empty) <= 9
            &&& next.status == Status::Won(mover) || next.status == Status::Draw || next.status
                == Status::InProgress(opponent(mover))
            &&& action_for(state, idx) == match next.status {
                Status::Won(_) => Action::AnnounceWin(mover),
                Status::Draw => Action::AnnounceDraw,
                Status::InProgress(_) => Action::Proceed,
            }
        }),
{
    let mover = state.status->InProgress_0;
    lemma_step_keeps_consistent(state, idx);
    lemma_move_counts(state.cells, mover, idx);
    lemma_counts_add_up(state.cells);
}

/// One game: the field and where the game stands.
pub struct Game {
    field: Field,
    status: Status,
}

impl View for Game {
    type V = GameState;

    closed spec fn view(&self) -> GameState {
        GameState { cells: self.field@, status: self.status }
    }
}

impl Game {
    #[verifier::type_invariant]
    spec fn inv(self) -> bool {
        consistent(self@)
    }

    /// A new game: an empty field, and X to move.
    pub fn new() -> (game: Game)
        ensures
            game@ == initial_state(),
            consistent(game@),
    {
        proof {
            lemma_initial_state_is_consistent();
        }
        Game { field: Field::new(), status: Status::InProgress(Player::Px) }
    }

    /// The field as it stands.
    pub fn field(&self) -> (field: &Field)
        ensures
            field@ == self@.cells,
            consistent(self@),
    {
        proof {
            use_type_invariant(self);
        }
        &self.field
    }

    /// Where the game stands.
    pub fn status(&self) -> (status: Status)
        ensures
            status == self@.status,
            consistent(self@),
    {
        proof {
            use_type_invariant(self);
        }
        self.status
    }

    /// Offers a move to `idx` for the player whose turn it is, and says what
    /// is to be done next. A move to a taken cell, and any move once the game
    /// is over, changes nothing.
    pub fn play(&mut self, idx: usize) -> (action: Action)
        requires
            idx < 9,
        ensures
            final(self)@ == step(old(self)@, idx as int),
            action == action_for(old(self)@, idx as int),
            consistent(old(self)@),
            consistent(final(self)@),
    {
        proof {
            use_type_invariant(&*self);
            lemma_step_keeps_consistent(self@, idx as int);
        }
        match self.status {
            Status::InProgress(mover) => {
                let mut field = self.field;
                if !field.make_move(&mover, idx) {
                    return Action::Retry;
                }
                let winner = field.check_win();
                if winner != Player::No {
                    *self = Game { field, status: Status::Won(winner) };
                    Action::AnnounceWin(winner)
                } else if !field.move_left() {
                    *self = Game { field, status: Status::Draw };
                    Action::AnnounceDraw
                } else {
                    let next = if mover == Player::Px {
                        Player::Po
                    } else {
                        Player::Px
                    };
                    *self = Game { field, status: Status::InProgress(next) };
                    Action::Proceed
                }
            },
            _ => Action::Stop,
        }
    }
}

} // verus!
