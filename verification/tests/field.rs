use tictactoe::board::{player_marker, Cell, Field, Player, WIN_LINES};

#[test]
fn a_new_field_is_empty() {
    let field = Field::new();
    for idx in 0..9 {
        let x = field.val_c(idx);
        assert!(x == '-');
    }
}

#[test]
fn a_new_field_has_no_winner() {
    let field = Field::new();
    assert!(field.check_win() == Player::No);
}

#[test]
fn a_new_field_has_possible_moves() {
    let field = Field::new();
    assert!(field.move_left());
}

#[test]
fn px_does_not_win_on_a_new_field() {
    let field = Field::new();
    assert!(!field.check_win_p(&Player::Px));
}

#[test]
fn po_does_not_win_on_a_new_field() {
    let field = Field::new();
    assert!(!field.check_win_p(&Player::Po));
}

#[test]
fn each_move_of_px_is_valid_on_an_empty_field() {
    for x in [0, 1, 2, 3, 4, 5, 6, 7, 8] {
        let mut field = Field::new();
        assert!(field.make_move(&Player::Px, x));
    }
}

#[test]
fn each_move_of_po_is_valid_on_an_empty_field() {
    for x in [0, 1, 2, 3, 4, 5, 6, 7, 8] {
        let mut field = Field::new();
        assert!(field.make_move(&Player::Po, x));
    }
}

#[test]
fn winning_combinations_on_an_empty_field_are_wins() {
    let wins = [(0,1,2), (3,4,5), (6,7,8), // lines
                (0,3,6), (1,4,7), (2,5,8), // cols
                (0,4,8), (2,4,6)]; // diags

    for combination in wins {
        for player in [Player::Px, Player::Po] {
            let mut field = Field::new();
            assert!(field.make_move(&player, combination.0));
            assert!(!field.check_win_p(&player));

            assert!(field.make_move(&player, combination.1));
            assert!(!field.check_win_p(&player));

            assert!(field.make_move(&player, combination.2));
            assert!(field.check_win_p(&player));

            let other_player = if player == Player::Px { Player::Po }
                               else { Player::Px };
            assert!(!field.check_win_p(&other_player));
        }
    }
}

#[test]
fn every_cell_of_a_new_field_is_empty() {
    let field = Field::new();
    for idx in 0..9 {
        assert_eq!(field.get(idx), Cell::Empty);
    }
    for r in 0..3 {
        assert_eq!(field.row(r), ['-', '-', '-']);
    }
}

#[test]
fn a_move_on_an_empty_field_leaves_the_players_mark() {
    for (player, mark, shown) in [(Player::Px, Cell::MarkX, 'X'), (Player::Po, Cell::MarkO, 'O')] {
        for idx in 0..9 {
            let mut field = Field::new();
            assert!(field.make_move(&player, idx));
            assert_eq!(field.get(idx), mark);
            assert_eq!(field.val_c(idx), shown);
            for other in 0..9 {
                if other != idx {
                    assert_eq!(field.get(other), Cell::Empty);
                }
            }
            assert_eq!(field.check_win(), Player::No);
            assert!(field.move_left());
        }
    }
}

#[test]
fn the_winner_is_the_player_who_fills_a_line() {
    for line in WIN_LINES {
        for player in [Player::Px, Player::Po] {
            let mut field = Field::new();
            assert!(field.make_move(&player, line.0));
            assert_eq!(field.check_win(), Player::No);
            assert!(field.make_move(&player, line.1));
            assert_eq!(field.check_win(), Player::No);
            assert!(field.make_move(&player, line.2));
            assert_eq!(field.check_win(), player);
        }
    }
}

#[test]
fn the_winning_lines_are_rows_columns_and_diagonals() {
    assert_eq!(
        WIN_LINES,
        [(0, 1, 2), (3, 4, 5), (6, 7, 8), (0, 3, 6), (1, 4, 7), (2, 5, 8), (0, 4, 8), (2, 4, 6)]
    );
}

#[test]
fn a_second_move_to_the_same_cell_is_refused() {
    for idx in 0..9 {
        for first in [Player::Px, Player::Po] {
            for second in [Player::Px, Player::Po] {
                let mut field = Field::new();
                assert!(field.make_move(&first, idx));
                let mark = field.get(idx);
                assert!(!field.make_move(&second, idx));
                assert_eq!(field.get(idx), mark);
                assert!(!field.make_move(&second, idx));
                assert_eq!(field.get(idx), mark);
            }
        }
    }
}

#[test]
fn a_refused_move_changes_no_cell() {
    let mut field = Field::new();
    assert!(field.make_move(&Player::Px, 0));
    assert!(field.make_move(&Player::Po, 8));
    assert!(!field.make_move(&Player::Po, 0));
    assert_eq!(field.row(0), ['X', '-', '-']);
    assert_eq!(field.row(1), ['-', '-', '-']);
    assert_eq!(field.row(2), ['-', '-', 'O']);
}

#[test]
fn x_wins_with_the_left_column() {
    let mut field = Field::new();
    let moves = [(Player::Px, 0), (Player::Po, 1), (Player::Px, 3), (Player::Po, 2)];
    for (player, idx) in moves {
        assert!(field.make_move(&player, idx));
        assert_eq!(field.check_win(), Player::No);
    }
    assert!(field.make_move(&Player::Px, 6));
    assert_eq!(field.check_win(), Player::Px);
    assert!(field.check_win_p(&Player::Px));
    assert!(!field.check_win_p(&Player::Po));
    assert_eq!(field.row(0), ['X', 'O', 'O']);
    assert_eq!(field.row(1), ['X', '-', '-']);
    assert_eq!(field.row(2), ['X', '-', '-']);
}

#[test]
fn a_full_field_without_a_line_is_a_draw() {
    let mut field = Field::new();
    let mut player = Player::Px;
    for idx in [0, 1, 2, 3, 5, 4, 6, 8, 7] {
        assert!(field.move_left());
        assert!(field.make_move(&player, idx));
        assert_eq!(field.check_win(), Player::No);
        player = if player == Player::Px { Player::Po } else { Player::Px };
    }
    assert_eq!(field.check_win(), Player::No);
    assert!(!field.move_left());
    assert_eq!(field.row(0), ['X', 'O', 'X']);
    assert_eq!(field.row(1), ['O', 'O', 'X']);
    assert_eq!(field.row(2), ['X', 'X', 'O']);
}

#[test]
fn the_centre_once_taken_is_refused_to_both_players() {
    for owner in [Player::Px, Player::Po] {
        let mut field = Field::new();
        assert!(field.make_move(&owner, 4));
        for player in [Player::Px, Player::Po] {
            assert!(!field.make_move(&player, 4));
        }
        assert_eq!(field.get(4), if owner == Player::Px { Cell::MarkX } else { Cell::MarkO });
    }
}

#[test]
fn x_is_looked_at_before_o() {
    let mut field = Field::new();
    for idx in [0, 1, 2] {
        assert!(field.make_move(&Player::Px, idx));
    }
    for idx in [3, 4, 5] {
        assert!(field.make_move(&Player::Po, idx));
    }
    assert!(field.check_win_p(&Player::Px));
    assert!(field.check_win_p(&Player::Po));
    assert_eq!(field.check_win(), Player::Px);
}

#[test]
fn markers_of_players_and_cells() {
    assert_eq!(player_marker(&Player::Px), 'X');
    assert_eq!(player_marker(&Player::Po), 'O');
    assert_eq!(player_marker(&Player::No), 'O');
    assert_eq!(Cell::Empty.marker(), '-');
    assert_eq!(Cell::MarkX.marker(), 'X');
    assert_eq!(Cell::MarkO.marker(), 'O');
    assert_eq!(Cell::of_player(&Player::Px), Cell::MarkX);
    assert_eq!(Cell::of_player(&Player::Po), Cell::MarkO);
    assert_eq!(Cell::of_player(&Player::No), Cell::MarkO);
}

#[test]
fn nobody_plays_the_mark_of_o() {
    let mut field = Field::new();
    for idx in [2, 4, 6] {
        assert!(field.make_move(&Player::No, idx));
        assert_eq!(field.get(idx), Cell::MarkO);
    }
    assert!(field.check_win_p(&Player::No));
    assert_eq!(field.check_win(), Player::Po);
}
