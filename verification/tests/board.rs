use rhombus_instinct::board::{Board, BoardState};
use rhombus_instinct::piece::{Orientation, Tetrhombino, TetrhombinoState};

fn piece(
    tetrhombino: Tetrhombino,
    orientation: Orientation,
    position: (i8, i8),
) -> TetrhombinoState {
    TetrhombinoState { tetrhombino, orientation, position }
}

fn board_with(current: TetrhombinoState) -> BoardState {
    let mut board = BoardState::new();
    board.spawn(current);
    board
}

fn fill_row(board: &mut BoardState, y: usize, kind: Tetrhombino) {
    for x in 0..10 {
        board.board[x][y] = Some(kind);
    }
}

fn filled_cells(board: &Board) -> usize {
    board.iter().map(|column| column.iter().filter(|cell| cell.is_some()).count()).sum()
}

#[test]
fn a_new_board_is_empty_and_its_piece_waits_off_the_board() {
    let board = BoardState::new();
    assert_eq!(filled_cells(&board.board), 0);
    assert_eq!(board.current, piece(Tetrhombino::I, Orientation::Start, (100, 100)));
    assert!(board.current_piece_conflicts());
}

#[test]
fn cells_off_the_board_are_occupied() {
    let board = BoardState::new();
    for y in -3..25 {
        assert!(board.occupied((-1, y)));
        assert!(board.occupied((10, y)));
    }
    for x in -3..13 {
        assert!(board.occupied((x, -1)));
        assert!(board.occupied((x, 22)));
    }
    assert!(board.occupied((i8::MIN, i8::MIN)));
    assert!(board.occupied((i8::MAX, i8::MAX)));
    assert!(board.occupied((i8::MIN, 5)));
    assert!(board.occupied((5, i8::MAX)));
}

#[test]
fn cells_on_the_board_are_occupied_when_they_hold_a_piece() {
    let mut board = BoardState::new();
    for x in 0..10 {
        for y in 0..22 {
            assert!(!board.occupied((x, y)));
        }
    }
    board.board[0][0] = Some(Tetrhombino::T);
    board.board[9][21] = Some(Tetrhombino::J);
    assert!(board.occupied((0, 0)));
    assert!(board.occupied((9, 21)));
    assert!(!board.occupied((0, 1)));
    assert!(!board.occupied((1, 0)));
    assert!(!board.occupied((9, 20)));
}

#[test]
fn a_piece_conflicts_with_walls_floor_and_locked_cells() {
    let mut board = board_with(piece(Tetrhombino::O, Orientation::Start, (4, 10)));
    assert!(!board.current_piece_conflicts());
    board.board[5][9] = Some(Tetrhombino::Z);
    assert!(board.current_piece_conflicts());
    board.board[5][9] = None;
    board.spawn(piece(Tetrhombino::O, Orientation::Start, (9, 10)));
    assert!(board.current_piece_conflicts());
    board.spawn(piece(Tetrhombino::O, Orientation::Start, (8, 1)));
    assert!(!board.current_piece_conflicts());
    board.spawn(piece(Tetrhombino::O, Orientation::Start, (8, 0)));
    assert!(board.current_piece_conflicts());
    board.spawn(piece(Tetrhombino::O, Orientation::Start, (-1, 5)));
    assert!(board.current_piece_conflicts());
    board.spawn(piece(Tetrhombino::O, Orientation::Start, (0, 21)));
    assert!(!board.current_piece_conflicts());
    board.spawn(piece(Tetrhombino::O, Orientation::Start, (0, 22)));
    assert!(board.current_piece_conflicts());
}

#[test]
fn the_places_of_the_piece_in_play_follow_its_anchor() {
    let board = board_with(piece(Tetrhombino::T, Orientation::Both, (4, 20)));
    assert_eq!(board.occupied_places(), [(4, 20), (3, 19), (4, 19), (5, 19)]);
}

#[test]
fn spawn_replaces_the_piece_without_a_test() {
    let mut board = BoardState::new();
    fill_row(&mut board, 20, Tetrhombino::S);
    let before = board.board;
    let entering = piece(Tetrhombino::I, Orientation::Start, (4, 20));
    board.spawn(entering);
    assert_eq!(board.current, entering);
    assert_eq!(board.board, before);
    assert!(board.current_piece_conflicts());
}

#[test]
fn a_shift_right_then_left_brings_the_piece_back() {
    for kind in [
        Tetrhombino::I,
        Tetrhombino::O,
        Tetrhombino::S,
        Tetrhombino::Z,
        Tetrhombino::L,
        Tetrhombino::J,
        Tetrhombino::T,
    ] {
        let start = piece(kind, Orientation::Start, (4, 10));
        let mut board = board_with(start);
        assert!(board.shift_right());
        assert_eq!(board.current, piece(kind, Orientation::Start, (5, 10)));
        assert!(board.shift_left());
        assert_eq!(board.current, start);
        assert!(board.shift_left());
        assert_eq!(board.current, piece(kind, Orientation::Start, (3, 10)));
        assert!(board.shift_right());
        assert_eq!(board.current, start);
    }
}

#[test]
fn a_shift_into_a_wall_or_a_locked_cell_fails_and_moves_nothing() {
    let at_wall = piece(Tetrhombino::O, Orientation::Start, (0, 10));
    let mut board = board_with(at_wall);
    assert!(!board.shift_left());
    assert_eq!(board.current, at_wall);
    let at_wall = piece(Tetrhombino::O, Orientation::Start, (8, 10));
    board.spawn(at_wall);
    assert!(!board.shift_right());
    assert_eq!(board.current, at_wall);
    let beside = piece(Tetrhombino::O, Orientation::Start, (4, 10));
    board.spawn(beside);
    board.board[6][9] = Some(Tetrhombino::L);
    assert!(!board.shift_right());
    assert_eq!(board.current, beside);
    assert!(board.shift_left());
}

#[test]
fn moves_at_the_limits_of_the_position_type_fail_quietly() {
    for position in [(127, 127), (-128, -128), (127, -128), (-128, 127), (100, 100)] {
        for kind in [Tetrhombino::I, Tetrhombino::L, Tetrhombino::T, Tetrhombino::O] {
            for orientation in
                [Orientation::Start, Orientation::Right, Orientation::Both, Orientation::Left]
            {
                let far = piece(kind, orientation, position);
                let mut board = board_with(far);
                assert!(board.current_piece_conflicts());
                assert!(!board.shift_left());
                assert!(!board.shift_right());
                assert!(!board.fall());
                assert!(board.stuck());
                assert!(!board.rotate_left());
                assert!(!board.rotate_right());
                assert!(board.center_column_conflicts());
                board.kick_allowed();
                board.sonic_drop();
                board.lock();
                assert_eq!(board.current, far);
                assert_eq!(filled_cells(&board.board), 0);
            }
        }
    }
}

#[test]
fn four_turns_to_either_side_bring_the_piece_back() {
    for kind in [
        Tetrhombino::I,
        Tetrhombino::O,
        Tetrhombino::S,
        Tetrhombino::Z,
        Tetrhombino::L,
        Tetrhombino::J,
        Tetrhombino::T,
    ] {
        let start = piece(kind, Orientation::Start, (4, 10));
        let mut board = board_with(start);
        let mut seen = Vec::new();
        for _ in 0..4 {
            assert!(board.rotate_right());
            assert_eq!(board.current.position, (4, 10));
            seen.push(board.current.orientation);
        }
        assert_eq!(
            seen,
            vec![Orientation::Right, Orientation::Both, Orientation::Left, Orientation::Start]
        );
        let mut seen = Vec::new();
        for _ in 0..4 {
            assert!(board.rotate_left());
            assert_eq!(board.current.position, (4, 10));
            seen.push(board.current.orientation);
        }
        assert_eq!(
            seen,
            vec![Orientation::Left, Orientation::Both, Orientation::Right, Orientation::Start]
        );
        assert_eq!(board.current, start);
    }
}

#[test]
fn an_s_at_the_left_wall_kicks_one_column_to_the_right() {
    let mut board = board_with(piece(Tetrhombino::S, Orientation::Right, (0, 10)));
    assert!(!board.current_piece_conflicts());
    assert!(board.rotate_right());
    assert_eq!(board.current, piece(Tetrhombino::S, Orientation::Both, (1, 10)));
    let mut board = board_with(piece(Tetrhombino::S, Orientation::Right, (0, 10)));
    assert!(board.rotate_left());
    assert_eq!(board.current, piece(Tetrhombino::S, Orientation::Start, (1, 10)));
}

#[test]
fn an_s_blocked_by_a_locked_cell_kicks_to_the_right() {
    let mut board = board_with(piece(Tetrhombino::S, Orientation::Right, (4, 10)));
    board.board[3][9] = Some(Tetrhombino::O);
    assert!(!board.current_piece_conflicts());
    assert!(board.rotate_right());
    assert_eq!(board.current, piece(Tetrhombino::S, Orientation::Both, (5, 10)));
}

#[test]
fn a_kick_goes_left_when_the_right_is_blocked() {
    let mut board = board_with(piece(Tetrhombino::Z, Orientation::Right, (9, 10)));
    assert!(!board.current_piece_conflicts());
    assert!(board.rotate_right());
    assert_eq!(board.current, piece(Tetrhombino::Z, Orientation::Both, (8, 10)));
}

#[test]
fn a_turn_fails_when_neither_kick_helps() {
    let start = piece(Tetrhombino::S, Orientation::Right, (4, 10));
    let mut board = board_with(start);
    board.board[3][9] = Some(Tetrhombino::O);
    board.board[5][9] = Some(Tetrhombino::O);
    assert!(!board.current_piece_conflicts());
    assert!(!board.rotate_right());
    assert_eq!(board.current, start);
    assert!(!board.rotate_left());
    assert_eq!(board.current, start);
}

#[test]
fn i_and_o_never_kick() {
    let start = piece(Tetrhombino::I, Orientation::Right, (-1, 10));
    let mut board = board_with(start);
    assert!(!board.current_piece_conflicts());
    assert!(!board.kick_allowed());
    assert!(!board.rotate_right());
    assert_eq!(board.current, start);
    assert!(!board.rotate_left());
    assert_eq!(board.current, start);
    board.spawn(piece(Tetrhombino::O, Orientation::Start, (4, 10)));
    assert!(!board.kick_allowed());
}

#[test]
fn s_and_z_always_kick() {
    for kind in [Tetrhombino::S, Tetrhombino::Z] {
        for orientation in
            [Orientation::Start, Orientation::Right, Orientation::Both, Orientation::Left]
        {
            let mut board = board_with(piece(kind, orientation, (4, 10)));
            fill_row(&mut board, 9, Tetrhombino::O);
            fill_row(&mut board, 10, Tetrhombino::O);
            fill_row(&mut board, 11, Tetrhombino::O);
            assert!(board.kick_allowed());
        }
    }
}

#[test]
fn a_t_kicks_unless_it_stands_upright_with_its_center_column_blocked() {
    let mut board = board_with(piece(Tetrhombino::T, Orientation::Start, (4, 10)));
    fill_row(&mut board, 10, Tetrhombino::O);
    assert!(board.center_column_conflicts());
    assert!(board.kick_allowed());
    board.spawn(piece(Tetrhombino::T, Orientation::Both, (4, 10)));
    assert!(board.kick_allowed());
    for orientation in [Orientation::Right, Orientation::Left] {
        let mut board = board_with(piece(Tetrhombino::T, orientation, (4, 10)));
        assert!(!board.center_column_conflicts());
        assert!(board.kick_allowed());
        for y in [9, 10, 11] {
            board.board[4][y] = Some(Tetrhombino::O);
            assert!(board.center_column_conflicts());
            assert!(!board.kick_allowed());
            board.board[4][y] = None;
        }
        board.board[3][10] = Some(Tetrhombino::O);
        board.board[5][10] = Some(Tetrhombino::O);
        assert!(!board.center_column_conflicts());
        assert!(board.kick_allowed());
    }
}

#[test]
fn a_t_with_a_blocked_center_column_does_not_try_a_kick() {
    let start = piece(Tetrhombino::T, Orientation::Start, (4, 10));
    let mut board = board_with(start);
    board.board[4][11] = Some(Tetrhombino::O);
    assert!(!board.current_piece_conflicts());
    assert!(!board.rotate_right());
    assert_eq!(board.current, start);
    board.board[4][11] = None;
    board.spawn(piece(Tetrhombino::T, Orientation::Start, (0, 10)));
    assert!(board.current_piece_conflicts());
    board.spawn(piece(Tetrhombino::T, Orientation::Left, (0, 10)));
    assert!(!board.current_piece_conflicts());
    assert!(board.rotate_left());
    assert_eq!(board.current, piece(Tetrhombino::T, Orientation::Both, (1, 10)));
}

#[test]
fn an_l_kicks_upright_only_off_its_diagonal_neighbour() {
    for orientation in [Orientation::Start, Orientation::Both] {
        let board = board_with(piece(Tetrhombino::L, orientation, (4, 10)));
        assert!(board.kick_allowed());
    }
    let mut board = board_with(piece(Tetrhombino::L, Orientation::Right, (4, 10)));
    assert!(!board.kick_allowed());
    board.board[5][11] = Some(Tetrhombino::O);
    board.board[3][11] = Some(Tetrhombino::O);
    board.board[5][9] = Some(Tetrhombino::O);
    assert!(!board.kick_allowed());
    board.board[3][9] = Some(Tetrhombino::O);
    assert!(board.kick_allowed());
    let mut board = board_with(piece(Tetrhombino::L, Orientation::Left, (4, 10)));
    assert!(!board.kick_allowed());
    board.board[3][9] = Some(Tetrhombino::O);
    board.board[3][11] = Some(Tetrhombino::O);
    board.board[5][9] = Some(Tetrhombino::O);
    assert!(!board.kick_allowed());
    board.board[5][11] = Some(Tetrhombino::O);
    assert!(board.kick_allowed());
}

#[test]
fn a_j_kicks_upright_only_off_its_diagonal_neighbour() {
    for orientation in [Orientation::Start, Orientation::Both] {
        let board = board_with(piece(Tetrhombino::J, orientation, (4, 10)));
        assert!(board.kick_allowed());
    }
    let mut board = board_with(piece(Tetrhombino::J, Orientation::Right, (4, 10)));
    assert!(!board.kick_allowed());
    board.board[3][9] = Some(Tetrhombino::O);
    board.board[5][9] = Some(Tetrhombino::O);
    board.board[5][11] = Some(Tetrhombino::O);
    assert!(!board.kick_allowed());
    board.board[3][11] = Some(Tetrhombino::O);
    assert!(board.kick_allowed());
    let mut board = board_with(piece(Tetrhombino::J, Orientation::Left, (4, 10)));
    assert!(!board.kick_allowed());
    board.board[3][9] = Some(Tetrhombino::O);
    board.board[3][11] = Some(Tetrhombino::O);
    board.board[5][11] = Some(Tetrhombino::O);
    assert!(!board.kick_allowed());
    board.board[5][9] = Some(Tetrhombino::O);
    assert!(board.kick_allowed());
}

#[test]
fn an_l_that_turns_flat_at_the_wall_kicks_off_the_wall() {
    let mut board = board_with(piece(Tetrhombino::L, Orientation::Both, (0, 10)));
    assert!(board.current_piece_conflicts());
    board.spawn(piece(Tetrhombino::L, Orientation::Left, (0, 10)));
    assert!(!board.current_piece_conflicts());
    assert!(board.rotate_left());
    assert_eq!(board.current, piece(Tetrhombino::L, Orientation::Both, (1, 10)));
}

#[test]
fn finish_rotate_keeps_a_piece_that_fits() {
    let start = piece(Tetrhombino::J, Orientation::Left, (4, 10));
    let mut board = board_with(start);
    assert!(board.finish_rotate());
    assert_eq!(board.current, start);
}

#[test]
fn an_i_falls_from_the_start_to_the_floor_in_twenty_steps() {
    let mut board = board_with(piece(Tetrhombino::I, Orientation::Start, (4, 20)));
    assert!(!board.current_piece_conflicts());
    for step in 1..=20 {
        assert!(!board.stuck());
        assert!(board.fall());
        assert_eq!(board.current.position, (4, 20 - step));
    }
    assert!(board.stuck());
    assert!(!board.fall());
    assert_eq!(board.current, piece(Tetrhombino::I, Orientation::Start, (4, 0)));
    assert!(!board.current_piece_conflicts());
}

#[test]
fn stuck_leaves_the_board_as_it_is() {
    let start = piece(Tetrhombino::T, Orientation::Start, (4, 5));
    let mut board = board_with(start);
    board.board[4][3] = Some(Tetrhombino::O);
    let before = board.board;
    assert!(board.stuck());
    assert_eq!(board.current, start);
    assert_eq!(board.board, before);
    board.board[4][3] = None;
    assert!(!board.stuck());
    assert_eq!(board.current, start);
}

#[test]
fn a_sonic_drop_lands_on_what_is_below() {
    let mut board = board_with(piece(Tetrhombino::O, Orientation::Start, (4, 20)));
    board.sonic_drop();
    assert_eq!(board.current.position, (4, 1));
    assert_eq!(filled_cells(&board.board), 0);
    board.sonic_drop();
    assert_eq!(board.current.position, (4, 1));
    board.lock();
    board.spawn(piece(Tetrhombino::O, Orientation::Start, (5, 20)));
    board.sonic_drop();
    assert_eq!(board.current.position, (5, 3));
}

#[test]
fn lock_writes_the_four_cells_of_the_piece() {
    let mut board = board_with(piece(Tetrhombino::T, Orientation::Start, (4, 1)));
    board.board[0][0] = Some(Tetrhombino::Z);
    board.lock();
    assert_eq!(filled_cells(&board.board), 5);
    assert_eq!(board.board[0][0], Some(Tetrhombino::Z));
    for (x, y) in [(4, 1), (3, 1), (5, 1), (4, 0)] {
        assert_eq!(board.board[x][y], Some(Tetrhombino::T));
    }
    assert_eq!(board.current, piece(Tetrhombino::T, Orientation::Start, (4, 1)));
}

#[test]
fn lock_leaves_out_the_cells_off_the_board() {
    let mut board = board_with(piece(Tetrhombino::I, Orientation::Start, (0, 21)));
    board.lock();
    assert_eq!(filled_cells(&board.board), 3);
    for x in 0..3 {
        assert_eq!(board.board[x][21], Some(Tetrhombino::I));
    }
    let mut board = board_with(piece(Tetrhombino::I, Orientation::Right, (8, 0)));
    board.lock();
    assert_eq!(filled_cells(&board.board), 2);
    assert_eq!(board.board[9][0], Some(Tetrhombino::I));
    assert_eq!(board.board[9][1], Some(Tetrhombino::I));
}

#[test]
fn clear_without_a_full_row_changes_nothing() {
    let mut board = BoardState::new();
    assert_eq!(board.clear(), 0);
    assert_eq!(filled_cells(&board.board), 0);
    for y in 0..22 {
        for x in 0..9 {
            if (x + y) % 3 != 0 {
                board.board[x][y] = Some(Tetrhombino::L);
            }
        }
    }
    board.board[9][0] = Some(Tetrhombino::J);
    board.board[0][0] = None;
    let before = board;
    assert_eq!(board.clear(), 0);
    assert_eq!(board.board, before.board);
    assert_eq!(board.current, before.current);
}

#[test]
fn clear_removes_one_full_row_and_brings_the_rows_above_down() {
    let mut board = BoardState::new();
    board.board[0][0] = Some(Tetrhombino::T);
    board.board[1][1] = Some(Tetrhombino::S);
    fill_row(&mut board, 2, Tetrhombino::I);
    board.board[3][3] = Some(Tetrhombino::Z);
    board.board[4][4] = Some(Tetrhombino::L);
    board.board[9][21] = Some(Tetrhombino::J);
    let piece_before = board.current;
    assert_eq!(board.clear(), 1);
    let mut expected = BoardState::new().board;
    expected[0][0] = Some(Tetrhombino::T);
    expected[1][1] = Some(Tetrhombino::S);
    expected[3][2] = Some(Tetrhombino::Z);
    expected[4][3] = Some(Tetrhombino::L);
    expected[9][20] = Some(Tetrhombino::J);
    assert_eq!(board.board, expected);
    for x in 0..10 {
        assert_eq!(board.board[x][21], None);
    }
    assert_eq!(board.current, piece_before);
    assert_eq!(board.clear(), 0);
    assert_eq!(board.board, expected);
}

#[test]
fn clear_removes_every_full_row_and_keeps_the_order_of_the_others() {
    let mut board = BoardState::new();
    fill_row(&mut board, 0, Tetrhombino::I);
    board.board[1][1] = Some(Tetrhombino::S);
    fill_row(&mut board, 2, Tetrhombino::O);
    fill_row(&mut board, 3, Tetrhombino::O);
    board.board[4][4] = Some(Tetrhombino::Z);
    board.board[5][5] = Some(Tetrhombino::L);
    fill_row(&mut board, 21, Tetrhombino::T);
    assert_eq!(board.clear(), 4);
    let mut expected = BoardState::new().board;
    expected[1][0] = Some(Tetrhombino::S);
    expected[4][1] = Some(Tetrhombino::Z);
    expected[5][2] = Some(Tetrhombino::L);
    assert_eq!(board.board, expected);
}

#[test]
fn clear_empties_a_board_of_full_rows() {
    let mut board = BoardState::new();
    for y in 0..22 {
        fill_row(&mut board, y, Tetrhombino::J);
    }
    assert_eq!(board.clear(), 22);
    assert_eq!(filled_cells(&board.board), 0);
}

#[test]
fn locking_again_after_a_clear_shows_no_stale_cells() {
    let mut board = BoardState::new();
    let pattern = [
        piece(Tetrhombino::I, Orientation::Start, (1, 0)),
        piece(Tetrhombino::I, Orientation::Start, (5, 0)),
        piece(Tetrhombino::O, Orientation::Start, (8, 1)),
    ];
    for entering in pattern {
        board.spawn(entering);
        assert!(!board.current_piece_conflicts());
        board.lock();
    }
    assert_eq!(filled_cells(&board.board), 12);
    assert_eq!(board.clear(), 1);
    let mut expected = BoardState::new().board;
    expected[8][0] = Some(Tetrhombino::O);
    expected[9][0] = Some(Tetrhombino::O);
    assert_eq!(board.board, expected);
    for entering in pattern {
        board.spawn(entering);
        board.lock();
    }
    let mut expected = BoardState::new().board;
    for x in 0..8 {
        expected[x][0] = Some(Tetrhombino::I);
    }
    for (x, y) in [(8, 0), (9, 0), (8, 1), (9, 1)] {
        expected[x][y] = Some(Tetrhombino::O);
    }
    assert_eq!(board.board, expected);
    assert_eq!(board.clear(), 1);
    let mut expected = BoardState::new().board;
    expected[8][0] = Some(Tetrhombino::O);
    expected[9][0] = Some(Tetrhombino::O);
    assert_eq!(board.board, expected);
}

#[test]
fn a_j_kicks_when_its_hook_is_what_is_blocked() {
    // The hook of the turned piece lands on a locked cell: the kick is
    // allowed and moves the piece one column to the right.
    let mut board = board_with(piece(Tetrhombino::J, Orientation::Start, (4, 10)));
    board.board[3][11] = Some(Tetrhombino::O);
    assert!(!board.current_piece_conflicts());
    assert!(board.rotate_right());
    assert_eq!(board.current, piece(Tetrhombino::J, Orientation::Right, (5, 10)));
    assert_eq!(board.occupied_places(), [(5, 10), (5, 9), (5, 11), (4, 11)]);
    // The column of the turned piece is blocked, the hook is free: no kick.
    let start = piece(Tetrhombino::J, Orientation::Start, (4, 10));
    let mut board = board_with(start);
    board.board[4][11] = Some(Tetrhombino::O);
    assert!(!board.current_piece_conflicts());
    assert!(!board.rotate_right());
    assert_eq!(board.current, start);
    // Turned to the left, the hook is down on the right.
    let mut board = board_with(piece(Tetrhombino::J, Orientation::Start, (4, 10)));
    assert!(board.rotate_left());
    assert_eq!(board.occupied_places(), [(4, 10), (4, 11), (4, 9), (5, 9)]);
}
