use chess_gui::draw::{square_cell, Paint, Sprite};
use chess_gui::game::{Action, Click, MainState, Mode, State};
use chess_gui::model::{Color, GameStatus, GameView, MoveOutcome, Piece, PieceType, Position};
use chess_gui::protocol::{Ack, Connection, ConnectionState};

fn p(color: Color, piece_type: PieceType) -> Option<Piece> {
    Some(Piece { color, piece_type })
}

/// The engine's opening position: its array lists rank 7 first.
fn opening() -> GameView {
    let back = [
        PieceType::Rook,
        PieceType::Knight,
        PieceType::Bishop,
        PieceType::Queen,
        PieceType::King,
        PieceType::Bishop,
        PieceType::Knight,
        PieceType::Rook,
    ];
    let mut squares = vec![None; 64];
    for x in 0..8 {
        squares[x] = p(Color::Black, back[x]);
        squares[8 + x] = p(Color::Black, PieceType::Pawn);
        squares[48 + x] = p(Color::White, PieceType::Pawn);
        squares[56 + x] = p(Color::White, back[x]);
    }
    GameView { squares, turn: Color::White, status: GameStatus::Playing }
}

fn ready() -> State {
    let mut s = State::new();
    s.init(&opening());
    s
}

#[test]
fn mode_from_setting() {
    assert_eq!(Mode::from_setting("server"), Mode::Server);
    assert_eq!(Mode::from_setting("client"), Mode::Client);
    assert_eq!(Mode::from_setting(""), Mode::Singleplayer);
    assert_eq!(Mode::from_setting("Server"), Mode::Singleplayer);
}

#[test]
fn main_state_new_and_init() {
    let mut m = MainState::new();
    assert!(m.board.is_empty());
    assert_eq!(m.pieces, vec![None; 64]);
    assert_eq!(m.board_moves, vec![false; 64]);
    assert_eq!(m.name_1, "White");
    assert_eq!(m.name_2, "Black");
    m.mode = Mode::Server;
    m.name_1 = "x".to_string();
    m.init(&opening());
    assert_eq!(m.mode, Mode::Server);
    assert_eq!(m.name_1, "White");
    assert_eq!(m.board.len(), 64);
    assert_eq!(m.board[0], square_cell(0));
    assert_eq!(m.pieces[0], p(Color::White, PieceType::Rook));
    assert_eq!(m.pieces[4], p(Color::White, PieceType::King));
    assert_eq!(m.pieces[12], p(Color::White, PieceType::Pawn));
    assert_eq!(m.pieces[60], p(Color::Black, PieceType::King));
    assert_eq!(m.pieces[30], None);
    let link = Connection { player_turn: true, expected: ConnectionState::ClientMove };
    let s = m.to_state(Some(link), None);
    assert_eq!(s.mode, Mode::Server);
    assert_eq!(s.server, Some(link));
    assert_eq!(s.pieces, m.pieces);
}

#[test]
fn state_init_resets_everything_but_links() {
    let mut s = ready();
    let link = Connection { player_turn: false, expected: ConnectionState::ServerAck };
    s.client = Some(link);
    s.mode = Mode::Client;
    s.name_2 = "Zed".to_string();
    s.init(&opening());
    assert_eq!(s.mode, Mode::Singleplayer);
    assert_eq!(s.name_2, "Black");
    assert_eq!(s.client, Some(link));
    assert!(s.moves.is_empty());
}

#[test]
fn selecting_a_piece_and_playing_it() {
    let mut s = ready();
    let view = opening();
    let a = s.click(Click::Board { x: 4, y: 1 }, &view);
    assert!(matches!(a, Action::ShowMoves(Position { x: 4, y: 1 })));
    s.show_moves(Position::new(4, 1), vec![Position::new(4, 2), Position::new(4, 3)]);
    assert_eq!(s.from, Position::new(4, 1));
    let marked: Vec<usize> = (0..64).filter(|&k| s.board_moves[k]).collect();
    assert_eq!(marked, vec![20, 28]);

    let a = s.click(Click::Board { x: 4, y: 3 }, &view);
    match a {
        Action::TryMove { from, to, on_copy } => {
            assert_eq!(from, Position::new(4, 1));
            assert_eq!(to, Position::new(4, 3));
            assert!(!on_copy);
        }
        other => panic!("unexpected {:?}", other),
    }
    let a = s.move_tried(Position::new(4, 3), MoveOutcome::Allowed);
    assert!(matches!(a, Action::Commit { send: None, replay: false }));

    let mut after = opening();
    after.squares[52] = None;
    after.squares[36] = p(Color::White, PieceType::Pawn);
    after.turn = Color::Black;
    let a = s.move_done(Position::new(4, 3), &after);
    assert!(matches!(a, Action::Idle));
    assert_eq!(s.pieces[12], None);
    assert_eq!(s.pieces[28], p(Color::White, PieceType::Pawn));
    assert!(s.moves.is_empty());
    assert_eq!(s.board_moves, vec![false; 64]);
}

#[test]
fn pressing_the_selected_square_again_drops_it() {
    let mut s = ready();
    let view = opening();
    s.show_moves(Position::new(6, 0), vec![Position::new(5, 2)]);
    let a = s.click(Click::Board { x: 6, y: 0 }, &view);
    assert!(matches!(a, Action::Idle));
    assert!(s.moves.is_empty());
    assert_eq!(s.board_moves, vec![false; 64]);
}

#[test]
fn pressing_another_own_piece_switches_selection() {
    let mut s = ready();
    let view = opening();
    s.show_moves(Position::new(6, 0), vec![Position::new(5, 2)]);
    let a = s.click(Click::Board { x: 1, y: 0 }, &view);
    assert!(matches!(a, Action::ShowMoves(Position { x: 1, y: 0 })));
    assert!(s.moves.is_empty());
}

#[test]
fn opponent_pieces_and_empty_squares_are_not_selected() {
    let mut s = ready();
    let view = opening();
    assert!(matches!(s.click(Click::Board { x: 0, y: 7 }, &view), Action::Idle));
    assert!(matches!(s.click(Click::Board { x: 3, y: 4 }, &view), Action::Idle));
    assert!(matches!(s.click(Click::Elsewhere, &view), Action::Idle));
    assert!(matches!(s.click(Click::Restart, &view), Action::Restart));
}

#[test]
fn out_of_turn_presses_are_ignored() {
    let mut s = ready();
    s.mode = Mode::Server;
    s.server = Some(Connection { player_turn: false, expected: ConnectionState::ClientMove });
    assert!(s.input_blocked());
    let a = s.click(Click::Board { x: 4, y: 1 }, &opening());
    assert!(matches!(a, Action::Idle));
    s.server = Some(Connection { player_turn: true, expected: ConnectionState::ClientMove });
    assert!(!s.input_blocked());
    let a = s.click(Click::Board { x: 4, y: 1 }, &opening());
    assert!(matches!(a, Action::ShowMoves(_)));
}

#[test]
fn promotion_choices() {
    let mut s = ready();
    let mut view = opening();
    view.status = GameStatus::AwaitingPromotion(Position::new(2, 0));
    view.turn = Color::Black;
    for y in [1u8, 0] {
        assert!(matches!(s.click(Click::Board { x: 2, y }, &view), Action::Idle));
    }
    view.status = GameStatus::AwaitingPromotion(Position::new(2, 0));
    view.turn = Color::White;
    let kinds = [PieceType::Queen, PieceType::Rook, PieceType::Bishop, PieceType::Knight];
    for (k, kind) in kinds.iter().enumerate() {
        match s.click(Click::Board { x: 2, y: (k + 1) as u8 }, &view) {
            Action::Promote(got) => assert_eq!(got, *kind),
            other => panic!("unexpected {:?}", other),
        }
    }
    assert!(matches!(s.click(Click::Board { x: 3, y: 1 }, &view), Action::Idle));
    assert!(matches!(s.click(Click::Board { x: 2, y: 5 }, &view), Action::Idle));
    view.status = GameStatus::AwaitingPromotion(Position::new(5, 7));
    view.turn = Color::Black;
    match s.click(Click::Board { x: 5, y: 4 }, &view) {
        Action::Promote(got) => assert_eq!(got, PieceType::Bishop),
        other => panic!("unexpected {:?}", other),
    }
}

#[test]
fn host_move_is_sent_and_turn_passes() {
    let mut s = ready();
    s.mode = Mode::Server;
    s.server = Some(Connection { player_turn: true, expected: ConnectionState::ClientMove });
    s.show_moves(Position::new(4, 1), vec![Position::new(4, 3)]);
    let a = s.move_tried(Position::new(4, 3), MoveOutcome::Allowed);
    match a {
        Action::Commit { send: Some(m), replay } => {
            assert_eq!(m.from, (4, 1));
            assert_eq!(m.to, (4, 3));
            assert!(!m.forfeit && !m.offer_draw);
            assert!(!replay);
        }
        other => panic!("unexpected {:?}", other),
    }
    assert_eq!(s.server, Some(Connection { player_turn: false, expected: ConnectionState::ClientAck }));
    assert!(s.input_blocked());
    assert!(s.expects_ack());
    assert!(!s.expects_move());
    assert!(s.remote_ack(Ack { ok: false }));
    assert_eq!(s.server.unwrap().expected, ConnectionState::ClientMove);
    assert!(s.expects_move());
    let ack = s.remote_move_applied(MoveOutcome::Allowed);
    assert!(ack.ok);
    assert_eq!(s.server, Some(Connection { player_turn: true, expected: ConnectionState::ClientAck }));
}

#[test]
fn joiner_move_is_tried_on_a_copy_then_replayed() {
    let mut s = ready();
    s.mode = Mode::Client;
    s.client = Some(Connection { player_turn: true, expected: ConnectionState::ServerMove });
    s.show_moves(Position::new(4, 1), vec![Position::new(4, 3)]);
    match s.click(Click::Board { x: 4, y: 3 }, &opening()) {
        Action::TryMove { on_copy, .. } => assert!(on_copy),
        other => panic!("unexpected {:?}", other),
    }
    let a = s.move_tried(Position::new(4, 3), MoveOutcome::Allowed);
    assert!(matches!(a, Action::Commit { send: Some(_), replay: true }));
    assert_eq!(s.client, Some(Connection { player_turn: false, expected: ConnectionState::ServerAck }));
    assert!(!s.remote_ack(Ack { ok: true }));
    assert_eq!(s.client.unwrap().expected, ConnectionState::ServerMove);
    let ack = s.remote_move_applied(MoveOutcome::Refused);
    assert!(!ack.ok);
    assert_eq!(s.client, Some(Connection { player_turn: true, expected: ConnectionState::ServerMove }));
}

#[test]
fn refused_move_changes_no_link() {
    let mut s = ready();
    s.mode = Mode::Server;
    let link = Connection { player_turn: true, expected: ConnectionState::ClientMove };
    s.server = Some(link);
    let a = s.move_tried(Position::new(4, 3), MoveOutcome::Refused);
    assert!(matches!(a, Action::Commit { send: None, replay: false }));
    assert_eq!(s.server, Some(link));
}

#[test]
fn scene_of_the_opening() {
    let s = ready();
    let sprites = s.scene(&opening());
    assert_eq!(sprites.len(), 64 + 32);
    assert_eq!(sprites[0], Sprite::Fill { cell: 0, paint: Paint::Dark, dimmed: false });
    assert_eq!(sprites[1], Sprite::Fill { cell: 1, paint: Paint::Light, dimmed: false });
    assert_eq!(
        sprites[64],
        Sprite::Picture { col: 0, row: 0, piece: Piece { color: Color::Black, piece_type: PieceType::Rook } }
    );
    assert_eq!(
        sprites[95],
        Sprite::Picture { col: 7, row: 7, piece: Piece { color: Color::White, piece_type: PieceType::Rook } }
    );
}

#[test]
fn scene_with_moves_shown() {
    let mut s = ready();
    s.show_moves(Position::new(1, 0), vec![Position::new(0, 2), Position::new(3, 1)]);
    let sprites = s.scene(&opening());
    // 64 fills, a dot, corners on an occupied square, the chosen square, 32 pieces
    assert_eq!(sprites.len(), 64 + 2 + 1 + 32);
    assert!(sprites.contains(&Sprite::Dot { cell: 16 }));
    assert!(sprites.contains(&Sprite::Corners { cell: 11 }));
    assert_eq!(sprites[66], Sprite::Fill { cell: 1, paint: Paint::Chosen, dimmed: false });
}

#[test]
fn scene_shows_check_and_promotion() {
    let s = ready();
    let mut view = opening();
    view.status = GameStatus::Check(Color::White);
    let sprites = s.scene(&view);
    assert!(sprites.contains(&Sprite::Fill { cell: 4, paint: Paint::Alert, dimmed: false }));
    assert_eq!(sprites.len(), 64 + 1 + 32);

    view.status = GameStatus::AwaitingPromotion(Position::new(2, 7));
    let sprites = s.scene(&view);
    assert_eq!(sprites.len(), 64 + 32 + 8);
    assert_eq!(sprites[0], Sprite::Fill { cell: 0, paint: Paint::Dark, dimmed: true });
    let n = sprites.len();
    assert_eq!(sprites[n - 8], Sprite::Fill { cell: 50, paint: Paint::Shadow, dimmed: false });
    assert_eq!(
        sprites[n - 7],
        Sprite::Picture { col: 2, row: 1, piece: Piece { color: Color::White, piece_type: PieceType::Queen } }
    );
    assert_eq!(
        sprites[n - 1],
        Sprite::Picture { col: 2, row: 4, piece: Piece { color: Color::White, piece_type: PieceType::Knight } }
    );

    view.status = GameStatus::AwaitingPromotion(Position::new(5, 0));
    let sprites = s.scene(&view);
    let n = sprites.len();
    assert_eq!(sprites[n - 8], Sprite::Fill { cell: 13, paint: Paint::Shadow, dimmed: false });
    assert_eq!(
        sprites[n - 7],
        Sprite::Picture { col: 5, row: 6, piece: Piece { color: Color::Black, piece_type: PieceType::Queen } }
    );
}

#[test]
fn drawn_promotion_choice_is_the_one_picked() {
    let mut s = ready();
    let mut view = opening();
    view.status = GameStatus::AwaitingPromotion(Position::new(2, 7));
    view.turn = Color::Black;
    let sprites = s.scene(&view);
    let n = sprites.len();
    assert_eq!(sprites[n - 4], Sprite::Fill { cell: 34, paint: Paint::Shadow, dimmed: false });
    assert_eq!(
        sprites[n - 3],
        Sprite::Picture { col: 2, row: 3, piece: Piece { color: Color::White, piece_type: PieceType::Bishop } }
    );
    match s.click(Click::Board { x: 2, y: 4 }, &view) {
        Action::Promote(kind) => assert_eq!(kind, PieceType::Bishop),
        other => panic!("unexpected {:?}", other),
    }
    // With white still to move, the drawn choices below the pawn are not picked.
    view.turn = Color::White;
    assert!(matches!(s.click(Click::Board { x: 2, y: 4 }, &view), Action::Idle));
}

#[test]
fn press_past_the_last_file_reads_the_next_rank() {
    let mut s = ready();
    let view = opening();
    // A press on file 8 of rank 3 reads index 32, the first square of rank 4.
    s.show_moves(Position::new(0, 1), vec![Position::new(0, 4)]);
    match s.click(Click::Board { x: 8, y: 3 }, &view) {
        Action::TryMove { from, to, .. } => {
            assert_eq!(from, Position::new(0, 1));
            assert_eq!(to, Position::new(8, 3));
        }
        other => panic!("unexpected {:?}", other),
    }
}

#[test]
fn networked_press_without_a_link_is_ignored() {
    let mut s = ready();
    s.mode = Mode::Client;
    assert!(s.client.is_none());
    assert!(s.input_blocked());
    assert!(matches!(s.click(Click::Board { x: 4, y: 1 }, &opening()), Action::Idle));
    assert!(matches!(s.click(Click::Board { x: 8, y: 7 }, &opening()), Action::Idle));
}

#[test]
fn second_press_on_the_selected_piece_hides_its_moves() {
    let mut s = ready();
    let view = opening();
    let a = s.click(Click::Board { x: 1, y: 0 }, &view);
    assert!(matches!(a, Action::ShowMoves(Position { x: 1, y: 0 })));
    s.show_moves(Position::new(1, 0), vec![Position::new(0, 2), Position::new(2, 2)]);
    let before = s.pieces.clone();
    let a = s.click(Click::Board { x: 1, y: 0 }, &view);
    assert!(matches!(a, Action::Idle));
    assert!(s.moves.is_empty());
    assert_eq!(s.board_moves, vec![false; 64]);
    assert_eq!(s.pieces, before);
}
