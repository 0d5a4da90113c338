use chess_gui::draw::{
    piece_to_path, square_cell, square_shade, write_info, Cell, Shade, PADDING, SCREEN_HEIGHT,
    SCREEN_WIDTH, SIDEBAR_WIDTH, SQUARE_SIZE,
};
use chess_gui::model::{Color, GameStatus, Piece, PieceType, Position};

fn piece(color: Color, piece_type: PieceType) -> Option<Piece> {
    Some(Piece { color, piece_type })
}

#[test]
fn window_dimensions() {
    assert_eq!(SQUARE_SIZE, 100);
    assert_eq!(PADDING, 40);
    assert_eq!(SIDEBAR_WIDTH, 400);
    assert_eq!(SCREEN_HEIGHT, 880);
    assert_eq!(SCREEN_WIDTH, 1280);
}

#[test]
fn paths_of_all_pieces() {
    let kinds = [
        (PieceType::Pawn, "pawn"),
        (PieceType::Knight, "knight"),
        (PieceType::Bishop, "bishop"),
        (PieceType::Rook, "rook"),
        (PieceType::Queen, "queen"),
        (PieceType::King, "king"),
    ];
    for (kind, word) in kinds {
        assert_eq!(piece_to_path(piece(Color::White, kind)), format!("/white_{}-min.png", word));
        assert_eq!(piece_to_path(piece(Color::Black, kind)), format!("/black_{}-min.png", word));
    }
    assert_eq!(piece_to_path(None), "");
}

#[test]
fn cells_of_corner_squares() {
    assert_eq!(square_cell(0), Cell { x: 40, y: 740, w: 100, h: 100 });
    assert_eq!(square_cell(7), Cell { x: 740, y: 740, w: 100, h: 100 });
    assert_eq!(square_cell(56), Cell { x: 40, y: 40, w: 100, h: 100 });
    assert_eq!(square_cell(63), Cell { x: 740, y: 40, w: 100, h: 100 });
    assert_eq!(square_cell(10), Cell { x: 240, y: 640, w: 100, h: 100 });
}

#[test]
fn shades_form_a_checkerboard() {
    assert_eq!(square_shade(0), Shade::Dark);
    assert_eq!(square_shade(1), Shade::Light);
    assert_eq!(square_shade(8), Shade::Light);
    assert_eq!(square_shade(9), Shade::Dark);
    assert_eq!(square_shade(63), Shade::Dark);
    for i in 0..63usize {
        if i % 8 != 7 {
            assert_ne!(square_shade(i), square_shade(i + 1));
        }
        if i < 56 {
            assert_ne!(square_shade(i), square_shade(i + 8));
        }
    }
}

fn texts(turn: Color, status: GameStatus) -> (String, String) {
    let labels = write_info(&"Ann".to_string(), &"Ben".to_string(), turn, status);
    assert_eq!(labels.len(), 3);
    assert_eq!(labels[2].text, "Restart Game");
    assert_eq!((labels[0].x, labels[0].y), (880, 460));
    assert_eq!((labels[1].x, labels[1].y), (880, 420));
    assert_eq!((labels[2].x, labels[2].y), (880, 780));
    (labels[0].text.clone(), labels[1].text.clone())
}

#[test]
fn info_marks_side_to_move() {
    assert_eq!(texts(Color::White, GameStatus::Playing), ("Ann *".to_string(), "Ben".to_string()));
    assert_eq!(texts(Color::Black, GameStatus::Playing), ("Ann".to_string(), "Ben *".to_string()));
}

#[test]
fn info_shows_check() {
    assert_eq!(
        texts(Color::White, GameStatus::Check(Color::White)),
        ("Ann in check *".to_string(), "Ben".to_string())
    );
    assert_eq!(
        texts(Color::Black, GameStatus::Check(Color::Black)),
        ("Ann".to_string(), "Ben in check *".to_string())
    );
}

#[test]
fn info_shows_results() {
    assert_eq!(
        texts(Color::White, GameStatus::Checkmate(Color::White)),
        ("Ann -".to_string(), "Ben Won".to_string())
    );
    assert_eq!(
        texts(Color::Black, GameStatus::Checkmate(Color::Black)),
        ("Ann Won".to_string(), "Ben -".to_string())
    );
    assert_eq!(texts(Color::White, GameStatus::Draw), ("Ann -".to_string(), "Ben -".to_string()));
    assert_eq!(
        texts(Color::Black, GameStatus::AwaitingPromotion(Position::new(3, 0))),
        ("Ann".to_string(), "Ben *".to_string())
    );
}
