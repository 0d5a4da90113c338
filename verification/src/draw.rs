//! What the board window shows: square geometry, colours, picture names and
//! the text of the side panel.

use vstd::prelude::*;
use crate::model::{Color, PieceType, Piece, GameStatus};

verus! {

/// Edge of one board square, in pixels.
pub const SQUARE_SIZE: u32 = 100;
/// Width of the side panel, in pixels.
pub const SIDEBAR_WIDTH: u32 = 400;
/// Margin around the board, in pixels.
pub const PADDING: u32 = 40;
/// Height of the window, in pixels.
pub const SCREEN_HEIGHT: u32 = SQUARE_SIZE * 8 + PADDING * 2;
/// Width of the window, in pixels.
pub const SCREEN_WIDTH: u32 = SQUARE_SIZE * 8 + PADDING * 2 + SIDEBAR_WIDTH;

/// An axis-aligned rectangle in window pixels.
#[derive(Clone, Copy, Debug, PartialEq, Eq, Structural)]
pub struct Cell {
    pub x: u32,
    pub y: u32,
    pub w: u32,
    pub h: u32,
}

/// The rectangle of board square `i` (rank-major, rank 0 first); rank 0 is
/// drawn at the bottom of the board.
pub open spec fn cell_of(i: int) -> Cell {
    Cell {
        x: (100 * (i % 8) + 40) as u32,
        y: (100 * (7 - i / 8) + 40) as u32,
        w: 100,
        h: 100,
    }
}

/// The rectangle of board square `i`.
pub fn square_cell(i: usize) -> (c: Cell)
    requires
        i < 64,
    ensures
        c == cell_of(i as int),
{
    Cell {
        x: SQUARE_SIZE * ((i % 8) as u32) + PADDING,
        y: SQUARE_SIZE * (7 - (i / 8) as u32) + PADDING,
        w: SQUARE_SIZE,
        h: SQUARE_SIZE,
    }
}

/// Every square's rectangle lies inside the board area of the window, and
/// squares of one rank sit side by side, one square apart.
pub proof fn lemma_cells_tile_board(i: int)
    requires
        0 <= i < 64,
    ensures
        PADDING <= cell_of(i).x && cell_of(i).x + cell_of(i).w <= PADDING + 8 * SQUARE_SIZE,
        PADDING <= cell_of(i).y && cell_of(i).y + cell_of(i).h <= PADDING + 8 * SQUARE_SIZE,
        i % 8 != 7 ==> cell_of(i + 1).x == cell_of(i).x + SQUARE_SIZE && cell_of(i + 1).y
            == cell_of(i).y,
        i < 56 ==> cell_of(i + 8).y + SQUARE_SIZE == cell_of(i).y && cell_of(i + 8).x
            == cell_of(i).x,
        cell_of(i).x == PADDING + (i % 8) * SQUARE_SIZE,
        cell_of(i).y + cell_of(i).h == PADDING + 8 * SQUARE_SIZE - (i / 8) * SQUARE_SIZE,
        cell_of(i).w == SQUARE_SIZE && cell_of(i).h == SQUARE_SIZE,
{
}

/// Colour of a board square.
#[derive(Clone, Copy, Debug, PartialEq, Eq, Structural)]
pub enum Shade {
    Dark,
    Light,
}

/// Square `i` is dark when its rank and its file have the same parity.
pub open spec fn shade_of(i: int) -> Shade {
    if (i / 8) % 2 == i % 2 {
        Shade::Dark
    } else {
        Shade::Light
    }
}

/// The colour of board square `i`.
pub fn square_shade(i: usize) -> (s: Shade)
    ensures
        s == shade_of(i as int),
{
    if (i / 8 % 2 == 0 && i % 2 == 0) || (i / 8 % 2 == 1 && i % 2 == 1) {
        Shade::Dark
    } else {
        Shade::Light
    }
}

/// Neighbouring squares, in a rank or in a file, never share a colour.
pub proof fn lemma_shades_alternate(i: int)
    requires
        0 <= i < 64,
    ensures
        i % 8 != 7 ==> shade_of(i) != shade_of(i + 1),
        i < 56 ==> shade_of(i) != shade_of(i + 8),
        (shade_of(i) == Shade::Dark) <==> (i / 8 + i % 8) % 2 == 0,
        shade_of(0) == Shade::Dark,
{
}

/// Name of the picture of a piece; empty for an empty square.
pub open spec fn piece_path(piece: Option<Piece>) -> Seq<char> {
    match piece {
        Some(p) => match p.color {
            Color::White => match p.piece_type {
                PieceType::Pawn => "/white_pawn-min.png"@,
                PieceType::Knight => "/white_knight-min.png"@,
                PieceType::Bishop => "/white_bishop-min.png"@,
                PieceType::Rook => "/white_rook-min.png"@,
                PieceType::Queen => "/white_queen-min.png"@,
                PieceType::King => "/white_king-min.png"@,
            },
            Color::Black => match p.piece_type {
                PieceType::Pawn => "/black_pawn-min.png"@,
                PieceType::Knight => "/black_knight-min.png"@,
                PieceType::Bishop => "/black_bishop-min.png"@,
                PieceType::Rook => "/black_rook-min.png"@,
                PieceType::Queen => "/black_queen-min.png"@,
                PieceType::King => "/black_king-min.png"@,
            },
        },
        None => ""@,
    }
}

/// Converts a piece to the path of its picture.
pub fn piece_to_path(piece: Option<Piece>) -> (path: String)
    ensures
        path@ == piece_path(piece),
{
    match piece {
        Some(Piece { color: Color::White, piece_type: PieceType::Pawn }) => String::from_str(
            "/white_pawn-min.png",
        ),
        Some(Piece { color: Color::White, piece_type: PieceType::Knight }) => String::from_str(
            "/white_knight-min.png",
        ),
        Some(Piece { color: Color::White, piece_type: PieceType::Bishop }) => String::from_str(
            "/white_bishop-min.png",
        ),
        Some(Piece { color: Color::White, piece_type: PieceType::Rook }) => String::from_str(
            "/white_rook-min.png",
        ),
        Some(Piece { color: Color::White, piece_type: PieceType::Queen }) => String::from_str(
            "/white_queen-min.png",
        ),
        Some(Piece { color: Color::White, piece_type: PieceType::King }) => String::from_str(
            "/white_king-min.png",
        ),
        Some(Piece { color: Color::Black, piece_type: PieceType::Pawn }) => String::from_str(
            "/black_pawn-min.png",
        ),
        Some(Piece { color: Color::Black, piece_type: PieceType::Knight }) => String::from_str(
            "/black_knight-min.png",
        ),
        Some(Piece { color: Color::Black, piece_type: PieceType::Bishop }) => String::from_str(
            "/black_bishop-min.png",
        ),
        Some(Piece { color: Color::Black, piece_type: PieceType::Rook }) => String::from_str(
            "/black_rook-min.png",
        ),
        Some(Piece { color: Color::Black, piece_type: PieceType::Queen }) => String::from_str(
            "/black_queen-min.png",
        ),
        Some(Piece { color: Color::Black, piece_type: PieceType::King }) => String::from_str(
            "/black_king-min.png",
        ),
        None => String::from_str(""),
    }
}

/// The word for a side in a picture name.
pub open spec fn color_word(c: Color) -> Seq<char> {
    match c {
        Color::White => "white"@,
        Color::Black => "black"@,
    }
}

/// The word for a kind of piece in a picture name.
pub open spec fn kind_word(k: PieceType) -> Seq<char> {
    match k {
        PieceType::Pawn => "pawn"@,
        PieceType::Knight => "knight"@,
        PieceType::Bishop => "bishop"@,
        PieceType::Rook => "rook"@,
        PieceType::Queen => "queen"@,
        PieceType::King => "king"@,
    }
}

/// A piece's picture is named by its side and its kind:
/// "/<side>_<kind>-min.png".
pub proof fn lemma_piece_path_names(p: Piece)
    ensures
        piece_path(Some(p)) == "/"@ + color_word(p.color) + "_"@ + kind_word(p.piece_type)
            + "-min.png"@,
{
    reveal_strlit("/");
    reveal_strlit("_");
    reveal_strlit("-min.png");
    reveal_strlit("white");
    reveal_strlit("black");
    reveal_strlit("pawn");
    reveal_strlit("knight");
    reveal_strlit("bishop");
    reveal_strlit("rook");
    reveal_strlit("queen");
    reveal_strlit("king");
    reveal_strlit("/white_pawn-min.png");
    reveal_strlit("/white_knight-min.png");
    reveal_strlit("/white_bishop-min.png");
    reveal_strlit("/white_rook-min.png");
    reveal_strlit("/white_queen-min.png");
    reveal_strlit("/white_king-min.png");
    reveal_strlit("/black_pawn-min.png");
    reveal_strlit("/black_knight-min.png");
    reveal_strlit("/black_bishop-min.png");
    reveal_strlit("/black_rook-min.png");
    reveal_strlit("/black_queen-min.png");
    reveal_strlit("/black_king-min.png");
    assert(piece_path(Some(p)) =~= "/"@ + color_word(p.color) + "_"@ + kind_word(p.piece_type)
        + "-min.png"@);
}

/// Every piece has a picture: only an empty square maps to the empty path.
pub proof fn lemma_piece_paths_nonempty(piece: Option<Piece>)
    ensures
        (piece_path(piece).len() == 0) == (piece is None),
{
    reveal_strlit("/white_pawn-min.png");
    reveal_strlit("/white_knight-min.png");
    reveal_strlit("/white_bishop-min.png");
    reveal_strlit("/white_rook-min.png");
    reveal_strlit("/white_queen-min.png");
    reveal_strlit("/white_king-min.png");
    reveal_strlit("/black_pawn-min.png");
    reveal_strlit("/black_knight-min.png");
    reveal_strlit("/black_bishop-min.png");
    reveal_strlit("/black_rook-min.png");
    reveal_strlit("/black_queen-min.png");
    reveal_strlit("/black_king-min.png");
    reveal_strlit("");
}

/// Fill colour of a square drawn on the board.
#[derive(Clone, Copy, Debug, PartialEq, Eq, Structural)]
pub enum Paint {
    /// Dark board square.
    Dark,
    /// Light board square.
    Light,
    /// The square of a king in check.
    Alert,
    /// The square of the selected piece.
    Chosen,
    /// Background of a promotion choice.
    Shadow,
}

/// One drawing step of the board.
#[derive(Clone, Copy, Debug, PartialEq, Eq, Structural)]
pub enum Sprite {
    /// Fill the rectangle of board square `cell`; `dimmed` while a pawn
    /// waits for promotion.
    Fill { cell: usize, paint: Paint, dimmed: bool },
    /// A dot on board square `cell`: an empty square that a move reaches.
    Dot { cell: usize },
    /// Corner marks on board square `cell`: an occupied square that a move
    /// reaches.
    Corners { cell: usize },
    /// The picture of `piece` in column `col` and row `row`, rows counted
    /// from the top of the board.
    Picture { col: u8, row: u8, piece: Piece },
}

/// A line of text of the side panel and the window position where it starts.
#[derive(Clone, Debug)]
pub struct Label {
    pub text: String,
    pub x: u32,
    pub y: u32,
}

/// Panel text for the white player named `name`.
pub open spec fn white_label(name: Seq<char>, turn: Color, status: GameStatus) -> Seq<char> {
    match status {
        GameStatus::Check(Color::White) => name + " in check *"@,
        GameStatus::Checkmate(Color::White) => name + " -"@,
        GameStatus::Checkmate(Color::Black) => name + " Won"@,
        GameStatus::Draw => name + " -"@,
        _ => if turn == Color::White {
            name + " *"@
        } else {
            name
        },
    }
}

/// Panel text for the black player named `name`.
pub open spec fn black_label(name: Seq<char>, turn: Color, status: GameStatus) -> Seq<char> {
    match status {
        GameStatus::Check(Color::Black) => name + " in check *"@,
        GameStatus::Checkmate(Color::Black) => name + " -"@,
        GameStatus::Checkmate(Color::White) => name + " Won"@,
        GameStatus::Draw => name + " -"@,
        _ => if turn == Color::Black {
            name + " *"@
        } else {
            name
        },
    }
}

/// What the side panel says of each player. A finished game does not mark
/// the side to move: a draw shows " -" for both players, a checkmate " -"
/// for the mated side and " Won" for the other. The side in check is shown
/// " in check *". In a game in progress exactly the side to move carries
/// " *" and the other name stands alone.
pub proof fn lemma_panel_labels(name: Seq<char>, turn: Color, other_turn: Color, status: GameStatus)
    ensures
        status == GameStatus::Draw ==> white_label(name, turn, status) == name + " -"@
            && black_label(name, turn, status) == name + " -"@,
        status == GameStatus::Checkmate(Color::White) ==> white_label(name, turn, status) == name
            + " -"@ && black_label(name, turn, status) == name + " Won"@,
        status == GameStatus::Checkmate(Color::Black) ==> white_label(name, turn, status) == name
            + " Won"@ && black_label(name, turn, status) == name + " -"@,
        status is Draw || status is Checkmate ==> white_label(name, turn, status) == white_label(
            name,
            other_turn,
            status,
        ) && black_label(name, turn, status) == black_label(name, other_turn, status),
        status == GameStatus::Check(Color::White) ==> white_label(name, turn, status) == name
            + " in check *"@,
        status == GameStatus::Check(Color::Black) ==> black_label(name, turn, status) == name
            + " in check *"@,
        status == GameStatus::Playing ==> white_label(name, turn, status) == (if turn == Color::White {
            name + " *"@
        } else {
            name
        }) && black_label(name, turn, status) == (if turn == Color::Black {
            name + " *"@
        } else {
            name
        }),
{
}

fn suffixed(name: &String, suffix: &str) -> (s: String)
    ensures
        s@ == name@ + suffix@,
{
    let mut s = name.clone();
    s.append(suffix);
    s
}

/// The side panel: the white player's line, the black player's line and the
/// restart button's caption, with where each one is written. The side to
/// move is marked with " *"; a finished game shows " Won" and " -".
pub fn write_info(name_1: &String, name_2: &String, turn: Color, game_state: GameStatus) -> (labels:
    Vec<Label>)
    ensures
        labels@.len() == 3,
        labels@[0].text@ == white_label(name_1@, turn, game_state),
        labels@[0].x == PADDING * 2 + SQUARE_SIZE * 8,
        labels@[0].y == PADDING * 3 / 2 + SQUARE_SIZE * 4,
        labels@[1].text@ == black_label(name_2@, turn, game_state),
        labels@[1].x == PADDING * 2 + SQUARE_SIZE * 8,
        labels@[1].y == PADDING / 2 + SQUARE_SIZE * 4,
        labels@[2].text@ == "Restart Game"@,
        labels@[2].x == PADDING * 2 + SQUARE_SIZE * 8,
        labels@[2].y == SQUARE_SIZE * 8 - PADDING / 2,
{
    let mut white_text = name_1.clone();
    let mut black_text = name_2.clone();
    if turn == Color::White {
        white_text = suffixed(name_1, " *");
    }
    if turn == Color::Black {
        black_text = suffixed(name_2, " *");
    }
    if game_state == GameStatus::Checkmate(Color::White) {
        black_text = suffixed(name_2, " Won");
        white_text = suffixed(name_1, " -");
    }
    if game_state == GameStatus::Checkmate(Color::Black) {
        white_text = suffixed(name_1, " Won");
        black_text = suffixed(name_2, " -");
    }
    if game_state == GameStatus::Draw {
        white_text = suffixed(name_1, " -");
        black_text = suffixed(name_2, " -");
    }
    if game_state == GameStatus::Check(Color::White) {
        white_text = suffixed(name_1, " in check *");
    }
    if game_state == GameStatus::Check(Color::Black) {
        black_text = suffixed(name_2, " in check *");
    }
    let column: u32 = PADDING * 2 + SQUARE_SIZE * 8;
    let mut labels: Vec<Label> = Vec::new();
    labels.push(Label { text: white_text, x: column, y: PADDING * 3 / 2 + SQUARE_SIZE * 4 });
    labels.push(Label { text: black_text, x: column, y: PADDING / 2 + SQUARE_SIZE * 4 });
    labels.push(
        Label { text: String::from_str("Restart Game"), x: column, y: SQUARE_SIZE * 8 - PADDING / 2 },
    );
    labels
}

} // verus!
