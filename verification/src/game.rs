//! The client's own state: the board as shown, the selected piece and its
//! moves, the players' names and the network links, and the decisions taken
//! on each click and on each network message.

use vstd::prelude::*;
use crate::model::{Color, PieceType, Piece, Position, GameStatus, MoveOutcome, GameView};
use crate::protocol::{Connection, ConnectionState, NetMove, Ack, following, client_link, server_link};
use crate::draw::{Cell, cell_of, square_cell, Shade, shade_of, square_shade, Paint, Sprite};

verus! {

/// How the client plays: hosting a network game, joining one, or both
/// players at one screen.
#[derive(Clone, Copy, Debug, PartialEq, Eq, Structural)]
pub enum Mode {
    Server,
    Client,
    Singleplayer,
}

impl Mode {
    /// The mode named by a command-line setting.
    pub open spec fn named(setting: Seq<char>) -> Mode {
        if setting == "server"@ {
            Mode::Server
        } else if setting == "client"@ {
            Mode::Client
        } else {
            Mode::Singleplayer
        }
    }

    /// Reads the mode from a setting: "server" hosts, "client" joins, any
    /// other text plays locally.
    pub fn from_setting(setting: &str) -> (m: Mode)
        ensures
            m == Mode::named(setting@),
    {
        let s = setting.to_owned();
        if s == String::from_str("server") {
            Mode::Server
        } else if s == String::from_str("client") {
            Mode::Client
        } else {
            Mode::Singleplayer
        }
    }
}

/// The setting "server" hosts, "client" joins, and every other setting
/// plays locally.
pub proof fn lemma_mode_names(setting: Seq<char>)
    ensures
        (Mode::named(setting) == Mode::Server) <==> setting == "server"@,
        (Mode::named(setting) == Mode::Client) <==> setting == "client"@,
        (Mode::named(setting) == Mode::Singleplayer) <==> (setting != "server"@ && setting
            != "client"@),
{
    reveal_strlit("server");
    reveal_strlit("client");
    assert("server"@[0] != "client"@[0]);
}

/// Board index `j` (rank-major, rank 0 first) seen from the engine's array,
/// which lists rank 7 first.
pub open spec fn flipped(j: int) -> int {
    (7 - j / 8) * 8 + j % 8
}

/// The engine's squares rearranged so that rank 0 comes first.
pub open spec fn board_pieces(squares: Seq<Option<Piece>>) -> Seq<Option<Piece>> {
    Seq::new(64, |j: int| squares[flipped(j)])
}

/// Rearranging the board twice gives back the engine's order: the
/// rearrangement is its own inverse and maps the board onto itself.
pub proof fn lemma_flip_involution(j: int)
    requires
        0 <= j < 64,
    ensures
        0 <= flipped(j) < 64,
        flipped(flipped(j)) == j,
{
}

/// The shown board keeps the engine's files and turns its ranks over: the
/// square on file `x` and rank `y` shows the engine's entry on the same file
/// in row `7 - y` of its array, which lists rank 7 first.
pub proof fn lemma_board_keeps_files(squares: Seq<Option<Piece>>)
    requires
        squares.len() == 64,
    ensures
        board_pieces(squares).len() == 64,
        forall|x: int, y: int|
            0 <= x < 8 && 0 <= y < 8 ==> #[trigger] board_pieces(squares)[y * 8 + x] == squares[(7
                - y) * 8 + x],
{
    assert forall|x: int, y: int| 0 <= x < 8 && 0 <= y < 8 implies #[trigger] board_pieces(
        squares,
    )[y * 8 + x] == squares[(7 - y) * 8 + x] by {
        let j = y * 8 + x;
        assert(j / 8 == y && j % 8 == x);
    }
}

/// Marks and cleared marks: a fresh or cleared board marks no square, and
/// the marks of a list of moves are set exactly on the squares (index
/// `8 * rank + file`) that some move of the list reaches.
pub proof fn lemma_marks(moves: Seq<Position>)
    ensures
        no_marks().len() == 64,
        forall|k: int| 0 <= k < 64 ==> !(#[trigger] no_marks()[k]),
        marks_of(moves).len() == 64,
        forall|k: int|
            0 <= k < 64 ==> (#[trigger] marks_of(moves)[k] <==> exists|m: int|
                0 <= m < moves.len() && moves[m].y * 8 + moves[m].x == k),
        all_cells().len() == 64,
        forall|i: int| 0 <= i < 64 ==> #[trigger] all_cells()[i] == cell_of(i),
{
    assert forall|k: int| 0 <= k < 64 implies (#[trigger] marks_of(moves)[k] <==> exists|m: int|
        0 <= m < moves.len() && moves[m].y * 8 + moves[m].x == k) by {
        if marks_of(moves)[k] {
            let m = choose|m: int| 0 <= m < moves.len() && #[trigger] moves[m].index() == k;
            assert(moves[m].y * 8 + moves[m].x == k);
        }
        if exists|m: int| 0 <= m < moves.len() && moves[m].y * 8 + moves[m].x == k {
            let m = choose|m: int| 0 <= m < moves.len() && moves[m].y * 8 + moves[m].x == k;
            assert(moves[m].index() == k);
        }
    }
}

/// No square is marked as a move target.
pub open spec fn no_marks() -> Seq<bool> {
    Seq::new(64, |k: int| false)
}

/// Squares that are the target of one of `moves`.
pub open spec fn marks_of(moves: Seq<Position>) -> Seq<bool> {
    Seq::new(64, |k: int| exists|m: int| 0 <= m < moves.len() && #[trigger] moves[m].index() == k)
}

/// The rectangles of all 64 squares.
pub open spec fn all_cells() -> Seq<Cell> {
    Seq::new(64, |i: int| cell_of(i))
}

fn cleared_marks() -> (marks: Vec<bool>)
    ensures
        marks@ == no_marks(),
{
    let mut marks: Vec<bool> = Vec::new();
    for i in 0..64
        invariant
            marks@ == Seq::new(i as nat, |k: int| false),
    {
        marks.push(false);
    }
    marks
}

fn empty_pieces() -> (pieces: Vec<Option<Piece>>)
    ensures
        pieces@ == Seq::new(64, |k: int| None::<Piece>),
{
    let mut pieces: Vec<Option<Piece>> = Vec::new();
    for i in 0..64
        invariant
            pieces@ == Seq::new(i as nat, |k: int| None::<Piece>),
    {
        pieces.push(None);
    }
    pieces
}

fn flip_board(squares: &Vec<Option<Piece>>) -> (pieces: Vec<Option<Piece>>)
    requires
        squares@.len() == 64,
    ensures
        pieces@ == board_pieces(squares@),
{
    let mut pieces: Vec<Option<Piece>> = Vec::new();
    for j in 0..64
        invariant
            squares@.len() == 64,
            pieces@ == Seq::new(j as nat, |k: int| squares@[flipped(k)]),
    {
        let i: usize = (7 - j / 8) * 8 + j % 8;
        pieces.push(squares[i]);
    }
    pieces
}

fn board_cells() -> (cells: Vec<Cell>)
    ensures
        cells@ == all_cells(),
{
    let mut cells: Vec<Cell> = Vec::new();
    for i in 0..64
        invariant
            cells@ == Seq::new(i as nat, |k: int| cell_of(k)),
    {
        cells.push(square_cell(i));
    }
    cells
}

/// The state prepared before the window opens.
pub struct MainState {
    pub board: Vec<Cell>,
    pub pieces: Vec<Option<Piece>>,
    pub moves: Vec<Position>,
    pub board_moves: Vec<bool>,
    pub from: Position,
    pub mode: Mode,
    pub name_1: String,
    pub name_2: String,
}

impl MainState {
    /// A fresh state: no squares laid out, an empty board, nothing
    /// selected, local play, players "White" and "Black".
    pub fn new() -> (s: MainState)
        ensures
            s.board@.len() == 0,
            s.pieces@ == Seq::new(64, |k: int| None::<Piece>),
            s.moves@.len() == 0,
            s.board_moves@ == no_marks(),
            s.from == (Position { x: 0, y: 0 }),
            s.mode == Mode::Singleplayer,
            s.name_1@ == "White"@,
            s.name_2@ == "Black"@,
    {
        MainState {
            board: Vec::new(),
            pieces: empty_pieces(),
            moves: Vec::new(),
            board_moves: cleared_marks(),
            from: Position::new(0, 0),
            mode: Mode::Singleplayer,
            name_1: String::from_str("White"),
            name_2: String::from_str("Black"),
        }
    }

    /// Starts over on the engine's position `view`: lays out the 64 squares,
    /// copies the engine's pieces (rank 0 first), clears the selection and
    /// resets the names; the mode is kept.
    pub fn init(&mut self, view: &GameView)
        requires
            view.wf(),
        ensures
            final(self).board@ == all_cells(),
            final(self).pieces@ == board_pieces(view.squares@),
            final(self).moves@.len() == 0,
            final(self).board_moves@ == no_marks(),
            final(self).from == (Position { x: 0, y: 0 }),
            final(self).mode == old(self).mode,
            final(self).name_1@ == "White"@,
            final(self).name_2@ == "Black"@,
    {
        self.board = board_cells();
        self.pieces = flip_board(&view.squares);
        self.moves = Vec::new();
        self.board_moves = cleared_marks();
        self.from = Position::new(0, 0);
        self.name_1 = String::from_str("White");
        self.name_2 = String::from_str("Black");
    }

    /// The window's state, holding this state's board and the links that
    /// the opening exchange produced.
    pub fn to_state(&self, server: Option<Connection>, client: Option<Connection>) -> (s: State)
        ensures
            s.board@ == self.board@,
            s.pieces@ == self.pieces@,
            s.moves@ == self.moves@,
            s.board_moves@ == self.board_moves@,
            s.from == self.from,
            s.mode == self.mode,
            s.name_1@ == self.name_1@,
            s.name_2@ == self.name_2@,
            s.server == server,
            s.client == client,
    {
        State {
            board: self.board.clone(),
            pieces: self.pieces.clone(),
            moves: self.moves.clone(),
            board_moves: self.board_moves.clone(),
            from: self.from,
            mode: self.mode,
            name_1: self.name_1.clone(),
            name_2: self.name_2.clone(),
            server,
            client,
        }
    }
}

/// The state of the open window.
pub struct State {
    pub board: Vec<Cell>,
    pub pieces: Vec<Option<Piece>>,
    pub moves: Vec<Position>,
    pub board_moves: Vec<bool>,
    pub from: Position,
    pub mode: Mode,
    pub name_1: String,
    pub name_2: String,
    pub server: Option<Connection>,
    pub client: Option<Connection>,
}


/// Where a mouse press landed: on a board square, on the restart button, or
/// elsewhere.
#[derive(Clone, Copy, Debug, PartialEq, Eq, Structural)]
pub enum Click {
    Board { x: u8, y: u8 },
    Restart,
    Elsewhere,
}

/// What the caller does next with the engine or the network.
#[derive(Clone, Copy, Debug)]
pub enum Action {
    /// Nothing more to do.
    Idle,
    /// Start a new game on a fresh engine, then call [`State::init`] with it.
    Restart,
    /// Ask the engine to promote the waiting pawn to this kind.
    Promote(PieceType),
    /// Ask the engine to play `from` to `to` (on a copy of the game when
    /// `on_copy`), then call [`State::move_tried`] with its answer.
    TryMove { from: Position, to: Position, on_copy: bool },
    /// Send `send` when there is one, play the move on the real game when
    /// `replay`, then call [`State::move_done`] with the engine's position.
    Commit { send: Option<NetMove>, replay: bool },
    /// Ask the engine for the moves of the piece on this square, then call
    /// [`State::show_moves`] with them.
    ShowMoves(Position),
}

/// The link after the local player's move was sent: the turn passes and the
/// answer to the move is awaited.
pub open spec fn after_local_move(link: Connection) -> Connection {
    Connection { player_turn: false, expected: following(link.expected) }
}

/// The move that goes over the network for a move from `from` to `to`.
pub open spec fn net_move(from: Position, to: Position) -> NetMove {
    NetMove { from: (from.x, from.y), to: (to.x, to.y), forfeit: false, offer_draw: false }
}

/// The move sent for a local move carries the selected square and the target
/// as `(file, rank)` and neither resigns nor offers a draw; the link then
/// gives the turn away and awaits what follows the awaited message.
pub proof fn lemma_sent_move(from: Position, to: Position, link: Connection)
    ensures
        net_move(from, to).from == (from.x, from.y),
        net_move(from, to).to == (to.x, to.y),
        !net_move(from, to).forfeit,
        !net_move(from, to).offer_draw,
        !after_local_move(link).player_turn,
        after_local_move(link).expected == following(link.expected),
{
}

/// The piece chosen by pressing square `(x, y)` while a pawn on `status`'s
/// square waits for promotion: the four squares beyond it, towards the side
/// of the player to move, offer queen, rook, bishop and knight.
pub open spec fn promotion_pick(status: GameStatus, turn: Color, x: u8, y: u8) -> Option<PieceType> {
    match status {
        GameStatus::AwaitingPromotion(p) => {
            let d: int = if turn == Color::White {
                1
            } else {
                -1
            };
            if x != p.x {
                None
            } else if y == p.y + d {
                Some(PieceType::Queen)
            } else if y == p.y + 2 * d {
                Some(PieceType::Rook)
            } else if y == p.y + 3 * d {
                Some(PieceType::Bishop)
            } else if y == p.y + 4 * d {
                Some(PieceType::Knight)
            } else {
                None
            }
        },
        _ => None,
    }
}

/// The piece kind offered in promotion slot `k`.
pub open spec fn promotion_kind(k: int) -> PieceType {
    if k == 0 {
        PieceType::Queen
    } else if k == 1 {
        PieceType::Rook
    } else if k == 2 {
        PieceType::Bishop
    } else {
        PieceType::Knight
    }
}

/// Rank of promotion slot `k` (0 to 3) for a pawn waiting on `p`: the
/// slots run from `p` towards the side of the player `turn`.
pub open spec fn slot_rank(p: Position, turn: Color, k: int) -> int {
    if turn == Color::White {
        p.y + (k + 1)
    } else {
        p.y - (k + 1)
    }
}

/// Pressing the `k`-th slot beyond a waiting pawn chooses the `k`-th of
/// queen, rook, bishop and knight; no other square chooses anything.
pub proof fn lemma_promotion_slots(p: Position, turn: Color, x: u8, y: u8)
    requires
        p.on_board(),
        y < 8,
    ensures
        promotion_pick(GameStatus::AwaitingPromotion(p), turn, x, y) is Some <==> (x == p.x
            && exists|k: int| 0 <= k < 4 && y == #[trigger] slot_rank(p, turn, k)),
        forall|k: int|
            0 <= k < 4 && x == p.x && y == #[trigger] slot_rank(p, turn, k) ==> promotion_pick(
                GameStatus::AwaitingPromotion(p),
                turn,
                x,
                y,
            ) == Some(promotion_kind(k)),
{
    if promotion_pick(GameStatus::AwaitingPromotion(p), turn, x, y) is Some {
        assert(y == slot_rank(p, turn, 0) || y == slot_rank(p, turn, 1) || y == slot_rank(p, turn, 2)
            || y == slot_rank(p, turn, 3));
    }
}

impl State {
    /// The board holds one piece entry and one move mark per square.
    pub open spec fn board_ready(&self) -> bool {
        &&& self.pieces@.len() == 64
        &&& self.board_moves@.len() == 64
    }

    /// The board is complete and a networked mode has its link.
    pub open spec fn wf(&self) -> bool {
        &&& self.board_ready()
        &&& (self.mode == Mode::Server ==> self.server is Some)
        &&& (self.mode == Mode::Client ==> self.client is Some)
    }

    /// In a networked game, it is not the local player's turn.
    pub open spec fn blocked(&self) -> bool {
        ||| self.mode == Mode::Server && (self.server is None || !self.server.unwrap().player_turn)
        ||| self.mode == Mode::Client && (self.client is None || !self.client.unwrap().player_turn)
    }

    /// Pressing `(x, y)` selects the piece there when it belongs to the side
    /// to move.
    pub open spec fn selection(&self, x: u8, y: u8, turn: Color) -> Action {
        match self.pieces@[y * 8 + x] {
            Some(pc) => if pc.color == turn {
                Action::ShowMoves(Position { x, y })
            } else {
                Action::Idle
            },
            None => Action::Idle,
        }
    }

    /// A press on `(x, y)` drops the shown moves without playing one: moves
    /// are shown, the press is allowed and the square is not one of them.
    pub open spec fn drops_selection(&self, click: Click, view: GameView) -> bool {
        match click {
            Click::Board { x, y } => {
                &&& !(view.status is AwaitingPromotion)
                &&& !self.blocked()
                &&& self.moves@.len() > 0
                &&& !self.board_moves@[y * 8 + x]
            },
            _ => false,
        }
    }

    /// What a press asks for, on the engine's position `view`.
    pub open spec fn click_action(&self, click: Click, view: GameView) -> Action {
        match click {
            Click::Elsewhere => Action::Idle,
            Click::Restart => Action::Restart,
            Click::Board { x, y } => if view.status is AwaitingPromotion {
                match promotion_pick(view.status, view.turn, x, y) {
                    Some(k) => Action::Promote(k),
                    None => Action::Idle,
                }
            } else if self.blocked() {
                Action::Idle
            } else if self.moves@.len() > 0 {
                if self.board_moves@[y * 8 + x] {
                    Action::TryMove {
                        from: self.from,
                        to: Position { x, y },
                        on_copy: self.mode == Mode::Client,
                    }
                } else if self.from == (Position { x, y }) {
                    Action::Idle
                } else {
                    self.selection(x, y, view.turn)
                }
            } else {
                self.selection(x, y, view.turn)
            },
        }
    }

    /// `after` is `self` with the shown moves dropped.
    pub open spec fn dropped(&self, after: State) -> bool {
        &&& after.moves@.len() == 0
        &&& after.board_moves@ == no_marks()
        &&& after.board == self.board
        &&& after.pieces == self.pieces
        &&& after.from == self.from
        &&& after.mode == self.mode
        &&& after.name_1 == self.name_1
        &&& after.name_2 == self.name_2
        &&& after.server == self.server
        &&& after.client == self.client
    }

    /// A fresh window state, as [`MainState::new`] with no links.
    pub fn new() -> (s: State)
        ensures
            s.wf(),
            s.board@.len() == 0,
            s.pieces@ == Seq::new(64, |k: int| None::<Piece>),
            s.moves@.len() == 0,
            s.board_moves@ == no_marks(),
            s.from == (Position { x: 0, y: 0 }),
            s.mode == Mode::Singleplayer,
            s.name_1@ == "White"@,
            s.name_2@ == "Black"@,
            s.server is None,
            s.client is None,
    {
        State {
            board: Vec::new(),
            pieces: empty_pieces(),
            moves: Vec::new(),
            board_moves: cleared_marks(),
            from: Position::new(0, 0),
            mode: Mode::Singleplayer,
            name_1: String::from_str("White"),
            name_2: String::from_str("Black"),
            server: None,
            client: None,
        }
    }

    /// Restarts on a fresh engine's position `view`: everything but the
    /// links becomes what a new, initialised [`MainState`] holds, which
    /// includes local play and the default names.
    pub fn init(&mut self, view: &GameView)
        requires
            view.wf(),
        ensures
            final(self).wf(),
            final(self).board@ == all_cells(),
            final(self).pieces@ == board_pieces(view.squares@),
            final(self).moves@.len() == 0,
            final(self).board_moves@ == no_marks(),
            final(self).from == (Position { x: 0, y: 0 }),
            final(self).mode == Mode::Singleplayer,
            final(self).name_1@ == "White"@,
            final(self).name_2@ == "Black"@,
            final(self).server == old(self).server,
            final(self).client == old(self).client,
    {
        let mut mainstate = MainState::new();
        mainstate.init(view);
        self.board = mainstate.board.clone();
        self.pieces = mainstate.pieces.clone();
        self.moves = mainstate.moves.clone();
        self.board_moves = mainstate.board_moves.clone();
        self.from = mainstate.from;
        self.mode = mainstate.mode;
        self.name_1 = mainstate.name_1.clone();
        self.name_2 = mainstate.name_2.clone();
    }

    /// Whether, in a networked game, it is not the local player's turn.
    pub fn input_blocked(&self) -> (b: bool)
        ensures
            b == self.blocked(),
    {
        match self.mode {
            Mode::Server => match &self.server {
                Some(link) => !link.player_turn,
                None => true,
            },
            Mode::Client => match &self.client {
                Some(link) => !link.player_turn,
                None => true,
            },
            Mode::Singleplayer => false,
        }
    }

    fn select_at(&self, x: u8, y: u8, turn: Color) -> (a: Action)
        requires
            self.board_ready(),
            y * 8 + x < 64,
        ensures
            a == self.selection(x, y, turn),
    {
        let i: usize = (y as usize) * 8 + (x as usize);
        match self.pieces[i] {
            Some(pc) => if pc.color == turn {
                Action::ShowMoves(Position::new(x, y))
            } else {
                Action::Idle
            },
            None => Action::Idle,
        }
    }

    /// Handles a mouse press on the engine's position `view`.
    ///
    /// While a pawn waits for promotion, a press only chooses its piece.
    /// Otherwise, in a networked game out of turn, nothing happens. With
    /// moves shown, pressing one of their squares asks to play it, and any
    /// other square drops them and, unless it is the selected square again,
    /// selects the piece there. With no moves shown, a press selects a piece
    /// of the side to move.
    ///
    /// A press is read at index `8 * y + x` of the board arrays, so a file
    /// `x` of 8 reads the first square of the next rank; the index must lie
    /// on the board whenever the press is read at all.
    pub fn click(&mut self, click: Click, view: &GameView) -> (action: Action)
        requires
            old(self).board_ready(),
            view.wf(),
            click matches Click::Board { x, y } ==> (y * 8 + x < 64 || view.status is AwaitingPromotion
                || old(self).blocked()),
        ensures
            final(self).board_ready(),
            old(self).wf() ==> final(self).wf(),
            action == old(self).click_action(click, *view),
            old(self).drops_selection(click, *view) ==> old(self).dropped(*final(self)),
            !old(self).drops_selection(click, *view) ==> *final(self) == *old(self),
    {
        match click {
            Click::Elsewhere => Action::Idle,
            Click::Restart => Action::Restart,
            Click::Board { x, y } => {
                if let GameStatus::AwaitingPromotion(p) = view.status {
                    let direction: i32 = if view.turn == Color::White {
                        1
                    } else {
                        -1
                    };
                    if x == p.x {
                        let py: i32 = p.y as i32;
                        let sy: i32 = y as i32;
                        if sy == py + direction * 1 {
                            return Action::Promote(PieceType::Queen);
                        }
                        if sy == py + direction * 2 {
                            return Action::Promote(PieceType::Rook);
                        }
                        if sy == py + direction * 3 {
                            return Action::Promote(PieceType::Bishop);
                        }
                        if sy == py + direction * 4 {
                            return Action::Promote(PieceType::Knight);
                        }
                    }
                    return Action::Idle;
                }
                if self.input_blocked() {
                    return Action::Idle;
                }
                if self.moves.len() > 0 {
                    let i: usize = (y as usize) * 8 + (x as usize);
                    if self.board_moves[i] {
                        return Action::TryMove {
                            from: self.from,
                            to: Position::new(x, y),
                            on_copy: self.mode == Mode::Client,
                        };
                    }
                    self.moves = Vec::new();
                    self.board_moves = cleared_marks();
                    if self.from.x == x && self.from.y == y {
                        return Action::Idle;
                    }
                }
                self.select_at(x, y, view.turn)
            },
        }
    }

    /// Takes the engine's answer to the move from the selected square to
    /// `to`. When the engine allowed it in a networked game, the move is to
    /// be sent, the turn passes to the opponent and the link awaits the
    /// answer; a joining client, which tried the move on a copy, also plays
    /// it on the real game. Nothing else changes.
    pub fn move_tried(&mut self, to: Position, outcome: MoveOutcome) -> (action: Action)
        requires
            old(self).wf(),
        ensures
            final(self).wf(),
            final(self).board == old(self).board,
            final(self).pieces == old(self).pieces,
            final(self).moves == old(self).moves,
            final(self).board_moves == old(self).board_moves,
            final(self).from == old(self).from,
            final(self).mode == old(self).mode,
            final(self).name_1 == old(self).name_1,
            final(self).name_2 == old(self).name_2,
            outcome == MoveOutcome::Allowed && old(self).mode == Mode::Server ==> {
                &&& action == (Action::Commit {
                    send: Some(net_move(old(self).from, to)),
                    replay: false,
                })
                &&& final(self).server == Some(after_local_move(old(self).server.unwrap()))
                &&& final(self).client == old(self).client
            },
            outcome == MoveOutcome::Allowed && old(self).mode == Mode::Client ==> {
                &&& action == (Action::Commit {
                    send: Some(net_move(old(self).from, to)),
                    replay: true,
                })
                &&& final(self).client == Some(after_local_move(old(self).client.unwrap()))
                &&& final(self).server == old(self).server
            },
            outcome != MoveOutcome::Allowed || old(self).mode == Mode::Singleplayer ==> {
                &&& action == (Action::Commit { send: None, replay: false })
                &&& final(self).server == old(self).server
                &&& final(self).client == old(self).client
            },
            outcome == MoveOutcome::Allowed && old(self).mode != Mode::Singleplayer
                ==> final(self).blocked(),
    {
        if outcome != MoveOutcome::Allowed {
            return Action::Commit { send: None, replay: false };
        }
        let send_move = NetMove {
            from: (self.from.x, self.from.y),
            to: (to.x, to.y),
            forfeit: false,
            offer_draw: false,
        };
        match self.mode {
            Mode::Server => {
                let mut link = self.server.unwrap();
                link.next();
                link.player_turn = false;
                self.server = Some(link);
                Action::Commit { send: Some(send_move), replay: false }
            },
            Mode::Client => {
                let mut link = self.client.unwrap();
                link.player_turn = false;
                link.next();
                self.client = Some(link);
                Action::Commit { send: Some(send_move), replay: true }
            },
            Mode::Singleplayer => Action::Commit { send: None, replay: false },
        }
    }

    /// After a move to `to` was tried, takes the engine's new position
    /// `view`: copies its pieces, drops the shown moves and, unless `to` is
    /// the selected square, selects the piece on `to` when it belongs to the
    /// side now to move.
    pub fn move_done(&mut self, to: Position, view: &GameView) -> (action: Action)
        requires
            old(self).board_ready(),
            view.wf(),
            to.index() < 64,
        ensures
            final(self).board_ready(),
            old(self).wf() ==> final(self).wf(),
            final(self).pieces@ == board_pieces(view.squares@),
            final(self).moves@.len() == 0,
            final(self).board_moves@ == no_marks(),
            final(self).board == old(self).board,
            final(self).from == old(self).from,
            final(self).mode == old(self).mode,
            final(self).name_1 == old(self).name_1,
            final(self).name_2 == old(self).name_2,
            final(self).server == old(self).server,
            final(self).client == old(self).client,
            action == (if old(self).from == to {
                Action::Idle
            } else {
                final(self).selection(to.x, to.y, view.turn)
            }),
    {
        self.pieces = flip_board(&view.squares);
        self.moves = Vec::new();
        self.board_moves = cleared_marks();
        if self.from.x == to.x && self.from.y == to.y {
            return Action::Idle;
        }
        self.select_at(to.x, to.y, view.turn)
    }

    /// Shows the engine's `moves` for the piece on `at`: selects `at` and
    /// marks exactly the squares that the moves reach.
    pub fn show_moves(&mut self, at: Position, moves: Vec<Position>)
        requires
            old(self).board_ready(),
            forall|k: int| 0 <= k < moves@.len() ==> (#[trigger] moves@[k]).index() < 64,
        ensures
            final(self).board_ready(),
            old(self).wf() ==> final(self).wf(),
            final(self).moves@ == moves@,
            final(self).from == at,
            final(self).board_moves@ == marks_of(moves@),
            final(self).board == old(self).board,
            final(self).pieces == old(self).pieces,
            final(self).mode == old(self).mode,
            final(self).name_1 == old(self).name_1,
            final(self).name_2 == old(self).name_2,
            final(self).server == old(self).server,
            final(self).client == old(self).client,
    {
        let mut marks = cleared_marks();
        let n: usize = moves.len();
        for i in 0..n
            invariant
                n == moves@.len(),
                forall|k: int| 0 <= k < moves@.len() ==> (#[trigger] moves@[k]).index() < 64,
                marks@ == Seq::new(
                    64,
                    |k: int| exists|m: int| 0 <= m < i && #[trigger] moves@[m].index() == k,
                ),
        {
            let p = moves[i];
            let idx: usize = (p.y as usize) * 8 + (p.x as usize);
            let ghost before = marks@;
            marks.set(idx, true);
            assert forall|k: int| 0 <= k < 64 implies marks@[k] == (exists|m: int|
                0 <= m < i + 1 && #[trigger] moves@[m].index() == k) by {
                if k == idx {
                    assert(moves@[i as int].index() == k);
                } else if before[k] {
                    let m = choose|m: int| 0 <= m < i && #[trigger] moves@[m].index() == k;
                    assert(0 <= m < i + 1 && moves@[m].index() == k);
                }
            }
            assert(marks@ =~= Seq::new(
                64,
                |k: int| exists|m: int| 0 <= m < i + 1 && #[trigger] moves@[m].index() == k,
            ));
        }
        self.moves = moves;
        self.from = at;
        self.board_moves = marks;
    }

    /// In a networked game, whether the opponent's move is awaited.
    pub open spec fn awaits_move(&self) -> bool {
        ||| self.mode == Mode::Client && self.client.unwrap().expected == ConnectionState::ServerMove
        ||| self.mode == Mode::Server && self.server.unwrap().expected == ConnectionState::ClientMove
    }

    /// In a networked game, whether the answer to the local move is awaited.
    pub open spec fn awaits_ack(&self) -> bool {
        ||| self.mode == Mode::Client && self.client.unwrap().expected == ConnectionState::ServerAck
        ||| self.mode == Mode::Server && self.server.unwrap().expected == ConnectionState::ClientAck
    }

    /// Whether the opponent's move is to be read now.
    pub fn expects_move(&self) -> (b: bool)
        requires
            self.wf(),
        ensures
            b == self.awaits_move(),
    {
        match self.mode {
            Mode::Client => self.client.unwrap().expected == ConnectionState::ServerMove,
            Mode::Server => self.server.unwrap().expected == ConnectionState::ClientMove,
            Mode::Singleplayer => false,
        }
    }

    /// Whether the answer to the local move is to be read now.
    pub fn expects_ack(&self) -> (b: bool)
        requires
            self.wf(),
        ensures
            b == self.awaits_ack(),
    {
        match self.mode {
            Mode::Client => self.client.unwrap().expected == ConnectionState::ServerAck,
            Mode::Server => self.server.unwrap().expected == ConnectionState::ClientAck,
            Mode::Singleplayer => false,
        }
    }

    /// Takes the engine's answer to the opponent's move: the turn comes back
    /// to the local player (a host also moves on to await the answer), and
    /// the returned answer to send says whether the engine allowed the move.
    pub fn remote_move_applied(&mut self, outcome: MoveOutcome) -> (ack: Ack)
        requires
            old(self).wf(),
            old(self).awaits_move(),
        ensures
            final(self).wf(),
            ack.ok == (outcome == MoveOutcome::Allowed),
            !final(self).blocked(),
            old(self).mode == Mode::Client ==> final(self).client == Some(
                Connection { player_turn: true, ..old(self).client.unwrap() },
            ) && final(self).server == old(self).server,
            old(self).mode == Mode::Server ==> final(self).server == Some(
                Connection {
                    player_turn: true,
                    expected: following(old(self).server.unwrap().expected),
                },
            ) && final(self).client == old(self).client,
            final(self).board == old(self).board,
            final(self).pieces == old(self).pieces,
            final(self).moves == old(self).moves,
            final(self).board_moves == old(self).board_moves,
            final(self).from == old(self).from,
            final(self).mode == old(self).mode,
            final(self).name_1 == old(self).name_1,
            final(self).name_2 == old(self).name_2,
    {
        let is_ok = outcome == MoveOutcome::Allowed;
        if self.mode == Mode::Client {
            let mut link = self.client.unwrap();
            link.player_turn = true;
            self.client = Some(link);
        } else {
            let mut link = self.server.unwrap();
            link.player_turn = true;
            link.next();
            self.server = Some(link);
        }
        Ack { ok: is_ok }
    }

    /// Takes the opponent's answer to the local move: the link moves on to
    /// await the opponent's next move. Returns whether the opponent refused
    /// the move.
    pub fn remote_ack(&mut self, ack: Ack) -> (refused: bool)
        requires
            old(self).wf(),
            old(self).awaits_ack(),
        ensures
            final(self).wf(),
            refused == !ack.ok,
            final(self).awaits_move(),
            old(self).mode == Mode::Client ==> final(self).client == Some(
                Connection {
                    expected: following(old(self).client.unwrap().expected),
                    ..old(self).client.unwrap()
                },
            ) && final(self).server == old(self).server,
            old(self).mode == Mode::Server ==> final(self).server == Some(
                Connection {
                    expected: following(old(self).server.unwrap().expected),
                    ..old(self).server.unwrap()
                },
            ) && final(self).client == old(self).client,
            final(self).board == old(self).board,
            final(self).pieces == old(self).pieces,
            final(self).moves == old(self).moves,
            final(self).board_moves == old(self).board_moves,
            final(self).from == old(self).from,
            final(self).mode == old(self).mode,
            final(self).name_1 == old(self).name_1,
            final(self).name_2 == old(self).name_2,
    {
        if self.mode == Mode::Client {
            let mut link = self.client.unwrap();
            link.next();
            self.client = Some(link);
        } else {
            let mut link = self.server.unwrap();
            link.next();
            self.server = Some(link);
        }
        !ack.ok
    }

    /// Draws square `i`: its colour, a mark when a shown move reaches it,
    /// and an alert when it holds a king in check.
    fn push_square(&self, view: &GameView, out: &mut Vec<Sprite>, i: usize)
        requires
            self.board_ready(),
            view.wf(),
            i < 64,
        ensures
            final(out)@ == old(out)@ + square_sprites(*self, *view, i as int),
    {
        let dimmed = match view.status {
            GameStatus::AwaitingPromotion(_) => true,
            _ => false,
        };
        let paint = match square_shade(i) {
            Shade::Dark => Paint::Dark,
            Shade::Light => Paint::Light,
        };
        let ghost start = out@;
        out.push(Sprite::Fill { cell: i, paint, dimmed });
        let ghost after_base = out@;
        if self.board_moves[i] {
            if self.pieces[i].is_none() {
                out.push(Sprite::Dot { cell: i });
            } else {
                out.push(Sprite::Corners { cell: i });
            }
        }
        let ghost after_mark = out@;
        if king_in_check(self.pieces[i], view.status, Color::White) {
            out.push(Sprite::Fill { cell: i, paint: Paint::Alert, dimmed });
        }
        let ghost after_white = out@;
        if king_in_check(self.pieces[i], view.status, Color::Black) {
            out.push(Sprite::Fill { cell: i, paint: Paint::Alert, dimmed });
        }
        assert(out@ =~= start + square_sprites(*self, *view, i as int));
    }

    /// The drawing steps of the board for the engine's position `view`:
    /// the 64 squares with their marks and alerts, then the selected
    /// square when moves are shown, then the engine's pieces, then the
    /// four promotion choices while a pawn waits for promotion.
    pub fn scene(&self, view: &GameView) -> (sprites: Vec<Sprite>)
        requires
            self.board_ready(),
            view.wf(),
            view.status matches GameStatus::AwaitingPromotion(p) ==> p.y == 0 || p.y >= 4,
        ensures
            sprites@ == board_layer(*self, *view, 64) + chosen_layer(*self) + piece_layer(*view, 64)
                + promotion_layer(*view),
    {
        let mut out: Vec<Sprite> = Vec::new();
        for i in 0..64
            invariant
                self.board_ready(),
                view.wf(),
                out@ == board_layer(*self, *view, i as int),
        {
            self.push_square(view, &mut out, i);
        }
        let ghost board_part = out@;
        if self.moves.len() > 0 {
            let pos: usize = (self.from.y as usize) * 8 + (self.from.x as usize);
            out.push(Sprite::Fill { cell: pos, paint: Paint::Chosen, dimmed: false });
        }
        assert(out@ =~= board_part + chosen_layer(*self));
        let ghost chosen_part = out@;
        for i in 0..64
            invariant
                view.wf(),
                out@ == chosen_part + piece_layer(*view, i as int),
        {
            if let Some(pc) = view.squares[i] {
                out.push(Sprite::Picture { col: (i % 8) as u8, row: (i / 8) as u8, piece: pc });
            }
            assert(out@ =~= chosen_part + piece_layer(*view, i + 1));
        }
        let ghost piece_part = out@;
        if let GameStatus::AwaitingPromotion(p) = view.status {
            let white = p.y != 0;
            for k in 0..4
                invariant
                    view.status == GameStatus::AwaitingPromotion(p),
                    white == (p.y != 0),
                    p.on_board(),
                    p.y == 0 || p.y >= 4,
                    out@ == piece_part + promotion_slots(p, k as int),
            {
                let y: u8 = if white {
                    p.y - (k + 1)
                } else {
                    p.y + (k + 1)
                };
                let kind = if k == 0 {
                    PieceType::Queen
                } else if k == 1 {
                    PieceType::Rook
                } else if k == 2 {
                    PieceType::Bishop
                } else {
                    PieceType::Knight
                };
                let color = if white {
                    Color::White
                } else {
                    Color::Black
                };
                out.push(
                    Sprite::Fill {
                        cell: (y as usize) * 8 + (p.x as usize),
                        paint: Paint::Shadow,
                        dimmed: false,
                    },
                );
                out.push(
                    Sprite::Picture { col: p.x, row: 7 - y, piece: Piece { color, piece_type: kind } },
                );
                assert(out@ =~= piece_part + promotion_slots(p, k + 1));
            }
        }
        assert(out@ =~= piece_part + promotion_layer(*view));
        out
    }
}

/// With no promotion pending and no moves shown, a press that is allowed
/// selects the square exactly when it holds a piece of the side to move,
/// whatever kind of piece it is, and otherwise does nothing; out of turn in
/// a networked game every press does nothing. A press beside the board does
/// nothing and the restart button asks for a restart.
pub proof fn lemma_press_selects_own_piece(s: State, view: GameView, x: u8, y: u8)
    requires
        s.board_ready(),
        y * 8 + x < 64,
        !(view.status is AwaitingPromotion),
    ensures
        !s.blocked() && s.moves@.len() == 0 ==> ((s.click_action(Click::Board { x, y }, view)
            == Action::ShowMoves(Position { x, y })) <==> (s.pieces@[y * 8 + x] matches Some(pc)
            && pc.color == view.turn)),
        !s.blocked() && s.moves@.len() == 0 && !(s.pieces@[y * 8 + x] matches Some(pc) && pc.color
            == view.turn) ==> s.click_action(Click::Board { x, y }, view) == Action::Idle,
        s.blocked() ==> s.click_action(Click::Board { x, y }, view) == Action::Idle,
        s.click_action(Click::Elsewhere, view) == Action::Idle,
        s.click_action(Click::Restart, view) == Action::Restart,
{
}

/// The link of the networked side that `s` plays.
pub open spec fn own_link(s: State) -> Option<Connection> {
    if s.mode == Mode::Client {
        s.client
    } else {
        s.server
    }
}

/// Local play is never out of turn; a networked side is out of turn exactly
/// when it has no link or its link does not give it the turn.
pub proof fn lemma_turn_guard(s: State)
    ensures
        s.mode == Mode::Singleplayer ==> !s.blocked(),
        s.mode != Mode::Singleplayer && own_link(s) is None ==> s.blocked(),
        s.mode != Mode::Singleplayer && own_link(s) is Some ==> (s.blocked()
            <==> !own_link(s).unwrap().player_turn),
{
}

/// Which message a networked side reads: right after the opening exchange
/// each side reads the other's move; a side never waits for a move and an
/// answer at once; once the awaited move is handled (the local move sent or
/// the opponent's move applied) the answer is read, and once the answer is
/// read the next move is. Local play reads nothing.
pub proof fn lemma_read_order(s: State, s2: State)
    ensures
        s.mode == Mode::Client && s.client == Some(client_link()) ==> s.awaits_move()
            && !s.awaits_ack(),
        s.mode == Mode::Server && s.server == Some(server_link()) ==> s.awaits_move()
            && !s.awaits_ack(),
        s.mode == Mode::Singleplayer ==> !s.awaits_move() && !s.awaits_ack(),
        !(s.awaits_move() && s.awaits_ack()),
        s.mode != Mode::Singleplayer && own_link(s) is Some && s2.mode == s.mode && own_link(s2)
            == Some(after_local_move(own_link(s).unwrap())) && s.awaits_move() ==> s2.awaits_ack()
            && !s2.awaits_move(),
        s.mode != Mode::Singleplayer && own_link(s) is Some && s2.mode == s.mode && own_link(s2)
            is Some && own_link(s2).unwrap().expected == following(own_link(s).unwrap().expected)
            && s.awaits_ack() ==> s2.awaits_move() && !s2.awaits_ack(),
        s.mode != Mode::Singleplayer && own_link(s) is Some && s2.mode == s.mode && own_link(s2)
            is Some && own_link(s2).unwrap().expected == following(own_link(s).unwrap().expected)
            && s.awaits_move() ==> s2.awaits_ack() && !s2.awaits_move(),
{
}

/// Dropping the shown moves leaves no move and no mark, and keeps the
/// pieces, the selected square, the mode and the links.
pub proof fn lemma_drop_clears(s: State, s2: State)
    requires
        s.dropped(s2),
    ensures
        s2.moves@.len() == 0,
        s2.board_moves@.len() == 64,
        forall|k: int| 0 <= k < 64 ==> !(#[trigger] s2.board_moves@[k]),
        s2.pieces == s.pieces,
        s2.from == s.from,
        s2.mode == s.mode,
        s2.server == s.server,
        s2.client == s.client,
{
}

/// With moves shown, an allowed press on a square that no move reaches and
/// that is not the selected square drops the moves and selects that square
/// exactly when it holds a piece of the side to move (nothing otherwise).
pub proof fn lemma_press_elsewhere_switches(s: State, view: GameView, x: u8, y: u8)
    requires
        s.board_ready(),
        y * 8 + x < 64,
        !(view.status is AwaitingPromotion),
        !s.blocked(),
        s.moves@.len() > 0,
        !s.board_moves@[y * 8 + x],
        s.from != (Position { x, y }),
    ensures
        s.drops_selection(Click::Board { x, y }, view),
        (s.click_action(Click::Board { x, y }, view) == Action::ShowMoves(Position { x, y }))
            <==> (s.pieces@[y * 8 + x] matches Some(pc) && pc.color == view.turn),
        !(s.pieces@[y * 8 + x] matches Some(pc) && pc.color == view.turn) ==> s.click_action(
            Click::Board { x, y },
            view,
        ) == Action::Idle,
{
}

/// While a pawn waits for promotion, a press picks by the side to move: with
/// white to move the four squares above the pawn on its file pick queen,
/// rook, bishop and knight in turn, with black to move the four squares
/// below it; the press asks the engine for that promotion and changes
/// nothing else. Any other square on the board asks for nothing.
pub proof fn lemma_promotion_press(s: State, view: GameView, x: u8, y: u8)
    requires
        view.wf(),
        view.status is AwaitingPromotion,
        y < 8,
    ensures
        ({
            let p = view.status->AwaitingPromotion_0;
            let up = view.turn == Color::White;
            let kind = if (if up {
                y - p.y
            } else {
                p.y - y
            }) == 1 {
                Some(PieceType::Queen)
            } else if (if up {
                y - p.y
            } else {
                p.y - y
            }) == 2 {
                Some(PieceType::Rook)
            } else if (if up {
                y - p.y
            } else {
                p.y - y
            }) == 3 {
                Some(PieceType::Bishop)
            } else if (if up {
                y - p.y
            } else {
                p.y - y
            }) == 4 {
                Some(PieceType::Knight)
            } else {
                None::<PieceType>
            };
            &&& x == p.x && kind is Some ==> s.click_action(Click::Board { x, y }, view)
                == Action::Promote(kind.unwrap())
            &&& (x != p.x || kind is None) ==> s.click_action(Click::Board { x, y }, view)
                == Action::Idle
            &&& !s.drops_selection(Click::Board { x, y }, view)
        }),
{
}

/// Once the moves of a piece are shown, pressing the square that one of them
/// reaches asks the engine to play exactly that move, from the selected
/// square (on a copy of the game for a joining client).
pub proof fn lemma_marked_square_plays(s: State, view: GameView, m: int)
    requires
        s.board_ready(),
        0 <= m < s.moves@.len(),
        s.moves@[m].index() < 64,
        s.board_moves@ == marks_of(s.moves@),
        !s.blocked(),
        !(view.status is AwaitingPromotion),
    ensures
        ({
            let to = s.moves@[m];
            s.click_action(Click::Board { x: to.x, y: to.y }, view) == (Action::TryMove {
                from: s.from,
                to,
                on_copy: s.mode == Mode::Client,
            })
        }),
{
    let to = s.moves@[m];
    assert(s.board_moves@[to.index()]);
}

/// Pressing the selected piece a second time hides its moves. `s` is the
/// state before the first press on `(x, y)`, which selects the piece there;
/// `s1` is the state once [`State::show_moves`] has shown the engine's
/// moves for it, none of which reaches the selected square itself. When
/// there are moves, the second press asks for nothing and drops them (by
/// [`State::click`], the state after it is `s1` with no moves and no marks);
/// when there are none, the second press selects the piece again.
pub proof fn lemma_second_press_hides(s: State, s1: State, view: GameView, x: u8, y: u8)
    requires
        s.board_ready(),
        view.wf(),
        y * 8 + x < 64,
        s.click_action(Click::Board { x, y }, view) == Action::ShowMoves(Position { x, y }),
        s1.board_ready(),
        s1.from == (Position { x, y }),
        s1.board_moves@ == marks_of(s1.moves@),
        forall|m: int| 0 <= m < s1.moves@.len() ==> (#[trigger] s1.moves@[m]).index() != y * 8 + x,
        s1.pieces == s.pieces,
        s1.mode == s.mode,
        s1.server == s.server,
        s1.client == s.client,
    ensures
        s1.moves@.len() > 0 ==> s1.drops_selection(Click::Board { x, y }, view) && s1.click_action(
            Click::Board { x, y },
            view,
        ) == Action::Idle,
        s1.moves@.len() == 0 ==> !s1.drops_selection(Click::Board { x, y }, view) && s1.click_action(
            Click::Board { x, y },
            view,
        ) == Action::ShowMoves(Position { x, y }),
{
    let k = y * 8 + x;
    assert(!s1.board_moves@[k]);
}

/// The promotion choices drawn on the board are the ones a press picks:
/// pressing the square of the `k`-th drawn choice promotes to the piece shown
/// there, when the side to move is the one the pawn moves away from (black
/// for a pawn on rank 7, white for a pawn on rank 0).
pub proof fn lemma_shown_choice_promotes(p: Position, turn: Color, k: int)
    requires
        p.on_board(),
        (p.y == 0 && turn == Color::White) || (p.y == 7 && turn == Color::Black),
        0 <= k < 4,
    ensures
        ({
            let y: int = if p.y != 0 {
                p.y - (k + 1)
            } else {
                p.y + (k + 1)
            };
            let color = if p.y != 0 {
                Color::White
            } else {
                Color::Black
            };
            &&& promotion_slots(p, 4).len() == 8
            &&& promotion_slots(p, 4)[2 * k] == (Sprite::Fill {
                cell: (y * 8 + p.x) as usize,
                paint: Paint::Shadow,
                dimmed: false,
            })
            &&& promotion_slots(p, 4)[2 * k + 1] == (Sprite::Picture {
                col: p.x,
                row: (7 - y) as u8,
                piece: Piece { color, piece_type: promotion_kind(k) },
            })
            &&& promotion_pick(GameStatus::AwaitingPromotion(p), turn, p.x, y as u8) == Some(
                promotion_kind(k),
            )
        }),
{
    reveal_with_fuel(promotion_slots, 5);
}

/// The king of `color` stands on a square holding `piece` while that side
/// is in check or checkmated.
pub open spec fn king_alert(piece: Option<Piece>, status: GameStatus, color: Color) -> bool {
    &&& (status == GameStatus::Check(color) || status == GameStatus::Checkmate(color))
    &&& piece == Some(Piece { color, piece_type: PieceType::King })
}

fn king_in_check(piece: Option<Piece>, status: GameStatus, color: Color) -> (b: bool)
    ensures
        b == king_alert(piece, status, color),
{
    if status == GameStatus::Check(color) || status == GameStatus::Checkmate(color) {
        match piece {
            Some(pc) => pc.color == color && pc.piece_type == PieceType::King,
            None => false,
        }
    } else {
        false
    }
}

/// The drawing steps of board square `i`.
pub open spec fn square_sprites(s: State, v: GameView, i: int) -> Seq<Sprite> {
    let dimmed = v.status is AwaitingPromotion;
    let cell = i as usize;
    let paint = if shade_of(i) == Shade::Dark {
        Paint::Dark
    } else {
        Paint::Light
    };
    let mark = if s.board_moves@[i] {
        if s.pieces@[i] is None {
            seq![Sprite::Dot { cell }]
        } else {
            seq![Sprite::Corners { cell }]
        }
    } else {
        Seq::empty()
    };
    let white_alert = if king_alert(s.pieces@[i], v.status, Color::White) {
        seq![Sprite::Fill { cell, paint: Paint::Alert, dimmed }]
    } else {
        Seq::empty()
    };
    let black_alert = if king_alert(s.pieces@[i], v.status, Color::Black) {
        seq![Sprite::Fill { cell, paint: Paint::Alert, dimmed }]
    } else {
        Seq::empty()
    };
    seq![Sprite::Fill { cell, paint, dimmed }] + mark + white_alert + black_alert
}

/// The drawing steps of board squares `0..n`.
pub open spec fn board_layer(s: State, v: GameView, n: int) -> Seq<Sprite>
    decreases n,
{
    if n <= 0 {
        Seq::empty()
    } else {
        board_layer(s, v, n - 1) + square_sprites(s, v, n - 1)
    }
}

/// The board square that a fill or a mark is drawn on, or -1 for a picture.
pub open spec fn sprite_cell(sp: Sprite) -> int {
    match sp {
        Sprite::Fill { cell, .. } => cell as int,
        Sprite::Dot { cell } => cell as int,
        Sprite::Corners { cell } => cell as int,
        Sprite::Picture { .. } => -1,
    }
}

/// Square `i` holds the king of a side that is in check or checkmated.
pub open spec fn threatened_king_on(s: State, v: GameView, i: int) -> bool {
    match v.status {
        GameStatus::Check(c) => s.pieces@[i] == Some(Piece { color: c, piece_type: PieceType::King }),
        GameStatus::Checkmate(c) => s.pieces@[i] == Some(
            Piece { color: c, piece_type: PieceType::King },
        ),
        _ => false,
    }
}

proof fn lemma_contains_concat(a: Seq<Sprite>, b: Seq<Sprite>, x: Sprite)
    ensures
        (a + b).contains(x) <==> a.contains(x) || b.contains(x),
{
    if (a + b).contains(x) {
        let k = choose|k: int| 0 <= k < (a + b).len() && (a + b)[k] == x;
        if k < a.len() {
            assert(a[k] == x);
        } else {
            assert(b[k - a.len()] == x);
        }
    }
    if a.contains(x) {
        let k = choose|k: int| 0 <= k < a.len() && a[k] == x;
        assert((a + b)[k] == x);
    }
    if b.contains(x) {
        let k = choose|k: int| 0 <= k < b.len() && b[k] == x;
        assert((a + b)[a.len() + k] == x);
    }
}

proof fn lemma_square_steps(s: State, v: GameView, i: int, x: Sprite)
    requires
        s.board_ready(),
        0 <= i < 64,
    ensures
        forall|k: int|
            0 <= k < square_sprites(s, v, i).len() ==> sprite_cell(
                #[trigger] square_sprites(s, v, i)[k],
            ) == i,
        square_sprites(s, v, i).contains(x) <==> square_has(s, v, i, x),
{
    let dimmed = v.status is AwaitingPromotion;
    let cell = i as usize;
    let paint = if shade_of(i) == Shade::Dark {
        Paint::Dark
    } else {
        Paint::Light
    };
    let mark = if s.board_moves@[i] {
        if s.pieces@[i] is None {
            seq![Sprite::Dot { cell }]
        } else {
            seq![Sprite::Corners { cell }]
        }
    } else {
        Seq::<Sprite>::empty()
    };
    let wa = if king_alert(s.pieces@[i], v.status, Color::White) {
        seq![Sprite::Fill { cell, paint: Paint::Alert, dimmed }]
    } else {
        Seq::<Sprite>::empty()
    };
    let ba = if king_alert(s.pieces@[i], v.status, Color::Black) {
        seq![Sprite::Fill { cell, paint: Paint::Alert, dimmed }]
    } else {
        Seq::<Sprite>::empty()
    };
    let base = seq![Sprite::Fill { cell, paint, dimmed }];
    assert(square_sprites(s, v, i) == base + mark + wa + ba);
    lemma_contains_concat(base + mark + wa, ba, x);
    lemma_contains_concat(base + mark, wa, x);
    lemma_contains_concat(base, mark, x);
    assert(base.contains(x) <==> x == base[0]) by {
        if x == base[0] {
            assert(base[0] == x);
        }
    }
    assert(mark.len() > 0 ==> (mark.contains(x) <==> x == mark[0])) by {
        if mark.len() > 0 && x == mark[0] {
            assert(mark[0] == x);
        }
    }
    assert(wa.len() > 0 ==> (wa.contains(x) <==> x == wa[0])) by {
        if wa.len() > 0 && x == wa[0] {
            assert(wa[0] == x);
        }
    }
    assert(ba.len() > 0 ==> (ba.contains(x) <==> x == ba[0])) by {
        if ba.len() > 0 && x == ba[0] {
            assert(ba[0] == x);
        }
    }
    assert((i / 8) % 2 == i % 2 <==> (i / 8 + i % 8) % 2 == 0);
    assert forall|k: int|
        0 <= k < square_sprites(s, v, i).len() implies sprite_cell(
        #[trigger] square_sprites(s, v, i)[k],
    ) == i by {
        let q = square_sprites(s, v, i);
        let bm = base + mark;
        let bmw = base + mark + wa;
        if k >= bmw.len() {
            assert(q[k] == ba[k - bmw.len()]);
        } else if k >= bm.len() {
            assert(q[k] == wa[k - bm.len()]);
        } else if k >= 1 {
            assert(q[k] == mark[k - 1]);
        } else {
            assert(q[k] == base[0]);
        }
    }
}

/// What board square `i` shows: its colour (dark when its rank and file
/// add up to an even number), dimmed while a pawn waits for promotion; a dot
/// when a shown move reaches it empty, corner marks when a shown move
/// reaches a piece; a red alert when it holds the king of a side in check or
/// checkmated; and nothing else.
pub open spec fn square_has(s: State, v: GameView, i: int, x: Sprite) -> bool {
    let dimmed = v.status is AwaitingPromotion;
    ||| x == (Sprite::Fill {
        cell: i as usize,
        paint: if (i / 8 + i % 8) % 2 == 0 {
            Paint::Dark
        } else {
            Paint::Light
        },
        dimmed,
    })
    ||| x == (Sprite::Dot { cell: i as usize }) && s.board_moves@[i] && s.pieces@[i] is None
    ||| x == (Sprite::Corners { cell: i as usize }) && s.board_moves@[i] && s.pieces@[i] is Some
    ||| x == (Sprite::Fill { cell: i as usize, paint: Paint::Alert, dimmed })
        && threatened_king_on(s, v, i)
}

/// The board layer of the drawing draws on the 64 board squares only, and
/// it holds a drawing step for square `i` exactly when that square shows it
/// (see [`square_has`]).
pub proof fn lemma_board_steps(s: State, v: GameView, n: int)
    requires
        s.board_ready(),
        0 <= n <= 64,
    ensures
        forall|k: int|
            0 <= k < board_layer(s, v, n).len() ==> 0 <= sprite_cell(
                #[trigger] board_layer(s, v, n)[k],
            ) < n,
        forall|i: int, x: Sprite|
            0 <= i < n && sprite_cell(x) == i ==> (board_layer(s, v, n).contains(x) <==> square_has(
                s,
                v,
                i,
                x,
            )),
    decreases n,
{
    if n > 0 {
        lemma_board_steps(s, v, n - 1);
        let prev = board_layer(s, v, n - 1);
        let sq = square_sprites(s, v, n - 1);
        let cur = board_layer(s, v, n);
        assert(cur == prev + sq);
        lemma_square_steps(s, v, n - 1, Sprite::Dot { cell: 0 });
        assert forall|k: int| 0 <= k < cur.len() implies 0 <= sprite_cell(#[trigger] cur[k]) < n by {
            if k < prev.len() {
                assert(cur[k] == prev[k]);
            } else {
                assert(cur[k] == sq[k - prev.len()]);
            }
        }
        assert forall|i: int, x: Sprite|
            0 <= i < n && sprite_cell(x) == i implies (cur.contains(x) <==> square_has(
            s,
            v,
            i,
            x,
        )) by {
            lemma_contains_concat(prev, sq, x);
            lemma_square_steps(s, v, n - 1, x);
            if i < n - 1 {
                if sq.contains(x) {
                    let k = choose|k: int| 0 <= k < sq.len() && sq[k] == x;
                    assert(sprite_cell(sq[k]) == n - 1);
                }
            } else {
                if prev.contains(x) {
                    let k = choose|k: int| 0 <= k < prev.len() && prev[k] == x;
                    assert(sprite_cell(prev[k]) < n - 1);
                }
            }
        }
    }
}

/// The selected square is highlighted exactly while moves are shown, once,
/// on the square's index.
pub proof fn lemma_chosen_step(s: State)
    ensures
        s.moves@.len() > 0 ==> chosen_layer(s).len() == 1 && chosen_layer(s)[0] == (Sprite::Fill {
            cell: (s.from.y * 8 + s.from.x) as usize,
            paint: Paint::Chosen,
            dimmed: false,
        }),
        s.moves@.len() == 0 ==> chosen_layer(s).len() == 0,
{
}

/// While a pawn waits for promotion on `p` (rank 0, or rank 4 or above),
/// the drawing ends with its four choices: for `k` from 0 to 3, a shadowed
/// square `k + 1` ranks away from the pawn (upwards from rank 0, downwards
/// otherwise) on the pawn's file, and on it the picture of the `k`-th of
/// queen, rook, bishop and knight, black for a pawn on rank 0 and white
/// otherwise. Without a pending promotion nothing is added.
pub proof fn lemma_promotion_steps(v: GameView)
    requires
        v.wf(),
        v.status matches GameStatus::AwaitingPromotion(p) ==> p.y == 0 || p.y >= 4,
    ensures
        !(v.status is AwaitingPromotion) ==> promotion_layer(v).len() == 0,
        v.status matches GameStatus::AwaitingPromotion(p) ==> {
            &&& promotion_layer(v).len() == 8
            &&& forall|k: int|
                0 <= k < 4 ==> {
                    let y: int = if p.y == 0 {
                        k + 1
                    } else {
                        p.y - (k + 1)
                    };
                    &&& 0 <= y < 8
                    &&& #[trigger] promotion_layer(v)[2 * k] == (Sprite::Fill {
                        cell: (y * 8 + p.x) as usize,
                        paint: Paint::Shadow,
                        dimmed: false,
                    })
                    &&& promotion_layer(v)[2 * k + 1] == (Sprite::Picture {
                        col: p.x,
                        row: (7 - y) as u8,
                        piece: Piece {
                            color: if p.y == 0 {
                                Color::Black
                            } else {
                                Color::White
                            },
                            piece_type: if k == 0 {
                                PieceType::Queen
                            } else if k == 1 {
                                PieceType::Rook
                            } else if k == 2 {
                                PieceType::Bishop
                            } else {
                                PieceType::Knight
                            },
                        },
                    })
                }
        },
{
    reveal_with_fuel(promotion_slots, 5);
}

/// The selected square, highlighted while its moves are shown.
pub open spec fn chosen_layer(s: State) -> Seq<Sprite> {
    if s.moves@.len() > 0 {
        seq![Sprite::Fill { cell: s.from.index() as usize, paint: Paint::Chosen, dimmed: false }]
    } else {
        Seq::empty()
    }
}

/// The pictures of the engine's pieces on squares `0..n` of its array, which
/// lists the top row first.
pub open spec fn piece_layer(v: GameView, n: int) -> Seq<Sprite>
    decreases n,
{
    if n <= 0 {
        Seq::empty()
    } else {
        piece_layer(v, n - 1) + match v.squares@[n - 1] {
            Some(pc) => seq![
                Sprite::Picture { col: ((n - 1) % 8) as u8, row: ((n - 1) / 8) as u8, piece: pc },
            ],
            None => Seq::empty(),
        }
    }
}

/// The engine square (row-major, top row first) that a picture is drawn on,
/// or -1 for any other drawing step.
pub open spec fn picture_square(sp: Sprite) -> int {
    match sp {
        Sprite::Picture { col, row, .. } => row * 8 + col,
        _ => -1,
    }
}

/// The pictures of the engine's pieces: every drawing step of the layer is
/// a picture of the piece that the engine holds on its square, in column
/// `i % 8` and row `i / 8` for engine index `i`; every occupied index gets
/// such a picture, and no square gets two (the pictures come in increasing
/// square order).
pub proof fn lemma_piece_pictures(v: GameView, n: int)
    requires
        v.wf(),
        0 <= n <= 64,
    ensures
        forall|k: int|
            0 <= k < piece_layer(v, n).len() ==> (#[trigger] piece_layer(v, n)[k] matches Sprite::Picture {
                col,
                row,
                piece,
            } && col < 8 && row < 8 && row * 8 + col < n && v.squares@[row * 8 + col] == Some(piece)),
        forall|i: int|
            0 <= i < n && #[trigger] v.squares@[i] is Some ==> exists|k: int|
                0 <= k < piece_layer(v, n).len() && piece_layer(v, n)[k] == (Sprite::Picture {
                    col: (i % 8) as u8,
                    row: (i / 8) as u8,
                    piece: v.squares@[i].unwrap(),
                }),
        forall|k1: int, k2: int|
            0 <= k1 < k2 < piece_layer(v, n).len() ==> picture_square(
                #[trigger] piece_layer(v, n)[k1],
            ) < picture_square(#[trigger] piece_layer(v, n)[k2]),
    decreases n,
{
    if n > 0 {
        lemma_piece_pictures(v, n - 1);
        let prev = piece_layer(v, n - 1);
        let cur = piece_layer(v, n);
        let i = n - 1;
        assert(i / 8 < 8 && i % 8 < 8);
        assert(((i / 8) as u8) * 8 + ((i % 8) as u8) == i);
        assert forall|k: int| 0 <= k < prev.len() implies #[trigger] cur[k] == prev[k] by {}
        assert forall|k: int|
            0 <= k < cur.len() implies (#[trigger] cur[k] matches Sprite::Picture { col, row, piece }
            && col < 8 && row < 8 && row * 8 + col < n && v.squares@[row * 8 + col] == Some(
            piece,
        )) by {
            if k < prev.len() {
                assert(prev[k] == cur[k]);
            }
        }
        assert forall|j: int|
            0 <= j < n && #[trigger] v.squares@[j] is Some implies exists|k: int|
                0 <= k < cur.len() && cur[k] == (Sprite::Picture {
                    col: (j % 8) as u8,
                    row: (j / 8) as u8,
                    piece: v.squares@[j].unwrap(),
                }) by {
            if j < n - 1 {
                let k = choose|k: int|
                    0 <= k < prev.len() && prev[k] == (Sprite::Picture {
                        col: (j % 8) as u8,
                        row: (j / 8) as u8,
                        piece: v.squares@[j].unwrap(),
                    });
                assert(cur[k] == prev[k]);
            } else {
                assert(cur[prev.len() as int] == (Sprite::Picture {
                    col: (j % 8) as u8,
                    row: (j / 8) as u8,
                    piece: v.squares@[j].unwrap(),
                }));
            }
        }
        assert forall|k1: int, k2: int|
            0 <= k1 < k2 < cur.len() implies picture_square(#[trigger] cur[k1]) < picture_square(
            #[trigger] cur[k2],
        ) by {
            assert(cur[k1] == prev[k1]);
            if k2 < prev.len() {
                assert(cur[k2] == prev[k2]);
            } else {
                assert(picture_square(cur[k2]) == i);
                assert(picture_square(prev[k1]) < n - 1);
            }
        }
    }
}

/// The first `n` promotion choices for a pawn waiting on `p`: a white pawn
/// (not on rank 0) gets white pieces on the ranks below it, a black pawn on
/// rank 0 black pieces on the ranks above it.
pub open spec fn promotion_slots(p: Position, n: int) -> Seq<Sprite>
    decreases n,
{
    if n <= 0 {
        Seq::empty()
    } else {
        let k: int = n - 1;
        let y: int = if p.y != 0 {
            p.y - (k + 1)
        } else {
            p.y + (k + 1)
        };
        let color = if p.y != 0 {
            Color::White
        } else {
            Color::Black
        };
        promotion_slots(p, n - 1) + seq![
            Sprite::Fill { cell: (y * 8 + p.x) as usize, paint: Paint::Shadow, dimmed: false },
            Sprite::Picture {
                col: p.x,
                row: (7 - y) as u8,
                piece: Piece { color, piece_type: promotion_kind(k) },
            },
        ]
    }
}

/// The promotion choices, while a pawn waits for promotion.
pub open spec fn promotion_layer(v: GameView) -> Seq<Sprite> {
    match v.status {
        GameStatus::AwaitingPromotion(p) => promotion_slots(p, 4),
        _ => Seq::empty(),
    }
}

} // verus!
