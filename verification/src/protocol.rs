//! The turn protocol between two networked clients.

use vstd::prelude::*;

verus! {

/// The message a connection waits for next.
#[derive(Clone, Copy, Debug, PartialEq, Eq, Structural)]
pub enum ConnectionState {
    ClientStart,
    ServerStart,
    ClientMove,
    ServerMove,
    ClientAck,
    ServerAck,
}

/// The state that follows `s` once the awaited message has been handled.
pub open spec fn following(s: ConnectionState) -> ConnectionState {
    match s {
        ConnectionState::ClientStart => ConnectionState::ClientMove,
        ConnectionState::ServerStart => ConnectionState::ServerMove,
        ConnectionState::ClientMove => ConnectionState::ClientAck,
        ConnectionState::ServerMove => ConnectionState::ServerAck,
        ConnectionState::ClientAck => ConnectionState::ClientMove,
        ConnectionState::ServerAck => ConnectionState::ServerMove,
    }
}

/// The protocol side of a network connection: whether the local player may
/// move and which message is awaited next.
#[derive(Clone, Copy, Debug, PartialEq, Eq, Structural)]
pub struct Connection {
    pub player_turn: bool,
    pub expected: ConnectionState,
}

impl Connection {
    /// A connection that lets the local player move and awaits the
    /// opening message of a client.
    pub fn new() -> (c: Connection)
        ensures
            c.player_turn,
            c.expected == ConnectionState::ClientStart,
    {
        Connection { player_turn: true, expected: ConnectionState::ClientStart }
    }

    /// Advances to the message that follows the awaited one.
    pub fn next(&mut self)
        ensures
            final(self).expected == following(old(self).expected),
            final(self).player_turn == old(self).player_turn,
    {
        self.expected = match self.expected {
            ConnectionState::ClientStart => ConnectionState::ClientMove,
            ConnectionState::ServerStart => ConnectionState::ServerMove,
            ConnectionState::ClientMove => ConnectionState::ClientAck,
            ConnectionState::ServerMove => ConnectionState::ServerAck,
            ConnectionState::ClientAck => ConnectionState::ClientMove,
            ConnectionState::ServerAck => ConnectionState::ServerMove,
        };
    }
}


/// Link state of the hosting side once the opening messages are exchanged.
pub open spec fn server_link() -> Connection {
    Connection { player_turn: true, expected: ConnectionState::ClientMove }
}

/// Link state of the joining side once the opening messages are exchanged.
pub open spec fn client_link() -> Connection {
    Connection { player_turn: false, expected: ConnectionState::ServerMove }
}

/// The opening message of a game: the sender's colour and name.
#[derive(Clone, Debug)]
pub struct Start {
    pub is_white: bool,
    pub name: Option<String>,
    pub fen: Option<String>,
    pub time: Option<u64>,
    pub inc: Option<u64>,
}

/// A move sent to the opponent, squares as `(file, rank)`.
#[derive(Clone, Copy, Debug)]
pub struct NetMove {
    pub from: (u8, u8),
    pub to: (u8, u8),
    pub forfeit: bool,
    pub offer_draw: bool,
}

/// The answer to a received move: whether it was legal.
#[derive(Clone, Copy, Debug, PartialEq, Eq, Structural)]
pub struct Ack {
    pub ok: bool,
}

/// The text of `name`, or `default` where there is none.
pub open spec fn name_or(name: Option<String>, default: Seq<char>) -> Seq<char> {
    match name {
        Some(n) => n@,
        None => default,
    }
}

/// The opening message that the hosting side sends.
pub open spec fn is_server_greeting(g: Start) -> bool {
    &&& !g.is_white
    &&& g.name matches Some(n) && n@ == "Bjork"@
    &&& g.fen is None && g.time is None && g.inc is None
}

/// The opening message that the joining side sends.
pub open spec fn is_client_greeting(g: Start) -> bool {
    &&& g.is_white
    &&& g.name matches Some(n) && n@ == "David"@
    &&& g.fen is None && g.time is None && g.inc is None
}

/// Names `(name_1, name_2)` that the hosting side keeps after reading `peer`.
pub open spec fn server_names(peer: Start) -> (Seq<char>, Seq<char>) {
    ("Bjork"@, name_or(peer.name, "White"@))
}

/// Names `(name_1, name_2)` that the joining side keeps after reading `peer`.
pub open spec fn client_names(peer: Start) -> (Seq<char>, Seq<char>) {
    (name_or(peer.name, "Black"@), "David"@)
}

/// The opening message of the hosting side (black, named "Bjork").
pub fn server_greeting() -> (g: Start)
    ensures
        is_server_greeting(g),
{
    Start { is_white: false, name: Some(String::from_str("Bjork")), fen: None, time: None, inc: None }
}

/// The opening message of the joining side (white, named "David").
pub fn client_greeting() -> (g: Start)
    ensures
        is_client_greeting(g),
{
    Start { is_white: true, name: Some(String::from_str("David")), fen: None, time: None, inc: None }
}

fn name_or_default(name: &Option<String>, default: &str) -> (r: String)
    ensures
        r@ == name_or(*name, default@),
{
    match name {
        Some(n) => n.clone(),
        None => String::from_str(default),
    }
}

/// The hosting side's part of the opening exchange, once the joining side's
/// message `peer` has arrived: stores the peer's name (or "White") as
/// `name_2` and the host's own name as `name_1`, and returns the link that
/// now awaits the joining side's first move.
pub fn start_server(name_1: &mut String, name_2: &mut String, peer: &Start) -> (server: Connection)
    ensures
        server == server_link(),
        (final(name_1)@, final(name_2)@) == server_names(*peer),
{
    let mut server = Connection { player_turn: true, expected: ConnectionState::ClientStart };
    server.next();
    *name_2 = name_or_default(&peer.name, "White");
    let own = server_greeting();
    *name_1 = name_or_default(&own.name, "Black");
    server
}

/// The joining side's part of the opening exchange, once the host's message
/// `peer` has arrived: keeps the joiner's own name as `name_2` and the peer's
/// name (or "Black") as `name_1`, and returns the link that now awaits the
/// host's first move.
pub fn start_client(name_1: &mut String, name_2: &mut String, peer: &Start) -> (client: Connection)
    ensures
        client == client_link(),
        (final(name_1)@, final(name_2)@) == client_names(*peer),
{
    let mut client = Connection { player_turn: false, expected: ConnectionState::ServerStart };
    let own = client_greeting();
    *name_2 = name_or_default(&own.name, "White");
    client.next();
    *name_1 = name_or_default(&peer.name, "Black");
    client
}

/// A link alternates between awaiting a move and awaiting its answer: from
/// any state, the message after the next is the same kind of message again
/// once the opening is done, and no state leads back to an opening message.
pub proof fn lemma_move_ack_cycle(s: ConnectionState)
    ensures
        following(s) != ConnectionState::ClientStart,
        following(s) != ConnectionState::ServerStart,
        s != ConnectionState::ClientStart && s != ConnectionState::ServerStart ==> following(
            following(s),
        ) == s,
        following(following(following(s))) == following(s),
{
}

/// The state awaits a move.
pub open spec fn awaits_a_move(s: ConnectionState) -> bool {
    s == ConnectionState::ClientMove || s == ConnectionState::ServerMove
}

/// The awaited message comes from the joining client (the state belongs to
/// the host's link).
pub open spec fn from_client(s: ConnectionState) -> bool {
    s == ConnectionState::ClientStart || s == ConnectionState::ClientMove || s
        == ConnectionState::ClientAck
}

/// Every handled message changes what is awaited, on the same side of the
/// protocol; after the opening message a move is awaited, and after a move
/// its answer (never another move).
pub proof fn lemma_following_steps(s: ConnectionState)
    ensures
        following(s) != s,
        from_client(following(s)) == from_client(s),
        s == ConnectionState::ClientStart || s == ConnectionState::ServerStart ==> awaits_a_move(
            following(s),
        ),
        awaits_a_move(s) ==> !awaits_a_move(following(s)),
        !awaits_a_move(s) ==> awaits_a_move(following(s)),
{
}

/// The names after the opening exchange: the host keeps its own name
/// "Bjork" first and the peer's name second ("White" when the peer sent
/// none); the joiner keeps the peer's name first ("Black" when none) and its
/// own name "David" second.
pub proof fn lemma_opening_names(peer: Start)
    ensures
        peer.name matches Some(n) ==> server_names(peer) == ("Bjork"@, n@) && client_names(peer)
            == (n@, "David"@),
        peer.name is None ==> server_names(peer) == ("Bjork"@, "White"@) && client_names(peer) == (
            "Black"@,
            "David"@,
        ),
{
}

/// Once the opening messages are exchanged, the host may move and awaits
/// a move of the joining client, and the joining client may not move and
/// awaits a move of the host.
pub proof fn lemma_links_after_opening()
    ensures
        server_link().player_turn,
        !client_link().player_turn,
        awaits_a_move(server_link().expected) && from_client(server_link().expected),
        awaits_a_move(client_link().expected) && !from_client(client_link().expected),
{
}

/// Once each side has read the other's opening message, both hold the same
/// pair of names, exactly one of them may move, and each awaits a move of the
/// other.
pub proof fn lemma_handshake_agrees(host: Start, joiner: Start)
    requires
        is_server_greeting(host),
        is_client_greeting(joiner),
    ensures
        server_names(joiner) == client_names(host),
        server_link().player_turn != client_link().player_turn,
        server_link().expected == ConnectionState::ClientMove,
        client_link().expected == ConnectionState::ServerMove,
{
}

} // verus!
