use chess_gui::protocol::{
    client_greeting, server_greeting, start_client, start_server, Connection, ConnectionState,
    Start,
};

fn greeting(name: Option<&str>) -> Start {
    Start { is_white: true, name: name.map(|n| n.to_string()), fen: None, time: None, inc: None }
}

#[test]
fn next_walks_through_the_protocol() {
    let cases = [
        (ConnectionState::ClientStart, ConnectionState::ClientMove),
        (ConnectionState::ServerStart, ConnectionState::ServerMove),
        (ConnectionState::ClientMove, ConnectionState::ClientAck),
        (ConnectionState::ServerMove, ConnectionState::ServerAck),
        (ConnectionState::ClientAck, ConnectionState::ClientMove),
        (ConnectionState::ServerAck, ConnectionState::ServerMove),
    ];
    for (before, after) in cases {
        let mut c = Connection { player_turn: false, expected: before };
        c.next();
        assert_eq!(c.expected, after);
        assert!(!c.player_turn);
    }
}

#[test]
fn new_connection_awaits_client_start() {
    let c = Connection::new();
    assert!(c.player_turn);
    assert_eq!(c.expected, ConnectionState::ClientStart);
}

#[test]
fn move_and_ack_alternate() {
    let mut c = Connection { player_turn: true, expected: ConnectionState::ClientMove };
    c.next();
    c.next();
    assert_eq!(c.expected, ConnectionState::ClientMove);
}

#[test]
fn greetings_carry_fixed_names() {
    let s = server_greeting();
    assert!(!s.is_white);
    assert_eq!(s.name.as_deref(), Some("Bjork"));
    assert!(s.fen.is_none() && s.time.is_none() && s.inc.is_none());
    let c = client_greeting();
    assert!(c.is_white);
    assert_eq!(c.name.as_deref(), Some("David"));
}

#[test]
fn server_keeps_peer_name() {
    let mut n1 = String::new();
    let mut n2 = String::new();
    let link = start_server(&mut n1, &mut n2, &greeting(Some("Alice")));
    assert_eq!(n1, "Bjork");
    assert_eq!(n2, "Alice");
    assert!(link.player_turn);
    assert_eq!(link.expected, ConnectionState::ClientMove);
}

#[test]
fn server_defaults_missing_peer_name() {
    let mut n1 = String::from("x");
    let mut n2 = String::from("y");
    start_server(&mut n1, &mut n2, &greeting(None));
    assert_eq!(n2, "White");
}

#[test]
fn client_keeps_peer_name() {
    let mut n1 = String::new();
    let mut n2 = String::new();
    let link = start_client(&mut n1, &mut n2, &greeting(Some("Bob")));
    assert_eq!(n1, "Bob");
    assert_eq!(n2, "David");
    assert!(!link.player_turn);
    assert_eq!(link.expected, ConnectionState::ServerMove);
}

#[test]
fn client_defaults_missing_peer_name() {
    let mut n1 = String::new();
    let mut n2 = String::new();
    start_client(&mut n1, &mut n2, &greeting(None));
    assert_eq!(n1, "Black");
}

#[test]
fn handshake_sides_agree_on_names() {
    let (mut a1, mut a2, mut b1, mut b2) = (String::new(), String::new(), String::new(), String::new());
    let host = start_server(&mut a1, &mut a2, &client_greeting());
    let joiner = start_client(&mut b1, &mut b2, &server_greeting());
    assert_eq!(a1, b1);
    assert_eq!(a2, b2);
    assert_ne!(host.player_turn, joiner.player_turn);
}
