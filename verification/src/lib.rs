//! Board, protocol and presentation logic of a two-player chess client.
//!
//! The chess rules themselves live in an engine outside this crate; the
//! library works on plain snapshots of the engine ([`model::GameView`]) and
//! tells its caller, step by step, which engine call or network message comes
//! next.

pub mod model;
pub mod protocol;
pub mod draw;
pub mod game;
