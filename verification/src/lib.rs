//! A two-player odd/even guessing game: validated moves, a round state
//! machine that pairs one Even play with one Odd play, a text codec for
//! incoming payloads, and the per-datagram decision step of the server.
pub mod text;

pub mod game;

pub mod codec;

pub mod server;
