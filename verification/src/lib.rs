//! Engine of a multiplayer "red or black" card-guessing game.
//!
//! Players take turns guessing the colour of the next card drawn from a
//! shuffled deck. The crate holds the deck, the two bounded history logs, the
//! turn-rotation rules with their escalating penalty, and the session layer
//! that turns decoded client requests into the messages to send back.

pub mod deck;
pub mod game;
pub mod history;
pub mod messages;
pub mod rules;
