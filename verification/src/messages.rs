//! The requests a client may send and the messages the server answers with.

use crate::deck::Card;
use crate::game::{Client, ClientView};
use crate::history::{HistoryItem, HistoryItemView};
use std::collections::VecDeque;
use vstd::prelude::*;

verus! {

/// The colour a player bets the next card will have.
#[derive(Clone, Copy, Debug, PartialEq, Eq, Structural)]
pub enum CardColour {
    Red,
    Black,
}

/// A decoded request from a client.
#[derive(Clone, Debug, PartialEq)]
pub enum ReceivableMessage {
    /// Join the game under `username`.
    Login { username: String },
    /// Bet that the next card has the colour `card_colour`.
    Guess { card_colour: CardColour },
}

/// A message from the server to its clients.
#[allow(inconsistent_fields)]
#[derive(Clone, Debug, PartialEq)]
pub enum SendableMessage {
    /// The login was accepted.
    LoggedIn,
    /// The clients that are logged in.
    Players { players: Vec<Client> },
    /// It is the turn of `username`.
    Turn { username: String },
    /// The request was refused.
    Error { error: String },
    /// How the guess of `username` turned out.
    GuessResult { correct: bool, card: Card, penalty: u16, username: String, guess: CardColour },
    /// What the next wrong guess will cost.
    Penalty { penalty: u16 },
    /// A player's departure passed the turn on.
    PlayerHasLeft { username: String },
    /// The window of recently drawn cards, newest first.
    RequestHistory { history: VecDeque<Option<Card>> },
    /// The most recent completed turns, oldest first.
    GameHistory { history: Vec<HistoryItem> },
    /// Number of cards left in the deck.
    CardsLeft { cards_left: usize },
}

/// What a [`SendableMessage`] says, with text as sequences of characters,
/// lists as sequences and numbers as mathematical integers.
#[allow(inconsistent_fields)]
pub enum SendableMessageView {
    LoggedIn,
    Players { players: Seq<ClientView> },
    Turn { username: Seq<char> },
    Error { error: Seq<char> },
    GuessResult {
        correct: bool,
        card: Card,
        penalty: int,
        username: Seq<char>,
        guess: CardColour,
    },
    Penalty { penalty: int },
    PlayerHasLeft { username: Seq<char> },
    RequestHistory { history: Seq<Option<Card>> },
    GameHistory { history: Seq<HistoryItemView> },
    CardsLeft { cards_left: int },
}

impl View for SendableMessage {
    type V = SendableMessageView;

    open spec fn view(&self) -> SendableMessageView {
        match *self {
            SendableMessage::LoggedIn => SendableMessageView::LoggedIn,
            SendableMessage::Players { players } => SendableMessageView::Players {
                players: players.deep_view(),
            },
            SendableMessage::Turn { username } => SendableMessageView::Turn { username: username@ },
            SendableMessage::Error { error } => SendableMessageView::Error { error: error@ },
            SendableMessage::GuessResult {
                correct,
                card,
                penalty,
                username,
                guess,
            } => SendableMessageView::GuessResult {
                correct,
                card,
                penalty: penalty as int,
                username: username@,
                guess,
            },
            SendableMessage::Penalty { penalty } => SendableMessageView::Penalty {
                penalty: penalty as int,
            },
            SendableMessage::PlayerHasLeft { username } => SendableMessageView::PlayerHasLeft {
                username: username@,
            },
            SendableMessage::RequestHistory { history } => SendableMessageView::RequestHistory {
                history: history@,
            },
            SendableMessage::GameHistory { history } => SendableMessageView::GameHistory {
                history: history.deep_view(),
            },
            SendableMessage::CardsLeft { cards_left } => SendableMessageView::CardsLeft {
                cards_left: cards_left as int,
            },
        }
    }
}

impl DeepView for SendableMessage {
    type V = SendableMessageView;

    open spec fn deep_view(&self) -> SendableMessageView {
        self@
    }
}

} // verus!
