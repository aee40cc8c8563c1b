//! The session layer: which connection plays under which name, who may act,
//! and which messages each request is answered with.

use crate::deck::{is_shuffled_deck, Card};
use crate::history::HistoryItem;
use crate::messages::{CardColour, ReceivableMessage, SendableMessage, SendableMessageView};
use crate::rules::{guess_is_correct, penalty_awarded, GameState, RedOrBlack};
use std::collections::HashMap;
use std::collections::VecDeque;
use vstd::prelude::*;
use vstd::std_specs::iter::IteratorSpec;

verus! {

/// The longest username a login may ask for, in characters.
pub const MAX_USERNAME_LENGTH: usize = 32;

/// The error a request that cannot be understood is answered with.
pub open spec fn unrecognised_text() -> Seq<char> {
    "Unrecognised message"@
}

/// The error a second login on one connection is answered with.
pub open spec fn already_logged_in_text() -> Seq<char> {
    "Already logged in"@
}

/// The error a login under too long a name is answered with.
pub open spec fn username_too_long_text() -> Seq<char> {
    "Username too long"@
}

/// A player as the session layer knows it: the name it plays under and the
/// connection it plays on.
#[derive(Debug, Clone, PartialEq)]
pub struct Client {
    pub username: String,
    pub token: usize,
}

/// What a [`Client`] says, with the name as a sequence of characters.
pub struct ClientView {
    pub username: Seq<char>,
    pub token: usize,
}

impl View for Client {
    type V = ClientView;

    open spec fn view(&self) -> ClientView {
        ClientView { username: self.username@, token: self.token }
    }
}

impl DeepView for Client {
    type V = ClientView;

    open spec fn deep_view(&self) -> ClientView {
        self@
    }
}

/// Who a message is for.
#[derive(Clone, Copy, Debug, PartialEq, Eq, Structural)]
pub enum Recipient {
    /// The connection the request came from.
    Sender,
    /// Every open connection.
    Everyone,
}

/// A message together with who it is for.
#[derive(Clone, Debug, PartialEq)]
pub struct Outgoing {
    pub to: Recipient,
    pub message: SendableMessage,
}

/// What an [`Outgoing`] says.
pub struct OutgoingView {
    pub to: Recipient,
    pub message: SendableMessageView,
}

impl View for Outgoing {
    type V = OutgoingView;

    open spec fn view(&self) -> OutgoingView {
        OutgoingView { to: self.to, message: self.message@ }
    }
}

impl DeepView for Outgoing {
    type V = OutgoingView;

    open spec fn deep_view(&self) -> OutgoingView {
        self@
    }
}

/// `message`, addressed to the connection the request came from.
pub open spec fn to_sender(message: SendableMessageView) -> OutgoingView {
    OutgoingView { to: Recipient::Sender, message }
}

/// `message`, addressed to every open connection.
pub open spec fn to_everyone(message: SendableMessageView) -> OutgoingView {
    OutgoingView { to: Recipient::Everyone, message }
}

/// The state of a session as plain mathematical values.
pub struct ServerState {
    /// The logged-in clients by the token of their connection.
    pub clients: Map<usize, ClientView>,
    /// The game they play.
    pub game: GameState,
}

impl ServerState {
    /// What holds of every state a session can reach.
    pub open spec fn wf(self) -> bool {
        &&& self.clients.dom().finite()
        &&& forall|token: usize|
            self.clients.contains_key(token) ==> (#[trigger] self.clients[token]).token == token
        &&& self.game.wf()
    }

    /// Whether `players` lists the logged-in clients, each of them once, in
    /// some order.
    pub open spec fn lists(self, players: Seq<ClientView>) -> bool {
        &&& players.len() == self.clients.dom().len()
        &&& forall|i: int|
            0 <= i < players.len() ==> self.clients.contains_key((#[trigger] players[i]).token)
                && self.clients[players[i].token] == players[i]
        &&& forall|i: int, j: int|
            0 <= i < j < players.len() ==> (#[trigger] players[i]).token != (
            #[trigger] players[j]).token
        &&& forall|token: usize| #[trigger]
            self.clients.contains_key(token) ==> players.contains(self.clients[token])
    }

    /// Why a login of `username` on connection `token` is refused, if it is:
    /// the connection is logged in already, or the name is too long.
    pub open spec fn login_refusal(self, token: usize, username: Seq<char>) -> Option<Seq<char>> {
        if self.clients.contains_key(token) {
            Some(already_logged_in_text())
        } else if username.len() > MAX_USERNAME_LENGTH {
            Some(username_too_long_text())
        } else {
            None
        }
    }

    /// The state after connection `token` has logged in as `username`.
    pub open spec fn after_login(self, token: usize, username: Seq<char>) -> ServerState {
        ServerState {
            clients: self.clients.insert(token, ClientView { username, token }),
            game: self.game.with_player(username).clamped(),
        }
    }

    /// What a successful login is answered with, in a state where `players`
    /// lists the clients: the list for everyone, then for the newcomer the
    /// acknowledgement, the penalty, the recent cards, the recent turns, the
    /// number of cards left and whose turn it is.
    pub open spec fn login_reply(self, players: Seq<ClientView>) -> Seq<OutgoingView> {
        seq![
            to_everyone(SendableMessageView::Players { players }),
            to_sender(SendableMessageView::LoggedIn),
            to_sender(SendableMessageView::Penalty { penalty: self.game.penalty }),
            to_sender(SendableMessageView::RequestHistory { history: self.game.card_history }),
            to_sender(SendableMessageView::GameHistory { history: self.game.game_history }),
            to_sender(SendableMessageView::CardsLeft { cards_left: self.game.deck.len() as int }),
            to_sender(SendableMessageView::Turn { username: self.game.current_name() }),
        ]
    }

    /// Whether connection `token` belongs to a player of the same name as the
    /// one whose turn it is.
    pub open spec fn is_turn_of(self, token: usize) -> bool {
        &&& self.clients.contains_key(token)
        &&& self.game.current_player() == Some(self.clients[token].username)
    }

    /// What an accepted guess is answered with, for everyone: the outcome, the
    /// number of cards left and whose turn it is next.
    pub open spec fn guess_reply(self, guess: CardColour, card: Card, deck_after: Seq<Card>) -> Seq<
        OutgoingView,
    > {
        seq![
            to_everyone(
                SendableMessageView::GuessResult {
                    correct: guess_is_correct(guess, card),
                    card,
                    penalty: penalty_awarded(self.game.penalty, guess_is_correct(guess, card)),
                    username: self.game.current_name(),
                    guess,
                },
            ),
            to_everyone(SendableMessageView::CardsLeft { cards_left: deck_after.len() as int }),
            to_everyone(
                SendableMessageView::Turn {
                    username: self.game.resolved(guess, card, deck_after).current_name(),
                },
            ),
        ]
    }

    /// Whether a login of `username` on connection `token` in this state may
    /// lead to the state `after` and the answer `out`.
    pub open spec fn answers_login(
        self,
        token: usize,
        username: Seq<char>,
        after: ServerState,
        out: Seq<OutgoingView>,
    ) -> bool {
        match self.login_refusal(token, username) {
            Some(reason) => {
                &&& after == self
                &&& out == seq![to_sender(SendableMessageView::Error { error: reason })]
            },
            None => {
                &&& after == self.after_login(token, username)
                &&& out.len() == 7
                &&& out[0].message matches SendableMessageView::Players { players }
                &&& after.lists(players)
                &&& out == after.login_reply(players)
            },
        }
    }

    /// Whether a guess of `guess` from connection `token` in this state may
    /// lead to the state `after` and the answer `out`.
    pub open spec fn answers_guess(
        self,
        token: usize,
        guess: CardColour,
        after: ServerState,
        out: Seq<OutgoingView>,
    ) -> bool {
        &&& after.clients == self.clients
        &&& if self.is_turn_of(token) {
            &&& out.len() == 3
            &&& out[0].message matches SendableMessageView::GuessResult { card, .. }
            &&& self.game.draws(card, after.game.deck)
            &&& after.game == self.game.resolved(guess, card, after.game.deck)
            &&& out == self.guess_reply(guess, card, after.game.deck)
        } else {
            &&& after.game == self.game.clamped()
            &&& out == Seq::<OutgoingView>::empty()
        }
    }

    /// The state after connection `token` has closed. If it was logged in its
    /// player leaves the game, which continues with the deck `fresh` should
    /// that empty the roster.
    pub open spec fn after_disconnect(self, token: usize, fresh: Seq<Card>) -> ServerState {
        ServerState {
            clients: self.clients.remove(token),
            game: if self.clients.contains_key(token) {
                let name = self.clients[token].username;
                let left = self.game.without_player(name, fresh);
                if self.game.current_player() == Some(name) {
                    left.clamped()
                } else {
                    left
                }
            } else {
                self.game
            },
        }
    }

    /// What the players are told when the departure of connection `token`
    /// ended its player's own turn and somebody is left to play: who has left
    /// and whose turn it is now. `after` is the state after the departure.
    pub open spec fn departure_notice(self, token: usize, after: ServerState) -> Seq<OutgoingView> {
        if self.is_turn_of(token) && after.game.current_player().is_some() {
            seq![
                to_everyone(
                    SendableMessageView::PlayerHasLeft { username: self.clients[token].username },
                ),
                to_everyone(SendableMessageView::Turn { username: after.game.current_name() }),
            ]
        } else {
            Seq::empty()
        }
    }

    /// Whether the closing of connection `token` in this state may lead to the
    /// state `after` and the answer `out`: the notice of the departure, if one
    /// is due, and then for everyone the list of the clients that remain.
    pub open spec fn answers_close(
        self,
        token: usize,
        after: ServerState,
        out: Seq<OutgoingView>,
    ) -> bool {
        &&& after == self.after_disconnect(token, after.game.deck)
        &&& self.clients.contains_key(token) && self.game.without_entry(
            self.clients[token].username,
        ).roster.len() == 0 ==> is_shuffled_deck(after.game.deck)
        &&& out.len() > 0
        &&& out.last().message matches SendableMessageView::Players { players }
        &&& after.lists(players)
        &&& out == self.departure_notice(token, after).push(
            to_everyone(SendableMessageView::Players { players }),
        )
    }
}

/// The clients logged in on a server and the game they play.
pub struct Server {
    clients: HashMap<usize, Client>,
    game: RedOrBlack,
}

impl View for Server {
    type V = ServerState;

    closed spec fn view(&self) -> ServerState {
        ServerState { clients: self.clients@.map_values(|c: Client| c@), game: self.game@ }
    }
}

/// A copy of `client`.
fn copy_client(client: &Client) -> (copy: Client)
    ensures
        copy@ == client@,
{
    Client { username: client.username.clone(), token: client.token }
}

/// A copy of the turn log entry `item`.
fn copy_turn(item: &HistoryItem) -> (copy: HistoryItem)
    ensures
        copy@ == item@,
{
    HistoryItem {
        username: item.username.clone(),
        guess: item.guess,
        outcome: item.outcome,
        card: item.card,
        penalty: item.penalty,
        turn_number: item.turn_number,
    }
}

/// A copy of the turn log entries `entries`, in the same order.
fn copy_turns(entries: &Vec<HistoryItem>) -> (copy: Vec<HistoryItem>)
    ensures
        copy.deep_view() == entries.deep_view(),
{
    let mut copy: Vec<HistoryItem> = Vec::new();
    let mut i: usize = 0;
    while i < entries.len()
        invariant
            i <= entries.len(),
            copy.len() == i,
            forall|j: int| 0 <= j < i ==> (#[trigger] copy[j])@ == entries[j]@,
        decreases entries.len() - i,
    {
        copy.push(copy_turn(&entries[i]));
        i += 1;
    }
    copy
}

/// A copy of the card window `slots`, in the same order.
fn copy_slots(slots: &VecDeque<Option<Card>>) -> (copy: VecDeque<Option<Card>>)
    ensures
        copy@ == slots@,
{
    let mut copy: VecDeque<Option<Card>> = VecDeque::new();
    let mut i: usize = 0;
    while i < slots.len()
        invariant
            i <= slots.len(),
            copy@ == slots@.take(i as int),
        decreases slots.len() - i,
    {
        copy.push_back(slots[i]);
        i += 1;
    }
    copy
}

impl Server {
    /// The history logs of the game have the sizes the game gives them.
    pub closed spec fn sized(&self) -> bool {
        self.game.sized()
    }

    /// The session is in a state that requests can reach.
    pub open spec fn wf(&self) -> bool {
        &&& self.sized()
        &&& self@.wf()
    }

    /// A server nobody is logged in on, with a new game nobody plays yet.
    pub fn new() -> (server: Self)
        ensures
            server@.clients == Map::<usize, ClientView>::empty(),
            server@.game == GameState::initial(Seq::empty(), server@.game.deck),
            is_shuffled_deck(server@.game.deck),
            server.wf(),
    {
        let usernames: Vec<String> = Vec::new();
        assert(usernames.deep_view() =~= Seq::<Seq<char>>::empty());
        Self::with_game(RedOrBlack::new(usernames))
    }

    /// A server nobody is logged in on, with `game` as the game to play.
    pub fn with_game(game: RedOrBlack) -> (server: Self)
        ensures
            server@ == (ServerState { clients: Map::empty(), game: game@ }),
            game.wf() ==> server.wf(),
    {
        broadcast use vstd::std_specs::hash::group_hash_axioms;

        let server = Server { clients: HashMap::new(), game };
        assert(server@.clients =~= Map::<usize, ClientView>::empty());
        server
    }

    /// The game being played.
    pub fn game(&self) -> (game: &RedOrBlack)
        ensures
            game@ == self@.game,
            self.wf() ==> game.wf(),
    {
        &self.game
    }

    /// Whether the counters of the game leave room for one more turn.
    pub fn can_play_turn(&self) -> (room: bool)
        ensures
            room == self@.game.has_room(),
    {
        self.game.can_play_turn()
    }

    /// The answer to a request that cannot be understood.
    pub fn unrecognised_msg() -> (message: SendableMessage)
        ensures
            message@ == (SendableMessageView::Error { error: unrecognised_text() }),
    {
        SendableMessage::Error { error: "Unrecognised message".to_owned() }
    }

    /// The list of logged-in clients, for everyone. The order in which it
    /// names them is left open.
    pub fn broadcast_players(&self) -> (outgoing: Outgoing)
        requires
            self.wf(),
        ensures
            outgoing@.to == Recipient::Everyone,
            outgoing@.message matches SendableMessageView::Players { players } && self@.lists(
                players,
            ),
    {
        broadcast use vstd::std_specs::hash::group_hash_axioms;

        let mut players: Vec<Client> = Vec::new();
        for entry in it: self.clients.iter()
            invariant
                players.len() == it.index(),
                forall|j: int|
                    0 <= j < players.len() ==> (#[trigger] players[j])@ == (*it.seq()[j].1)@,
                it.seq() == vstd::std_specs::hash::spec_hash_map_iter(&self.clients).remaining(),
                it.seq().no_duplicates(),
        {
            let (_token, client) = entry;
            players.push(copy_client(client));
        }
        proof {
            let pairs = vstd::std_specs::hash::spec_hash_map_iter(&self.clients).remaining();
            let listed = players.deep_view();
            assert(self@.clients.dom() =~= self.clients@.dom());
            assert forall|i: int| 0 <= i < listed.len() implies self@.clients.contains_key(
                (#[trigger] listed[i]).token,
            ) && self@.clients[listed[i].token] == listed[i] by {
                let token = *pairs[i].0;
                assert(self@.clients[token] == listed[i]);
            }
            assert forall|i: int, j: int| 0 <= i < j < listed.len() implies (
            #[trigger] listed[i]).token != (#[trigger] listed[j]).token by {
                let first = *pairs[i].0;
                let second = *pairs[j].0;
                assert(self@.clients[first] == listed[i]);
                assert(self@.clients[second] == listed[j]);
            }
            assert forall|token: usize| #[trigger]
                self@.clients.contains_key(token) implies listed.contains(
                self@.clients[token],
            ) by {
                let pair = (&token, &self.clients@[token]);
                let i = choose|i: int| 0 <= i < pairs.len() && pairs[i] == pair;
                assert(listed[i] == self@.clients[token]);
            }
        }
        Outgoing { to: Recipient::Everyone, message: SendableMessage::Players { players } }
    }

    /// The window of recently drawn cards, for the sender.
    pub fn send_card_history(&self) -> (outgoing: Outgoing)
        ensures
            outgoing@ == to_sender(
                SendableMessageView::RequestHistory { history: self@.game.card_history },
            ),
    {
        let history = copy_slots(self.game.get_card_history());
        Outgoing { to: Recipient::Sender, message: SendableMessage::RequestHistory { history } }
    }

    /// The most recent completed turns, for the sender.
    pub fn send_game_history(&self) -> (outgoing: Outgoing)
        ensures
            outgoing@ == to_sender(
                SendableMessageView::GameHistory { history: self@.game.game_history },
            ),
    {
        let history = copy_turns(self.game.get_game_history());
        Outgoing { to: Recipient::Sender, message: SendableMessage::GameHistory { history } }
    }

    /// Handles a login of `username` on connection `token`. A connection that
    /// is logged in already and a name that is too long are refused with an
    /// error for the sender, and nothing changes. Otherwise the client is
    /// registered and joins the game, everyone is sent the list of clients,
    /// and the newcomer is sent the state of the game.
    pub fn add_client(&mut self, token: usize, username: String) -> (out: Vec<Outgoing>)
        requires
            old(self).wf(),
        ensures
            final(self).wf(),
            old(self)@.answers_login(token, username@, final(self)@, out.deep_view()),
    {
        broadcast use vstd::std_specs::hash::group_hash_axioms;

        let mut out: Vec<Outgoing> = Vec::new();
        if self.clients.contains_key(&token) {
            out.push(
                Outgoing {
                    to: Recipient::Sender,
                    message: SendableMessage::Error { error: "Already logged in".to_owned() },
                },
            );
            assert(out.deep_view() =~= seq![
                to_sender(SendableMessageView::Error { error: already_logged_in_text() }),
            ]);
            return out;
        }
        if username.as_str().unicode_len() > MAX_USERNAME_LENGTH {
            out.push(
                Outgoing {
                    to: Recipient::Sender,
                    message: SendableMessage::Error { error: "Username too long".to_owned() },
                },
            );
            assert(out.deep_view() =~= seq![
                to_sender(SendableMessageView::Error { error: username_too_long_text() }),
            ]);
            return out;
        }
        self.clients.insert(token, Client { username: username.clone(), token });
        assert(self@.clients =~= old(self)@.clients.insert(
            token,
            ClientView { username: username@, token },
        ));
        self.game.add_player(username);
        let current_player: String = self.game.get_current_player().unwrap().clone();
        let penalty: u16 = self.game.get_penalty();
        let cards_left: usize = self.game.cards_left();
        out.push(self.broadcast_players());
        out.push(Outgoing { to: Recipient::Sender, message: SendableMessage::LoggedIn });
        out.push(Outgoing { to: Recipient::Sender, message: SendableMessage::Penalty { penalty } });
        out.push(self.send_card_history());
        out.push(self.send_game_history());
        out.push(
            Outgoing { to: Recipient::Sender, message: SendableMessage::CardsLeft { cards_left } },
        );
        out.push(
            Outgoing {
                to: Recipient::Sender,
                message: SendableMessage::Turn { username: current_player },
            },
        );
        proof {
            let players = out.deep_view()[0].message->players;
            assert(out.deep_view() =~= self@.login_reply(players));
        }
        out
    }

    /// Whether connection `token` belongs to a player of the same name as the
    /// one whose turn it is. Reading the current player brings a cursor that
    /// points past the roster back to its first entry.
    pub fn check_is_players_go(&mut self, token: usize) -> (go: bool)
        requires
            old(self).wf(),
        ensures
            final(self).wf(),
            go == old(self)@.is_turn_of(token),
            final(self)@ == (ServerState { game: old(self)@.game.clamped(), ..old(self)@ }),
    {
        broadcast use vstd::std_specs::hash::group_hash_axioms;

        let current: Option<&String> = self.game.get_current_player();
        let client: Option<&Client> = self.clients.get(&token);
        match (client, current) {
            (Some(client), Some(username)) => client.username == *username,
            _ => false,
        }
    }

    /// Handles a guess of `card_colour` from connection `token`. A guess from
    /// anyone but the current player is dropped without an answer. Otherwise
    /// the guess is resolved and everyone is sent its outcome, the number of
    /// cards left and whose turn it is next.
    pub fn recieved_guess(&mut self, token: usize, card_colour: &CardColour) -> (out: Vec<Outgoing>)
        requires
            old(self).wf(),
            old(self)@.is_turn_of(token) ==> old(self)@.game.has_room(),
        ensures
            final(self).wf(),
            old(self)@.answers_guess(token, *card_colour, final(self)@, out.deep_view()),
    {
        let mut out: Vec<Outgoing> = Vec::new();
        if !self.check_is_players_go(token) {
            assert(out.deep_view() =~= Seq::<OutgoingView>::empty());
            return out;
        }
        let current_player: String = self.game.get_current_player().unwrap().clone();
        let (correct, penalty, next_player, card, cards_left) = self.game.play_turn(card_colour);
        let next: String = next_player.unwrap().clone();
        out.push(
            Outgoing {
                to: Recipient::Everyone,
                message: SendableMessage::GuessResult {
                    correct,
                    card,
                    penalty,
                    username: current_player,
                    guess: *card_colour,
                },
            },
        );
        out.push(
            Outgoing {
                to: Recipient::Everyone,
                message: SendableMessage::CardsLeft { cards_left },
            },
        );
        out.push(
            Outgoing { to: Recipient::Everyone, message: SendableMessage::Turn { username: next } },
        );
        assert(out.deep_view() =~= old(self)@.guess_reply(*card_colour, card, self@.game.deck));
        out
    }

    /// Handles the closing of connection `token`. If it was logged in, its
    /// player leaves the game; when that ended the player's own turn and
    /// somebody is left to play, everyone is told who has left and whose turn
    /// it is. In every case everyone is sent the list of clients that remain.
    pub fn remove_client(&mut self, token: usize) -> (out: Vec<Outgoing>)
        requires
            old(self).wf(),
        ensures
            final(self).wf(),
            old(self)@.answers_close(token, final(self)@, out.deep_view()),
    {
        broadcast use vstd::std_specs::hash::group_hash_axioms;

        let mut out: Vec<Outgoing> = Vec::new();
        let departing: Option<String> = match self.clients.get(&token) {
            Some(client) => Some(client.username.clone()),
            None => None,
        };
        if let Some(name) = departing {
            if self.game.remove_player(name.as_str()) {
                if let Some(player) = self.game.get_current_player() {
                    let next: String = player.clone();
                    out.push(
                        Outgoing {
                            to: Recipient::Everyone,
                            message: SendableMessage::PlayerHasLeft { username: name },
                        },
                    );
                    out.push(
                        Outgoing {
                            to: Recipient::Everyone,
                            message: SendableMessage::Turn { username: next },
                        },
                    );
                }
            }
        }
        self.clients.remove(&token);
        assert(self@.clients =~= old(self)@.clients.remove(token));
        let ghost notice = out.deep_view();
        assert(notice =~= old(self)@.departure_notice(token, self@));
        out.push(self.broadcast_players());
        assert(out.deep_view() =~= notice.push(out.deep_view().last()));
        out
    }

    /// Handles a decoded request from connection `token`.
    pub fn handle_message(&mut self, token: usize, msg: &ReceivableMessage) -> (out: Vec<Outgoing>)
        requires
            old(self).wf(),
            msg is Guess && old(self)@.is_turn_of(token) ==> old(self)@.game.has_room(),
        ensures
            final(self).wf(),
            match *msg {
                ReceivableMessage::Login { username } => old(self)@.answers_login(
                    token,
                    username@,
                    final(self)@,
                    out.deep_view(),
                ),
                ReceivableMessage::Guess { card_colour } => old(self)@.answers_guess(
                    token,
                    card_colour,
                    final(self)@,
                    out.deep_view(),
                ),
            },
    {
        match msg {
            ReceivableMessage::Login { username } => self.add_client(token, username.clone()),
            ReceivableMessage::Guess { card_colour } => self.recieved_guess(token, card_colour),
        }
    }

    /// Handles what arrived on connection `token`: a decoded request, or
    /// `None` for a payload that could not be decoded, which is answered with
    /// an error for the sender and changes nothing.
    pub fn on_message(&mut self, token: usize, request: Option<ReceivableMessage>) -> (out: Vec<
        Outgoing,
    >)
        requires
            old(self).wf(),
            request matches Some(msg) && msg is Guess && old(self)@.is_turn_of(token) ==> old(
                self,
            )@.game.has_room(),
        ensures
            final(self).wf(),
            match request {
                Some(ReceivableMessage::Login { username }) => old(self)@.answers_login(
                    token,
                    username@,
                    final(self)@,
                    out.deep_view(),
                ),
                Some(ReceivableMessage::Guess { card_colour }) => old(self)@.answers_guess(
                    token,
                    card_colour,
                    final(self)@,
                    out.deep_view(),
                ),
                None => {
                    &&& final(self)@ == old(self)@
                    &&& out.deep_view() == seq![
                        to_sender(SendableMessageView::Error { error: unrecognised_text() }),
                    ]
                },
            },
    {
        match request {
            Some(msg) => self.handle_message(token, &msg),
            None => {
                let mut out: Vec<Outgoing> = Vec::new();
                out.push(Outgoing { to: Recipient::Sender, message: Self::unrecognised_msg() });
                assert(out.deep_view() =~= seq![
                    to_sender(SendableMessageView::Error { error: unrecognised_text() }),
                ]);
                out
            },
        }
    }

    /// Handles the closing of connection `token`, as [`Server::remove_client`]
    /// does.
    pub fn on_close(&mut self, token: usize) -> (out: Vec<Outgoing>)
        requires
            old(self).wf(),
        ensures
            final(self).wf(),
            old(self)@.answers_close(token, final(self)@, out.deep_view()),
    {
        self.remove_client(token)
    }
}

} // verus!
