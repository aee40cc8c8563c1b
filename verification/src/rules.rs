//! The turn-based rules of the game: whose turn it is, what a guess is worth,
//! and what each move does to the state of the game.

use crate::deck::{is_shuffled_deck, lemma_shuffled_deck_distinct, Card, Deck, Suit};
use crate::history::{
    empty_slots, lemma_card_window_shows_newest, push_card, push_cards, push_turn, CardHistory,
    GameHistory, HistoryItem, HistoryItemView,
};
use crate::messages::CardColour;
use std::collections::VecDeque;
use vstd::prelude::*;

verus! {

/// The penalty a game starts with, and returns to after a wrong guess.
pub const BASE_PENALTY: u16 = 5;

/// What each correct guess adds to the penalty.
pub const PENALTY_STEP: u16 = 5;

/// Number of slots in the window of recently drawn cards.
pub const CARD_HISTORY_SIZE: u16 = 3;

/// Number of completed turns the game remembers.
pub const GAME_HISTORY_SIZE: u16 = 40;

/// Whether `card` is a spade or a club.
pub open spec fn is_black(card: Card) -> bool {
    card.suit == Suit::Spade || card.suit == Suit::Club
}

/// Whether `card` is a heart or a diamond.
pub open spec fn is_red(card: Card) -> bool {
    card.suit == Suit::Heart || card.suit == Suit::Diamond
}

/// Whether `guess` names the colour of `card`.
pub open spec fn guess_is_correct(guess: CardColour, card: Card) -> bool {
    match guess {
        CardColour::Black => is_black(card),
        CardColour::Red => is_red(card),
    }
}

/// Every card has exactly one colour, so exactly one of the two guesses is
/// correct for it.
pub proof fn lemma_one_guess_is_correct(card: Card)
    ensures
        guess_is_correct(CardColour::Black, card) <==> is_black(card),
        guess_is_correct(CardColour::Red, card) <==> is_red(card),
        guess_is_correct(CardColour::Black, card) != guess_is_correct(CardColour::Red, card),
{
}

/// The penalty after a turn: a correct guess raises it by one step, a wrong
/// one sends it back to the base value.
pub open spec fn penalty_after(penalty: int, correct: bool) -> int {
    if correct {
        penalty + PENALTY_STEP
    } else {
        BASE_PENALTY as int
    }
}

/// The penalty a turn awards: the raised penalty for a correct guess, and for
/// a wrong one the penalty that had built up before it.
pub open spec fn penalty_awarded(penalty: int, correct: bool) -> int {
    if correct {
        penalty + PENALTY_STEP
    } else {
        penalty
    }
}

/// The state of a game as plain mathematical values.
pub struct GameState {
    /// The names of the players, in the order they joined.
    pub roster: Seq<Seq<char>>,
    /// The position in the roster of the player whose turn it is.
    pub cursor: nat,
    /// What the next wrong guess will cost.
    pub penalty: int,
    /// The cards left to draw, the next one last.
    pub deck: Seq<Card>,
    /// The window of recently drawn cards, newest first.
    pub card_history: Seq<Option<Card>>,
    /// The most recent completed turns, oldest first.
    pub game_history: Seq<HistoryItemView>,
    /// The number the next completed turn will carry.
    pub turn_number: int,
}

/// One resolved turn: the guess made, the card drawn for it, and the deck that
/// was left afterwards.
pub struct Turn {
    pub guess: CardColour,
    pub card: Card,
    pub deck_after: Seq<Card>,
}

impl GameState {
    /// The state of a new game for `roster`, played from `deck`.
    pub open spec fn initial(roster: Seq<Seq<char>>, deck: Seq<Card>) -> GameState {
        GameState {
            roster,
            cursor: 0,
            penalty: BASE_PENALTY as int,
            deck,
            card_history: empty_slots(CARD_HISTORY_SIZE as nat),
            game_history: Seq::empty(),
            turn_number: 1,
        }
    }

    /// What holds of every state a game can reach.
    pub open spec fn wf(self) -> bool {
        &&& self.roster.len() > 0 ==> self.cursor < self.roster.len()
        &&& self.roster.len() == 0 ==> self.cursor == 0
        &&& self.deck.no_duplicates()
        &&& self.deck.len() <= 52
        &&& self.card_history.len() == CARD_HISTORY_SIZE
        &&& 1 <= self.turn_number
        &&& self.game_history.len() == if self.turn_number - 1 < GAME_HISTORY_SIZE {
            self.turn_number - 1
        } else {
            GAME_HISTORY_SIZE as int
        }
        &&& forall|i: int|
            0 <= i < self.game_history.len() ==> (#[trigger] self.game_history[i]).turn_number
                == self.turn_number - self.game_history.len() + i
    }

    /// Whether the counters leave room for one more turn when they are kept
    /// in 16 bits: the penalty can rise by a step and the turn number by one.
    pub open spec fn has_room(self) -> bool {
        &&& self.penalty + PENALTY_STEP <= u16::MAX
        &&& self.turn_number < u16::MAX
    }

    /// The cursor as it is read: one that points past the roster counts as
    /// pointing at its first entry.
    pub open spec fn clamped_cursor(self) -> nat {
        if self.cursor >= self.roster.len() {
            0
        } else {
            self.cursor
        }
    }

    /// The same state with the cursor brought back into the roster.
    pub open spec fn clamped(self) -> GameState {
        GameState { cursor: self.clamped_cursor(), ..self }
    }

    /// The player whose turn it is, if there are any players.
    pub open spec fn current_player(self) -> Option<Seq<char>> {
        if self.clamped_cursor() < self.roster.len() {
            Some(self.roster[self.clamped_cursor() as int])
        } else {
            None
        }
    }

    /// The state after the turn passes to the next player in the roster,
    /// wrapping round at its end.
    pub open spec fn advanced(self) -> GameState {
        GameState {
            cursor: if self.cursor + 1 >= self.roster.len() {
                0
            } else {
                (self.cursor + 1) as nat
            },
            ..self
        }
    }

    /// The state after `name` joins at the end of the roster.
    pub open spec fn with_player(self, name: Seq<char>) -> GameState {
        GameState { roster: self.roster.push(name), ..self }
    }

    /// The state after a full reset that continues with the deck `fresh`. The
    /// roster and the cursor stay as they are.
    pub open spec fn reset(self, fresh: Seq<Card>) -> GameState {
        GameState { roster: self.roster, cursor: self.cursor, ..Self::initial(self.roster, fresh) }
    }

    /// The roster and cursor after `name` leaves, before any reset: if it was
    /// that player's turn the turn passes on first, then the first entry with
    /// that name is taken out. A cursor that points behind that entry moves
    /// down with the entries there, so it keeps pointing at the same player.
    pub open spec fn without_entry(self, name: Seq<char>) -> GameState {
        let read = self.clamped();
        let passed = if read.current_player() == Some(name) {
            read.advanced()
        } else {
            read
        };
        match passed.roster.index_of_first(name) {
            Some(k) => GameState {
                roster: passed.roster.remove(k),
                cursor: if k < passed.cursor {
                    (passed.cursor - 1) as nat
                } else {
                    passed.cursor
                },
                ..passed
            },
            None => passed,
        }
    }

    /// The state after `name` leaves. When that empties the roster the game is
    /// reset and continues with the deck `fresh`.
    pub open spec fn without_player(self, name: Seq<char>, fresh: Seq<Card>) -> GameState {
        let left = self.without_entry(name);
        if left.roster.len() == 0 {
            left.reset(fresh)
        } else {
            left
        }
    }

    /// Whether drawing from this state can yield `card` and leave `deck_after`:
    /// the top card of a deck that has cards, and otherwise the top card of
    /// some freshly shuffled full deck.
    pub open spec fn draws(self, card: Card, deck_after: Seq<Card>) -> bool {
        if self.deck.len() > 0 {
            card == self.deck.last() && deck_after == self.deck.drop_last()
        } else {
            is_shuffled_deck(deck_after.push(card))
        }
    }

    /// The name written into the turn log for the current player: empty when
    /// there is none.
    pub open spec fn current_name(self) -> Seq<char> {
        match self.current_player() {
            Some(name) => name,
            None => Seq::empty(),
        }
    }

    /// The log entry for a turn in which the current player guessed `guess`
    /// and `card` was drawn.
    pub open spec fn turn_entry(self, guess: CardColour, card: Card) -> HistoryItemView {
        HistoryItemView {
            username: self.current_name(),
            guess,
            outcome: guess_is_correct(guess, card),
            card,
            penalty: penalty_awarded(self.penalty, guess_is_correct(guess, card)),
            turn_number: self.turn_number,
        }
    }

    /// The state after the current player's guess `guess` is resolved against
    /// the drawn `card`, with `deck_after` left to draw from.
    pub open spec fn resolved(
        self,
        guess: CardColour,
        card: Card,
        deck_after: Seq<Card>,
    ) -> GameState {
        GameState {
            roster: self.roster,
            cursor: self.clamped().advanced().cursor,
            penalty: penalty_after(self.penalty, guess_is_correct(guess, card)),
            deck: deck_after,
            card_history: push_card(self.card_history, CARD_HISTORY_SIZE as nat, card),
            game_history: push_turn(
                self.game_history,
                GAME_HISTORY_SIZE as nat,
                self.turn_entry(guess, card),
            ),
            turn_number: self.turn_number + 1,
        }
    }

    /// The state after the turns of `turns` are resolved one after the other.
    pub open spec fn played(self, turns: Seq<Turn>) -> GameState
        decreases turns.len(),
    {
        if turns.len() == 0 {
            self
        } else {
            let turn = turns.last();
            self.played(turns.drop_last()).resolved(turn.guess, turn.card, turn.deck_after)
        }
    }

    /// Whether each turn of `turns` draws its card as the deck left by the
    /// turns before it allows.
    pub open spec fn plays(self, turns: Seq<Turn>) -> bool
        decreases turns.len(),
    {
        turns.len() > 0 ==> {
            &&& self.plays(turns.drop_last())
            &&& self.played(turns.drop_last()).draws(turns.last().card, turns.last().deck_after)
        }
    }
}

/// The cards drawn in `turns`, in the order they were drawn.
pub open spec fn cards_drawn(turns: Seq<Turn>) -> Seq<Card> {
    Seq::new(turns.len(), |i: int| turns[i].card)
}

/// After a wrong guess the penalty is back at its base value, and every
/// correct guess in a row since then has added one step to it. `streak` is the
/// number of correct guesses that end `turns`; before them comes a wrong
/// guess, or else the state the turns started from.
pub proof fn lemma_penalty_follows_streak(state: GameState, turns: Seq<Turn>, streak: nat)
    requires
        streak <= turns.len(),
        forall|i: int|
            turns.len() - streak <= i < turns.len() ==> guess_is_correct(
                (#[trigger] turns[i]).guess,
                turns[i].card,
            ),
        streak < turns.len() ==> !guess_is_correct(
            turns[turns.len() - streak - 1].guess,
            turns[turns.len() - streak - 1].card,
        ),
    ensures
        state.played(turns).penalty == (if streak < turns.len() {
            BASE_PENALTY as int
        } else {
            state.penalty
        }) + streak * PENALTY_STEP,
    decreases streak,
{
    if streak > 0 {
        lemma_penalty_follows_streak(state, turns.drop_last(), (streak - 1) as nat);
    }
}

/// A turn resolved in a reachable state, with a card drawn as the deck allows,
/// leaves the game in a reachable state. It raises the turn number by one and
/// puts the drawn card in the front slot of the card window.
pub proof fn lemma_resolved_is_wf(
    state: GameState,
    guess: CardColour,
    card: Card,
    deck_after: Seq<Card>,
)
    requires
        state.wf(),
        state.draws(card, deck_after),
    ensures
        state.resolved(guess, card, deck_after).wf(),
        state.resolved(guess, card, deck_after).turn_number == state.turn_number + 1,
        state.resolved(guess, card, deck_after).card_history[0] == Some(card),
{
    if state.deck.len() == 0 {
        lemma_shuffled_deck_distinct(deck_after.push(card));
        assert forall|i: int, j: int|
            0 <= i < deck_after.len() && 0 <= j < deck_after.len() && i != j implies deck_after[i]
            != deck_after[j] by {
            assert(deck_after.push(card)[i] == deck_after[i]);
            assert(deck_after.push(card)[j] == deck_after[j]);
        }
    }
}

/// Turn numbers start at 1 and rise by one with every resolved turn, whatever
/// its outcome, and the turn log records them in that order: its entries
/// carry consecutive numbers that end just below the number of the next turn,
/// and while no entry has been dropped the first one is turn 1.
pub proof fn lemma_turn_numbers_count_up(state: GameState, turns: Seq<Turn>)
    requires
        state.wf(),
        state.plays(turns),
    ensures
        state.played(turns).wf(),
        state.played(turns).turn_number == state.turn_number + turns.len(),
        forall|i: int, j: int|
            0 <= i < j < state.played(turns).game_history.len() ==> (
            #[trigger] state.played(turns).game_history[i]).turn_number < (
            #[trigger] state.played(turns).game_history[j]).turn_number,
        state.played(turns).game_history.len() > 0 ==> state.played(
            turns,
        ).game_history.last().turn_number == state.played(turns).turn_number - 1,
        0 < state.played(turns).game_history.len() < GAME_HISTORY_SIZE ==> state.played(
            turns,
        ).game_history[0].turn_number == 1,
    decreases turns.len(),
{
    if turns.len() > 0 {
        lemma_turn_numbers_count_up(state, turns.drop_last());
        let turn = turns.last();
        lemma_resolved_is_wf(
            state.played(turns.drop_last()),
            turn.guess,
            turn.card,
            turn.deck_after,
        );
    }
}

/// The turn number goes back to 1 only when a player's departure empties the
/// roster; a departure that leaves players behind, and a player joining, keep
/// it as it is.
pub proof fn lemma_turn_number_restarts_on_empty_roster(
    state: GameState,
    name: Seq<char>,
    fresh: Seq<Card>,
)
    ensures
        state.with_player(name).turn_number == state.turn_number,
        state.without_entry(name).roster.len() > 0 ==> state.without_player(
            name,
            fresh,
        ).turn_number == state.turn_number,
        state.without_entry(name).roster.len() == 0 ==> state.without_player(name, fresh)
            == GameState::initial(Seq::empty(), fresh),
{
    state.clamped().roster.index_of_first_ensures(name);
    if state.without_entry(name).roster.len() == 0 {
        assert(state.without_entry(name).roster =~= Seq::<Seq<char>>::empty());
    }
}

/// The card window of a game always shows three slots. Counted from the front
/// they hold the cards drawn since the game began, from the newest backwards,
/// and the slots that no draw has reached yet hold no card.
pub proof fn lemma_card_window_after_turns(
    roster: Seq<Seq<char>>,
    deck: Seq<Card>,
    turns: Seq<Turn>,
)
    ensures
        GameState::initial(roster, deck).played(turns).card_history.len() == CARD_HISTORY_SIZE,
        forall|i: int|
            0 <= i < CARD_HISTORY_SIZE ==> #[trigger] GameState::initial(roster, deck).played(
                turns,
            ).card_history[i] == if i < turns.len() {
                Some(turns[turns.len() - 1 - i].card)
            } else {
                None
            },
{
    let start = GameState::initial(roster, deck);
    lemma_card_history_follows_draws(start, turns);
    lemma_card_window_shows_newest(CARD_HISTORY_SIZE as nat, cards_drawn(turns));
}

/// The card window after `turns` is the one that their cards, entering one
/// after the other, make of the window the turns started with.
pub proof fn lemma_card_history_follows_draws(state: GameState, turns: Seq<Turn>)
    ensures
        state.played(turns).card_history == push_cards(
            state.card_history,
            CARD_HISTORY_SIZE as nat,
            cards_drawn(turns),
        ),
    decreases turns.len(),
{
    if turns.len() > 0 {
        lemma_card_history_follows_draws(state, turns.drop_last());
        assert(cards_drawn(turns).drop_last() =~= cards_drawn(turns.drop_last()));
    }
}

/// A player who joins a game that has players does not take the turn; a
/// player who joins an empty game has the turn at once.
pub proof fn lemma_joining_player_keeps_turn(state: GameState, name: Seq<char>)
    requires
        state.wf(),
    ensures
        state.with_player(name).wf(),
        state.roster.len() > 0 ==> state.with_player(name).current_player()
            == state.current_player(),
        state.roster.len() == 0 ==> state.with_player(name).current_player() == Some(name),
{
}

/// A departure leaves the game in a reachable state, provided that the deck
/// it continues with, should the roster empty, is a shuffled full deck.
pub proof fn lemma_without_player_is_wf(state: GameState, name: Seq<char>, fresh: Seq<Card>)
    requires
        state.wf(),
        state.without_entry(name).roster.len() == 0 ==> is_shuffled_deck(fresh),
    ensures
        state.without_player(name, fresh).wf(),
{
    state.roster.index_of_first_ensures(name);
    if state.without_entry(name).roster.len() == 0 {
        lemma_shuffled_deck_distinct(fresh);
    }
}

/// When a player other than the current one leaves, it is still the same
/// player's turn, wherever in the roster the one who leaves stood.
pub proof fn lemma_other_player_leaving_keeps_turn(
    state: GameState,
    name: Seq<char>,
    fresh: Seq<Card>,
)
    requires
        state.current_player() != Some(name),
    ensures
        state.without_player(name, fresh).current_player() == state.current_player(),
{
    state.roster.index_of_first_ensures(name);
}

/// When the current player leaves a roster of distinct names with more than
/// one entry, the turn passes to another player: the next in line, or the
/// first when the one who leaves stood last.
pub proof fn lemma_current_player_leaving_changes_turn(
    state: GameState,
    name: Seq<char>,
    fresh: Seq<Card>,
)
    requires
        state.current_player() == Some(name),
        state.roster.no_duplicates(),
        state.roster.len() > 1,
    ensures
        state.without_player(name, fresh).current_player().is_some(),
        state.without_player(name, fresh).current_player() != Some(name),
        state.without_player(name, fresh).current_player()
            == state.clamped().advanced().current_player(),
        state.without_player(name, fresh).roster == state.roster.remove(
            state.clamped_cursor() as int,
        ),
{
    state.roster.index_of_first_ensures(name);
}

/// When the only player leaves, the roster is empty and the whole game starts
/// over from `fresh`.
pub proof fn lemma_last_player_leaving_resets(state: GameState, name: Seq<char>, fresh: Seq<Card>)
    requires
        state.current_player() == Some(name),
        state.roster.len() == 1,
    ensures
        state.without_player(name, fresh) == GameState::initial(Seq::empty(), fresh),
{
    state.roster.index_of_first_ensures(name);
    assert(state.without_entry(name).roster =~= Seq::<Seq<char>>::empty());
}

/// The position of the first entry of `names` that equals `name`, if any.
fn position_of(names: &Vec<String>, name: &String) -> (found: Option<usize>)
    ensures
        match found {
            Some(i) => i < names.len() && names.deep_view().index_of_first(name@) == Some(
                i as int,
            ),
            None => names.deep_view().index_of_first(name@).is_none(),
        },
{
    let mut i: usize = 0;
    while i < names.len()
        invariant
            i <= names.len(),
            forall|j: int| 0 <= j < i ==> names.deep_view()[j] != name@,
        decreases names.len() - i,
    {
        if names[i] == *name {
            proof {
                assert(names.deep_view()[i as int] == name@);
                names.deep_view().index_of_first_ensures(name@);
            }
            return Some(i);
        }
        i += 1;
    }
    proof {
        names.deep_view().index_of_first_ensures(name@);
    }
    None
}

/// A game of red or black: the players, the deck, the penalty at stake and
/// the two history logs.
pub struct RedOrBlack {
    usernames: Vec<String>,
    index: usize,
    penalty: u16,
    deck: Deck,
    card_history: CardHistory,
    game_history: GameHistory,
    turn_number: u16,
}

impl View for RedOrBlack {
    type V = GameState;

    closed spec fn view(&self) -> GameState {
        GameState {
            roster: self.usernames.deep_view(),
            cursor: self.index as nat,
            penalty: self.penalty as int,
            deck: self.deck@,
            card_history: self.card_history@,
            game_history: self.game_history@,
            turn_number: self.turn_number as int,
        }
    }
}

impl RedOrBlack {
    /// The two history logs have the sizes the game gives them.
    pub closed spec fn sized(&self) -> bool {
        &&& self.card_history.capacity() == CARD_HISTORY_SIZE
        &&& self.game_history.capacity() == GAME_HISTORY_SIZE
    }

    /// The game is in a state that the moves of the game can reach.
    pub open spec fn wf(&self) -> bool {
        &&& self.sized()
        &&& self@.wf()
    }

    /// A new game for `usernames`, played from a freshly shuffled deck.
    pub fn new(usernames: Vec<String>) -> (game: Self)
        ensures
            game@ == GameState::initial(usernames.deep_view(), game@.deck),
            is_shuffled_deck(game@.deck),
            game.wf(),
    {
        Self::with_deck(usernames, Deck::new_shuffled())
    }

    /// A new game for `usernames`, played from `deck` as it is.
    pub fn with_deck(usernames: Vec<String>, deck: Deck) -> (game: Self)
        ensures
            game@ == GameState::initial(usernames.deep_view(), deck@),
            deck.wf() ==> game.wf(),
    {
        RedOrBlack {
            usernames,
            index: 0,
            penalty: BASE_PENALTY,
            deck,
            card_history: CardHistory::new(CARD_HISTORY_SIZE),
            game_history: GameHistory::new(GAME_HISTORY_SIZE),
            turn_number: 1,
        }
    }

    /// The window of recently drawn cards, newest first.
    pub fn get_card_history(&self) -> (slots: &VecDeque<Option<Card>>)
        ensures
            slots@ == self@.card_history,
    {
        self.card_history.get_history()
    }

    /// The most recent completed turns, oldest first.
    pub fn get_game_history(&self) -> (entries: &Vec<HistoryItem>)
        ensures
            entries.deep_view() == self@.game_history,
    {
        self.game_history.get_history()
    }

    /// Number of cards left in the deck.
    pub fn cards_left(&self) -> (n: usize)
        ensures
            n == self@.deck.len(),
    {
        self.deck.len()
    }

    /// What the next wrong guess will cost.
    pub fn get_penalty(&self) -> (penalty: u16)
        ensures
            penalty == self@.penalty,
    {
        self.penalty
    }

    /// Whether the counters leave room for one more turn.
    pub fn can_play_turn(&self) -> (room: bool)
        ensures
            room == self@.has_room(),
    {
        self.penalty <= u16::MAX - PENALTY_STEP && self.turn_number < u16::MAX
    }

    /// Raises the penalty by one step and returns the new value.
    pub fn increment_penalty(&mut self) -> (penalty: u16)
        requires
            old(self)@.penalty + PENALTY_STEP <= u16::MAX,
        ensures
            final(self)@ == (GameState {
                penalty: old(self)@.penalty + PENALTY_STEP,
                ..old(self)@
            }),
            penalty == old(self)@.penalty + PENALTY_STEP,
            old(self).wf() ==> final(self).wf(),
    {
        self.penalty += PENALTY_STEP;
        self.penalty
    }

    /// Sends the penalty back to its base value and returns it.
    pub fn reset_penalty(&mut self) -> (penalty: u16)
        ensures
            final(self)@ == (GameState { penalty: BASE_PENALTY as int, ..old(self)@ }),
            penalty == BASE_PENALTY,
            old(self).wf() ==> final(self).wf(),
    {
        self.penalty = BASE_PENALTY;
        self.penalty
    }

    /// The player whose turn it is, or `None` when nobody plays. Reading it
    /// brings a cursor that points past the roster back to its first entry.
    pub fn get_current_player(&mut self) -> (player: Option<&String>)
        ensures
            final(self)@ == old(self)@.clamped(),
            player.deep_view() == old(self)@.current_player(),
            player.is_none() <==> old(self)@.roster.len() == 0,
            old(self).wf() ==> final(self).wf(),
    {
        if self.index >= self.usernames.len() {
            self.index = 0;
        }
        if self.index < self.usernames.len() {
            Some(&self.usernames[self.index])
        } else {
            None
        }
    }

    /// Passes the turn to the next player in the roster, wrapping round at its
    /// end, and returns that player, or `None` when nobody plays.
    pub fn next_player(&mut self) -> (player: Option<&String>)
        ensures
            final(self)@ == old(self)@.advanced(),
            player.deep_view() == final(self)@.current_player(),
            player.is_none() <==> old(self)@.roster.len() == 0,
            old(self).wf() ==> final(self).wf(),
    {
        let len: usize = self.usernames.len();
        if self.index < len && self.index + 1 < len {
            self.index = self.index + 1;
        } else {
            self.index = 0;
        }
        if self.index < len {
            Some(&self.usernames[self.index])
        } else {
            None
        }
    }

    /// Takes the first player called `username` out of the roster and says
    /// whether that ended the player's own turn, in which case the turn has
    /// passed on to the next in line. A departure of anyone else leaves the
    /// turn with the player who has it. When the roster is empty afterwards
    /// the game starts over: base penalty, empty logs, a freshly shuffled
    /// deck, turn number 1.
    pub fn remove_player(&mut self, username: &str) -> (changed_turn: bool)
        ensures
            changed_turn == (old(self)@.current_player() == Some(username@)),
            final(self)@ == old(self)@.without_player(username@, final(self)@.deck),
            !changed_turn ==> final(self)@.current_player() == old(self)@.current_player(),
            old(self)@.without_entry(username@).roster.len() == 0 ==> is_shuffled_deck(
                final(self)@.deck,
            ),
            old(self).wf() ==> final(self).wf(),
    {
        let name: String = username.to_owned();
        let mut changed_turn = false;
        if let Some(current_player) = self.get_current_player() {
            if *current_player == name {
                changed_turn = true;
            }
        }
        if changed_turn {
            self.next_player();
        }
        if let Some(index) = position_of(&self.usernames, &name) {
            self.usernames.remove(index);
            if index < self.index {
                self.index = self.index - 1;
            }
            assert(self.usernames.deep_view() =~= old(self).usernames.deep_view().remove(
                index as int,
            ));
        }
        if self.usernames.is_empty() {
            self.reset();
        }
        proof {
            if old(self).wf() {
                lemma_without_player_is_wf(old(self)@, username@, self@.deck);
            }
            if !changed_turn {
                lemma_other_player_leaving_keeps_turn(old(self)@, username@, self@.deck);
            }
        }
        changed_turn
    }

    /// Adds a player at the end of the roster. The cursor stays where it is:
    /// a game that has players keeps its current player, and the first player
    /// to join an empty game is the current player.
    pub fn add_player(&mut self, p: String)
        ensures
            final(self)@ == old(self)@.with_player(p@),
            final(self)@.current_player().is_some(),
            old(self).wf() ==> final(self)@.current_player() == if old(self)@.roster.len() == 0 {
                Some(p@)
            } else {
                old(self)@.current_player()
            },
            old(self).wf() ==> final(self).wf(),
    {
        self.usernames.push(p);
        assert(self.usernames.deep_view() =~= old(self).usernames.deep_view().push(p@));
    }

    /// Draws the top card. An empty deck is first replaced by a freshly
    /// shuffled full one, so there is always a card to draw.
    pub fn draw_card(&mut self) -> (card: Card)
        ensures
            old(self)@.draws(card, final(self)@.deck),
            final(self)@ == (GameState { deck: final(self)@.deck, ..old(self)@ }),
            old(self).wf() ==> final(self).wf(),
    {
        if let Some(card) = self.deck.pop() {
            card
        } else {
            self.deck = Deck::new_shuffled();
            let ghost fresh = self.deck@;
            let card: Card = self.deck.pop().unwrap();
            assert(self.deck@.push(card) =~= fresh);
            card
        }
    }

    /// Whether `guess` names the colour of `card`: black for spades and clubs,
    /// red for hearts and diamonds.
    pub fn validate_guess(&self, guess: &CardColour, card: Card) -> (correct: bool)
        ensures
            correct == guess_is_correct(*guess, card),
    {
        *guess == CardColour::Black && (card.suit == Suit::Spade || card.suit == Suit::Club)
            || *guess == CardColour::Red && (card.suit == Suit::Heart || card.suit
            == Suit::Diamond)
    }

    /// Resolves one guess of the current player: draws a card, shows it in the
    /// card window, settles the penalty, logs the turn and passes the turn on.
    /// Returns whether the guess was correct, the penalty the turn awards, the
    /// player whose turn it is now, the card drawn and the number of cards
    /// left in the deck.
    pub fn play_turn(&mut self, guess: &CardColour) -> (outcome: (
        bool,
        u16,
        Option<&String>,
        Card,
        usize,
    ))
        requires
            old(self).wf(),
            old(self)@.has_room(),
        ensures
            old(self)@.draws(outcome.3, final(self)@.deck),
            final(self)@ == old(self)@.resolved(*guess, outcome.3, final(self)@.deck),
            outcome.0 == guess_is_correct(*guess, outcome.3),
            outcome.1 == penalty_awarded(old(self)@.penalty, outcome.0),
            outcome.2.deep_view() == final(self)@.current_player(),
            outcome.4 == final(self)@.deck.len(),
            final(self).wf(),
    {
        let card: Card = self.draw_card();
        self.card_history.push(card);
        let correct: bool = self.validate_guess(guess, card);
        let penalty: u16 = if correct {
            self.increment_penalty()
        } else {
            let penalty: u16 = self.penalty;
            self.reset_penalty();
            penalty
        };
        let username: String = match self.get_current_player() {
            Some(name) => name.clone(),
            None => String::new(),
        };
        let history_item = HistoryItem {
            username,
            guess: *guess,
            outcome: correct,
            card,
            penalty,
            turn_number: self.turn_number,
        };
        self.game_history.push(history_item);
        self.turn_number += 1;
        let cards_left: usize = self.deck.len();
        let player: Option<&String> = self.next_player();
        (correct, penalty, player, card, cards_left)
    }

    /// Starts the game over for the players that remain: base penalty, empty
    /// logs, a freshly shuffled deck, turn number 1.
    fn reset(&mut self)
        ensures
            final(self)@ == old(self)@.reset(final(self)@.deck),
            is_shuffled_deck(final(self)@.deck),
            final(self)@.deck.len() == 52,
            final(self)@.deck.no_duplicates(),
            final(self).sized(),
    {
        self.penalty = BASE_PENALTY;
        self.card_history = CardHistory::new(CARD_HISTORY_SIZE);
        self.game_history = GameHistory::new(GAME_HISTORY_SIZE);
        self.deck = Deck::new_shuffled();
        self.turn_number = 1;
    }
}

} // verus!
