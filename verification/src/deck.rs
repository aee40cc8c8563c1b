//! Playing cards and the 52-card deck they are drawn from.

use rand::Rng;
use vstd::prelude::*;

verus! {

/// Rank of a card, ace low.
#[derive(Clone, Copy, Debug, PartialEq, Eq, Structural)]
pub enum Value {
    Ace,
    Two,
    Three,
    Four,
    Five,
    Six,
    Seven,
    Eight,
    Nine,
    Ten,
    Jack,
    Queen,
    King,
}

/// Suit of a card. Spades and clubs are black, hearts and diamonds are red.
#[derive(Clone, Copy, Debug, PartialEq, Eq, Structural)]
pub enum Suit {
    Spade,
    Club,
    Heart,
    Diamond,
}

/// One of the 52 playing cards.
#[derive(Clone, Copy, Debug, PartialEq, Eq, Structural)]
pub struct Card {
    pub value: Value,
    pub suit: Suit,
}

/// The suit that occupies the `i`-th block of thirteen cards in a fresh deck.
pub open spec fn suit_at(i: int) -> Suit {
    if i == 0 {
        Suit::Spade
    } else if i == 1 {
        Suit::Club
    } else if i == 2 {
        Suit::Diamond
    } else {
        Suit::Heart
    }
}

/// The rank at position `i` within a suit of a fresh deck.
pub open spec fn value_at(i: int) -> Value {
    if i == 0 {
        Value::Ace
    } else if i == 1 {
        Value::Two
    } else if i == 2 {
        Value::Three
    } else if i == 3 {
        Value::Four
    } else if i == 4 {
        Value::Five
    } else if i == 5 {
        Value::Six
    } else if i == 6 {
        Value::Seven
    } else if i == 7 {
        Value::Eight
    } else if i == 8 {
        Value::Nine
    } else if i == 9 {
        Value::Ten
    } else if i == 10 {
        Value::Jack
    } else if i == 11 {
        Value::Queen
    } else {
        Value::King
    }
}

/// The card at position `i` of a fresh, unshuffled deck.
pub open spec fn card_at(i: int) -> Card {
    Card { value: value_at(i % 13), suit: suit_at(i / 13) }
}

/// A fresh deck: spades, clubs, diamonds, hearts, each from ace to king.
pub open spec fn full_deck() -> Seq<Card> {
    Seq::new(52, |i: int| card_at(i))
}

/// Whether `cards` holds each of the 52 cards exactly once, in any order.
pub open spec fn is_shuffled_deck(cards: Seq<Card>) -> bool {
    cards.to_multiset() == full_deck().to_multiset()
}

/// A fresh deck holds 52 cards, no two of them alike.
pub proof fn lemma_full_deck_distinct()
    ensures
        full_deck().len() == 52,
        full_deck().no_duplicates(),
{
}

/// Any ordering of the 52 cards has 52 entries and repeats none of them.
pub proof fn lemma_shuffled_deck_distinct(cards: Seq<Card>)
    requires
        is_shuffled_deck(cards),
    ensures
        cards.len() == 52,
        cards.no_duplicates(),
{
    lemma_full_deck_distinct();
    vstd::seq_lib::to_multiset_len(cards);
    vstd::seq_lib::to_multiset_len(full_deck());
    full_deck().lemma_multiset_has_no_duplicates();
    cards.lemma_multiset_has_no_duplicates_conv();
}

/// Shuffles `cards` in place with `rand::Rng::shuffle` on the generator that
/// `rand::thread_rng` returns. The shuffle only swaps entries, so what comes
/// back is a rearrangement of what went in; which one is left open.
#[verifier::external_body]
fn shuffle_cards(cards: &mut Vec<Card>)
    ensures
        final(cards)@.to_multiset() == old(cards)@.to_multiset(),
{
    rand::thread_rng().shuffle(cards.as_mut_slice());
}

/// A stack of distinct cards, drawn from the top.
#[derive(Clone, Debug, PartialEq)]
pub struct Deck {
    cards: Vec<Card>,
}

impl View for Deck {
    type V = Seq<Card>;

    /// The cards from the bottom of the stack to the top.
    closed spec fn view(&self) -> Seq<Card> {
        self.cards@
    }
}

impl Deck {
    /// No card occurs twice and the deck never holds more than 52.
    pub open spec fn wf(&self) -> bool {
        &&& self@.no_duplicates()
        &&& self@.len() <= 52
    }

    /// A full deck in its fixed order, not shuffled.
    pub fn new() -> (deck: Self)
        ensures
            deck@ == full_deck(),
            deck.wf(),
    {
        let suits = [Suit::Spade, Suit::Club, Suit::Diamond, Suit::Heart];
        let values = [
            Value::Ace,
            Value::Two,
            Value::Three,
            Value::Four,
            Value::Five,
            Value::Six,
            Value::Seven,
            Value::Eight,
            Value::Nine,
            Value::Ten,
            Value::Jack,
            Value::Queen,
            Value::King,
        ];
        let mut cards: Vec<Card> = Vec::new();
        let mut s: usize = 0;
        while s < 4
            invariant
                s <= 4,
                cards@ == full_deck().take(13 * s),
                forall|k: int| 0 <= k < 4 ==> suits[k] == suit_at(k),
                forall|k: int| 0 <= k < 13 ==> values[k] == value_at(k),
            decreases 4 - s,
        {
            let mut v: usize = 0;
            while v < 13
                invariant
                    s < 4,
                    v <= 13,
                    cards@ == full_deck().take(13 * s + v),
                    forall|k: int| 0 <= k < 4 ==> suits[k] == suit_at(k),
                    forall|k: int| 0 <= k < 13 ==> values[k] == value_at(k),
                decreases 13 - v,
            {
                cards.push(Card { value: values[v], suit: suits[s] });
                v += 1;
            }
            s += 1;
        }
        Deck { cards }
    }

    /// A full deck in random order.
    pub fn new_shuffled() -> (deck: Self)
        ensures
            is_shuffled_deck(deck@),
            deck@.len() == 52,
            deck.wf(),
    {
        let mut deck = Self::new();
        shuffle_cards(&mut deck.cards);
        proof {
            lemma_shuffled_deck_distinct(deck@);
        }
        deck
    }

    /// Takes the top card, if there is one.
    pub fn pop(&mut self) -> (card: Option<Card>)
        ensures
            old(self)@.len() == 0 ==> card.is_none() && final(self)@ == old(self)@,
            old(self)@.len() > 0 ==> card == Some(old(self)@.last()) && final(self)@ == old(
                self,
            )@.drop_last(),
            old(self).wf() ==> final(self).wf(),
    {
        self.cards.pop()
    }

    /// Number of cards not yet drawn.
    pub fn len(&self) -> (n: usize)
        ensures
            n == self@.len(),
    {
        self.cards.len()
    }
}

} // verus!
