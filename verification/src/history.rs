//! The two bounded logs the game keeps: the most recent cards and the most
//! recent completed turns.

use crate::deck::Card;
use crate::messages::CardColour;
use std::collections::VecDeque;
use vstd::prelude::*;

verus! {

/// Summary of one completed turn.
#[derive(Clone, Debug, PartialEq)]
pub struct HistoryItem {
    pub username: String,
    pub guess: CardColour,
    pub outcome: bool,
    pub card: Card,
    pub penalty: u16,
    pub turn_number: u16,
}

/// What a [`HistoryItem`] says, with the player's name as a sequence of
/// characters and the numbers as mathematical integers.
pub struct HistoryItemView {
    pub username: Seq<char>,
    pub guess: CardColour,
    pub outcome: bool,
    pub card: Card,
    pub penalty: int,
    pub turn_number: int,
}

impl View for HistoryItem {
    type V = HistoryItemView;

    open spec fn view(&self) -> HistoryItemView {
        HistoryItemView {
            username: self.username@,
            guess: self.guess,
            outcome: self.outcome,
            card: self.card,
            penalty: self.penalty as int,
            turn_number: self.turn_number as int,
        }
    }
}

impl DeepView for HistoryItem {
    type V = HistoryItemView;

    open spec fn deep_view(&self) -> HistoryItemView {
        self@
    }
}

/// A turn log after `item` is appended to `log`: once it holds more than
/// `capacity` entries, the oldest one is dropped.
pub open spec fn push_turn(log: Seq<HistoryItemView>, capacity: nat, item: HistoryItemView) -> Seq<
    HistoryItemView,
> {
    let appended = log.push(item);
    if appended.len() > capacity {
        appended.drop_first()
    } else {
        appended
    }
}

/// The turn log that results from appending `items` in order to `log`.
pub open spec fn push_turns(
    log: Seq<HistoryItemView>,
    capacity: nat,
    items: Seq<HistoryItemView>,
) -> Seq<HistoryItemView>
    decreases items.len(),
{
    if items.len() == 0 {
        log
    } else {
        push_turn(push_turns(log, capacity, items.drop_last()), capacity, items.last())
    }
}

/// A turn log never exceeds its capacity, and it drops the oldest entries
/// first: after any number of appends to an empty log it holds the most recent
/// appended items, as many as fit, in the order they were appended.
pub proof fn lemma_turn_log_keeps_newest(capacity: nat, items: Seq<HistoryItemView>)
    ensures
        push_turns(Seq::empty(), capacity, items).len() <= capacity,
        push_turns(Seq::empty(), capacity, items) == if items.len() <= capacity {
            items
        } else {
            items.subrange(items.len() - capacity, items.len() as int)
        },
    decreases items.len(),
{
    if items.len() > 0 {
        lemma_turn_log_keeps_newest(capacity, items.drop_last());
    }
}

/// Log of the most recent completed turns, oldest first.
pub struct GameHistory {
    size: u16,
    history: Vec<HistoryItem>,
}

impl View for GameHistory {
    type V = Seq<HistoryItemView>;

    /// The logged turns, oldest first.
    closed spec fn view(&self) -> Seq<HistoryItemView> {
        self.history.deep_view()
    }
}

impl GameHistory {
    /// The number of turns the log keeps.
    pub closed spec fn capacity(&self) -> nat {
        self.size as nat
    }

    /// The log holds no more turns than its capacity.
    pub open spec fn wf(&self) -> bool {
        self@.len() <= self.capacity()
    }

    /// An empty log that keeps up to `size` turns.
    pub fn new(size: u16) -> (log: Self)
        ensures
            log@ == Seq::<HistoryItemView>::empty(),
            log.capacity() == size,
            log.wf(),
    {
        GameHistory { size, history: Vec::new() }
    }

    /// Appends a turn, dropping the oldest one if the log is over capacity,
    /// and returns the log's entries.
    pub fn push(&mut self, item: HistoryItem) -> (entries: &Vec<HistoryItem>)
        ensures
            final(self)@ == push_turn(old(self)@, old(self).capacity(), item@),
            final(self).capacity() == old(self).capacity(),
            old(self).wf() ==> final(self).wf(),
            entries.deep_view() == final(self)@,
    {
        self.history.push(item);
        if self.history.len() > self.size as usize {
            self.history.remove(0);
        }
        &self.history
    }

    /// The logged turns, oldest first.
    pub fn get_history(&self) -> (entries: &Vec<HistoryItem>)
        ensures
            entries.deep_view() == self@,
    {
        &self.history
    }
}

/// The slots of a card window that has seen no card yet.
pub open spec fn empty_slots(capacity: nat) -> Seq<Option<Card>> {
    Seq::new(capacity, |i: int| None::<Card>)
}

/// A card window after `card` enters at the front of `slots`: once it holds
/// `capacity` slots or more, the rearmost slot is dropped.
pub open spec fn push_card(slots: Seq<Option<Card>>, capacity: nat, card: Card) -> Seq<
    Option<Card>,
> {
    let entered = seq![Some(card)] + slots;
    if entered.len() >= capacity {
        entered.drop_last()
    } else {
        entered
    }
}

/// The card window that results from the cards of `draws` entering `slots`
/// one after the other.
pub open spec fn push_cards(slots: Seq<Option<Card>>, capacity: nat, draws: Seq<Card>) -> Seq<
    Option<Card>,
>
    decreases draws.len(),
{
    if draws.len() == 0 {
        slots
    } else {
        push_card(push_cards(slots, capacity, draws.drop_last()), capacity, draws.last())
    }
}

/// A card window always shows exactly as many slots as its capacity. Counted
/// from the front they hold the draws from the newest backwards, and the slots
/// that no draw has reached yet hold no card.
pub proof fn lemma_card_window_shows_newest(capacity: nat, draws: Seq<Card>)
    ensures
        push_cards(empty_slots(capacity), capacity, draws).len() == capacity,
        forall|i: int|
            0 <= i < capacity ==> #[trigger] push_cards(empty_slots(capacity), capacity, draws)[i]
                == if i < draws.len() {
                Some(draws[draws.len() - 1 - i])
            } else {
                None
            },
    decreases draws.len(),
{
    if draws.len() > 0 {
        lemma_card_window_shows_newest(capacity, draws.drop_last());
    }
}

/// Window onto the most recently drawn cards, newest first, with a fixed
/// number of slots.
#[derive(Clone)]
pub struct CardHistory {
    size: u16,
    history: VecDeque<Option<Card>>,
}

impl View for CardHistory {
    type V = Seq<Option<Card>>;

    /// The slots, newest card first.
    closed spec fn view(&self) -> Seq<Option<Card>> {
        self.history@
    }
}

impl CardHistory {
    /// The number of slots the window shows.
    pub closed spec fn capacity(&self) -> nat {
        self.size as nat
    }

    /// The window shows exactly as many slots as its capacity.
    pub open spec fn wf(&self) -> bool {
        self@.len() == self.capacity()
    }

    /// A window of `size` slots, none of them holding a card.
    pub fn new(size: u16) -> (window: Self)
        ensures
            window@ == empty_slots(size as nat),
            window.capacity() == size,
            window.wf(),
    {
        let mut vdq: VecDeque<Option<Card>> = VecDeque::with_capacity(size as usize);
        let mut filled: u16 = 0;
        while filled < size
            invariant
                filled <= size,
                vdq@ == empty_slots(filled as nat),
            decreases size - filled,
        {
            vdq.push_front(None);
            filled += 1;
        }
        CardHistory { size, history: vdq }
    }

    /// Puts `card` in the front slot, drops the rearmost slot once the window
    /// is full, and returns the slots.
    pub fn push(&mut self, card: Card) -> (slots: &VecDeque<Option<Card>>)
        ensures
            final(self)@ == push_card(old(self)@, old(self).capacity(), card),
            final(self).capacity() == old(self).capacity(),
            old(self).wf() ==> final(self).wf(),
            slots@ == final(self)@,
    {
        self.history.push_front(Some(card));
        if self.history.len() >= self.size as usize {
            self.history.pop_back();
        }
        &self.history
    }

    /// The slots, newest card first.
    pub fn get_history(&self) -> (slots: &VecDeque<Option<Card>>)
        ensures
            slots@ == self@,
    {
        &self.history
    }
}

} // verus!
