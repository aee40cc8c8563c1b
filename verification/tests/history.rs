use red_or_black::deck::{Card, Deck, Suit, Value};
use red_or_black::history::{CardHistory, GameHistory, HistoryItem};
use red_or_black::messages::CardColour;

#[test]
fn history_can_push_onto_history() {
    let mut game_history = GameHistory::new(3);
    assert!(game_history.get_history().is_empty());
    let item = HistoryItem {
        username: "Jimmy".to_string(),
        guess: CardColour::Red,
        outcome: true,
        card: Card {
            value: Value::Ace,
            suit: Suit::Club,
        },
        penalty: 5,
        turn_number: 1,
    };
    game_history.push(item);
    assert_eq!(game_history.get_history().len(), 1);

    // The card window keeps its three slots when a card enters.
    let mut history = CardHistory::new(3);
    assert_eq!(history.get_history().len(), 3);
    let mut deck = Deck::new();
    let card = deck.pop().unwrap();
    history.push(card.clone());
    assert_eq!(history.get_history().len(), 3);
    assert_eq!(history.get_history()[0], Some(card));
    assert_eq!(history.get_history()[1], None);
    assert_eq!(history.get_history()[2], None);
}

#[test]
fn history_history_is_truncated() {
    let mut game_history = GameHistory::new(3);
    let item = HistoryItem {
        username: "Jimmy".to_string(),
        guess: CardColour::Red,
        outcome: true,
        card: Card {
            value: Value::Ace,
            suit: Suit::Club,
        },
        penalty: 5,
        turn_number: 1,
    };
    game_history.push(item.clone());
    game_history.push(item.clone());
    game_history.push(item.clone());
    game_history.push(item);
    assert_eq!(game_history.get_history().len(), 3);

    // The card window drops its oldest card when a fourth one enters.
    let mut history = CardHistory::new(3);
    let mut deck = Deck::new();
    let card1 = deck.pop().unwrap();
    let card2 = deck.pop().unwrap();
    let card3 = deck.pop().unwrap();
    let card4 = deck.pop().unwrap();
    history.push(card1.clone());
    history.push(card2.clone());
    history.push(card3.clone());
    assert_eq!(history.get_history()[0], Some(card3));
    assert_eq!(history.get_history()[1], Some(card2));
    assert_eq!(history.get_history()[2], Some(card1));
    history.push(card4.clone());
    assert_eq!(history.get_history()[0], Some(card4));
    assert_eq!(history.get_history()[1], Some(card3));
    assert_eq!(history.get_history()[2], Some(card2));
}

#[test]
fn history_old_items_are_truncated_first() {
    let mut game_history = GameHistory::new(3);
    let old_item = HistoryItem {
        username: "Jimmy".to_string(),
        guess: CardColour::Red,
        outcome: true,
        card: Card {
            value: Value::Ace,
            suit: Suit::Club,
        },
        penalty: 5,
        turn_number: 1,
    };

    let new_item = HistoryItem {
        username: "Jimmy newtron".to_string(),
        guess: CardColour::Red,
        outcome: false,
        card: Card {
            value: Value::Ace,
            suit: Suit::Club,
        },
        penalty: 5,
        turn_number: 1,
    };
    game_history.push(old_item.clone());
    game_history.push(new_item.clone());
    game_history.push(new_item.clone());
    assert_eq!(game_history.get_history()[0], old_item);
    game_history.push(new_item.clone());
    assert_eq!(game_history.get_history()[0], new_item);
}
