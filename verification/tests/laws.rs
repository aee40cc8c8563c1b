use red_or_black::deck::{Card, Deck, Suit, Value};
use red_or_black::history::{CardHistory, GameHistory, HistoryItem};
use red_or_black::messages::CardColour;
use red_or_black::rules::RedOrBlack;

fn item(turn_number: u16) -> HistoryItem {
    HistoryItem {
        username: "renton".to_string(),
        guess: CardColour::Black,
        outcome: false,
        card: Card {
            value: Value::Seven,
            suit: Suit::Diamond,
        },
        penalty: 5,
        turn_number,
    }
}

#[test]
fn either_guess_is_right_for_exactly_its_two_suits() {
    let game = RedOrBlack::new(Vec::new());
    let mut deck = Deck::new();
    let mut checked = 0;
    while let Some(card) = deck.pop() {
        let black = card.suit == Suit::Spade || card.suit == Suit::Club;
        let red = card.suit == Suit::Heart || card.suit == Suit::Diamond;
        assert_eq!(game.validate_guess(&CardColour::Black, card), black);
        assert_eq!(game.validate_guess(&CardColour::Red, card), red);
        assert_ne!(black, red);
        checked += 1;
    }
    assert_eq!(checked, 52);
}

#[test]
fn penalty_is_base_plus_five_per_correct_guess_in_a_row() {
    let mut game = RedOrBlack::with_deck(vec!["mick".to_string()], Deck::new());
    for streak in 1..=26u16 {
        let (correct, penalty, _, _, _) = game.play_turn(&CardColour::Red);
        assert!(correct);
        assert_eq!(penalty, 5 + streak * 5);
        assert_eq!(game.get_penalty(), 5 + streak * 5);
    }
    // The 27th card is black.
    let (correct, owed, _, _, _) = game.play_turn(&CardColour::Red);
    assert!(!correct);
    assert_eq!(owed, 135);
    assert_eq!(game.get_penalty(), 5);
    let (correct, penalty, _, _, _) = game.play_turn(&CardColour::Black);
    assert!(correct);
    assert_eq!(penalty, 10);
}

#[test]
fn turn_numbers_count_up_from_one() {
    let mut game = RedOrBlack::with_deck(vec!["mick".to_string(), "john".to_string()], Deck::new());
    for _ in 0..10 {
        game.play_turn(&CardColour::Black);
    }
    let history = game.get_game_history();
    assert_eq!(history.len(), 10);
    for (i, entry) in history.iter().enumerate() {
        assert_eq!(entry.turn_number as usize, i + 1);
    }
    assert_eq!(history[0].username, "mick");
    assert_eq!(history[1].username, "john");
    assert_eq!(history[2].username, "mick");
}

#[test]
fn turn_log_records_guess_outcome_card_and_penalty() {
    let mut game = RedOrBlack::with_deck(vec!["mick".to_string()], Deck::new());
    game.play_turn(&CardColour::Red);
    game.play_turn(&CardColour::Black);
    let history = game.get_game_history();
    assert_eq!(
        history[0],
        HistoryItem {
            username: "mick".to_string(),
            guess: CardColour::Red,
            outcome: true,
            card: Card {
                value: Value::King,
                suit: Suit::Heart
            },
            penalty: 10,
            turn_number: 1,
        }
    );
    assert_eq!(
        history[1],
        HistoryItem {
            username: "mick".to_string(),
            guess: CardColour::Black,
            outcome: false,
            card: Card {
                value: Value::Queen,
                suit: Suit::Heart
            },
            penalty: 10,
            turn_number: 2,
        }
    );
}

#[test]
fn turn_log_of_the_game_keeps_the_last_forty_turns() {
    let mut game = RedOrBlack::with_deck(vec!["mick".to_string()], Deck::new());
    for played in 1..=45usize {
        game.play_turn(&CardColour::Black);
        assert_eq!(game.get_game_history().len(), played.min(40));
    }
    let history = game.get_game_history();
    assert_eq!(history[0].turn_number, 6);
    assert_eq!(history[39].turn_number, 45);
    for pair in history.windows(2) {
        assert_eq!(pair[0].turn_number + 1, pair[1].turn_number);
    }
}

#[test]
fn turn_log_never_exceeds_its_capacity() {
    for capacity in 0..5u16 {
        let mut log = GameHistory::new(capacity);
        assert!(log.get_history().is_empty());
        for pushed in 1..=8u16 {
            log.push(item(pushed));
            let entries = log.get_history();
            assert_eq!(entries.len() as u16, pushed.min(capacity));
            // What is left are the newest entries, oldest first.
            for (i, entry) in entries.iter().enumerate() {
                assert_eq!(entry.turn_number, pushed - entries.len() as u16 + 1 + i as u16);
            }
        }
    }
}

#[test]
fn turn_log_push_returns_the_entries() {
    let mut log = GameHistory::new(2);
    assert_eq!(log.push(item(1)).len(), 1);
    assert_eq!(log.push(item(2)).len(), 2);
    let entries = log.push(item(3));
    assert_eq!(entries.len(), 2);
    assert_eq!(entries[0].turn_number, 2);
    assert_eq!(entries[1].turn_number, 3);
}

#[test]
fn card_window_always_shows_its_capacity() {
    for capacity in 0..5u16 {
        let mut window = CardHistory::new(capacity);
        assert_eq!(window.get_history().len(), capacity as usize);
        assert!(window.get_history().iter().all(|slot| slot.is_none()));
        let mut deck = Deck::new();
        let mut drawn: Vec<Card> = Vec::new();
        for _ in 0..8 {
            let card = deck.pop().unwrap();
            drawn.push(card);
            window.push(card);
            let slots = window.get_history();
            assert_eq!(slots.len(), capacity as usize);
            for (i, slot) in slots.iter().enumerate() {
                if i < drawn.len() {
                    assert_eq!(*slot, Some(drawn[drawn.len() - 1 - i]));
                } else {
                    assert_eq!(*slot, None);
                }
            }
        }
    }
}

#[test]
fn card_window_push_returns_the_slots() {
    let mut window = CardHistory::new(2);
    let card = Card {
        value: Value::Ten,
        suit: Suit::Club,
    };
    let slots = window.push(card);
    assert_eq!(slots.len(), 2);
    assert_eq!(slots[0], Some(card));
    assert_eq!(slots[1], None);
}

#[test]
fn card_window_of_the_game_shows_the_newest_draw_first() {
    let mut game = RedOrBlack::with_deck(vec!["mick".to_string()], Deck::new());
    assert_eq!(game.get_card_history().len(), 3);
    assert!(game.get_card_history().iter().all(|slot| slot.is_none()));
    let mut drawn: Vec<Card> = Vec::new();
    for _ in 0..6 {
        let (_, _, _, card, _) = game.play_turn(&CardColour::Red);
        drawn.push(card);
        let slots = game.get_card_history();
        assert_eq!(slots.len(), 3);
        assert_eq!(slots[0], Some(card));
        for i in 0..3 {
            if i < drawn.len() {
                assert_eq!(slots[i], Some(drawn[drawn.len() - 1 - i]));
            } else {
                assert_eq!(slots[i], None);
            }
        }
    }
}
