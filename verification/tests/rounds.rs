use red_or_black::deck::{Card, Suit, Value};
use red_or_black::messages::CardColour;
use red_or_black::rules::RedOrBlack;

#[test]
fn game2_starts_at_five() {
    let usernames = vec!["mick".to_string()];
    let game = RedOrBlack::new(usernames);
    assert_eq!(game.get_penalty(), 5);
}

#[test]
fn game2_increments_by_five() {
    let usernames = vec!["mick".to_string()];
    let mut game = RedOrBlack::new(usernames);
    game.increment_penalty();
    assert_eq!(game.get_penalty(), 10);
}

#[test]
fn game2_incorrect_guess_increments() {
    let usernames = vec!["mick".to_string()];
    let mut game = RedOrBlack::new(usernames);
    let mut correct_count = 1;
    let guess = CardColour::Red;
    // While the guesses are correct the penalty keeps rising by five.
    while game.play_turn(&guess).0 == true {
        correct_count += 1;
        assert_eq!(game.get_penalty(), 5 * correct_count);
    }
    // After a wrong guess the penalty is back at five.
    assert_eq!(game.get_penalty(), 5);
}

#[test]
fn game2_with_zero_players() {
    let mut game = RedOrBlack::new(Vec::new());
    let guess = CardColour::Black;
    assert_eq!(game.get_current_player(), None);
    assert_eq!(game.next_player(), None);
    assert_eq!(game.play_turn(&guess).2, None);
}

#[test]
fn game2_with_one_player() {
    let mut game = RedOrBlack::new(vec!["mick".to_string()]);
    let guess = CardColour::Black;
    assert_eq!(game.get_current_player(), Some(&"mick".to_string()));
    assert_eq!(game.next_player(), Some(&"mick".to_string()));
    assert_eq!(game.next_player(), Some(&"mick".to_string()));
    assert_eq!(game.play_turn(&guess).2, Some(&"mick".to_string()));
    assert_eq!(game.play_turn(&guess).2, Some(&"mick".to_string()));
}

#[test]
fn game2_with_players() {
    let mut game = RedOrBlack::new(vec!["mick".to_string(), "john".to_string()]);
    assert_eq!(game.get_current_player(), Some(&"mick".to_string()));
    assert_eq!(game.get_current_player(), Some(&"mick".to_string()));

    assert_eq!(game.next_player(), Some(&"john".to_string()));
    assert_eq!(game.get_current_player(), Some(&"john".to_string()));

    assert_eq!(game.next_player(), Some(&"mick".to_string()));
    assert_eq!(game.get_current_player(), Some(&"mick".to_string()));
}

#[test]
fn game2_remove_the_only_player() {
    let mut game = RedOrBlack::new(vec!["mick".to_string()]);
    assert_eq!(game.get_current_player(), Some(&"mick".to_string()));
    game.remove_player("mick");
    assert_eq!(game.get_current_player(), None);
}

#[test]
fn game2_remove_one_of_two_players() {
    let mut game = RedOrBlack::new(vec!["mick".to_string(), "john".to_string()]);
    assert_eq!(game.get_current_player(), Some(&"mick".to_string()));
    game.remove_player("mick");
    assert_eq!(game.get_current_player(), Some(&"john".to_string()));
}

#[test]
fn game2_add_player() {
    let mut game = RedOrBlack::new(vec![]);
    assert_eq!(game.get_current_player(), None);
    assert_eq!(game.next_player(), None);

    game.add_player("mick".to_string());
    assert_eq!(game.get_current_player(), Some(&"mick".to_string()));
    assert_eq!(game.next_player(), Some(&"mick".to_string()));

    game.add_player("john".to_string());
    assert_eq!(game.get_current_player(), Some(&"mick".to_string()));
    assert_eq!(game.next_player(), Some(&"john".to_string()));

    assert_eq!(game.next_player(), Some(&"mick".to_string()));
    game.add_player("begbie".to_string());
    assert_eq!(game.get_current_player(), Some(&"mick".to_string()));
    assert_eq!(game.next_player(), Some(&"john".to_string()));
    assert_eq!(game.next_player(), Some(&"begbie".to_string()));
}

#[test]
fn game2_validate_guess() {
    let game = RedOrBlack::new(vec!["mick".to_string()]);
    assert_eq!(
        game.validate_guess(
            &CardColour::Red,
            Card {
                value: Value::Ace,
                suit: Suit::Heart,
            }
        ),
        true
    );

    assert_eq!(
        game.validate_guess(
            &CardColour::Black,
            Card {
                value: Value::Ace,
                suit: Suit::Diamond,
            }
        ),
        false
    );

    assert_eq!(
        game.validate_guess(
            &CardColour::Red,
            Card {
                value: Value::Ace,
                suit: Suit::Spade,
            }
        ),
        false
    );

    assert_eq!(
        game.validate_guess(
            &CardColour::Black,
            Card {
                value: Value::Ace,
                suit: Suit::Club,
            }
        ),
        true
    );
}
