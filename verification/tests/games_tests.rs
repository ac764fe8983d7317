use the_book::chat::{student_action, ChatMessage, Presenter, StudentAction, NUMBER_OF_CONCEPTS, NUMBER_OF_STUDENTS};
use the_book::games::{
    draw_digit, draw_secret_number, evaluate_guess, is_numeric_input, GuessOutcome, MemoryGame,
    TurnOutcome,
};

#[test]
fn numeric_input_is_digits_only() {
    assert!(is_numeric_input("0123456789"));
    assert!(is_numeric_input(""));
    assert!(!is_numeric_input("12a"));
    assert!(!is_numeric_input("12 3"));
    assert!(!is_numeric_input("-5"));
    assert!(!is_numeric_input("12\n"));
}

#[test]
fn guesses_compare_with_the_secret() {
    assert_eq!(evaluate_guess(50, 30), GuessOutcome::TooSmall);
    assert_eq!(evaluate_guess(50, 70), GuessOutcome::TooBig);
    assert_eq!(evaluate_guess(50, 50), GuessOutcome::Correct);
}

#[test]
fn draws_stay_in_their_ranges() {
    for _ in 0..100 {
        let secret = draw_secret_number();
        assert!((1..=100).contains(&secret));
        let digit = draw_digit();
        assert!(digit < 10);
    }
}

#[test]
fn memory_game_extends_and_ends() {
    let mut game = MemoryGame::new();
    assert_eq!(game.len(), 0);

    // First turn: any single digit opens the game; the computer answers.
    let outcome = game.turn(vec![7], 3);
    assert_eq!(outcome, TurnOutcome::Extended);
    assert_eq!(game.len(), 2);
    assert_eq!(game.digit_at(0), 7);
    assert_eq!(game.digit_at(1), 3);

    // Repeating the sequence without a new digit is not enough.
    let outcome = game.turn(vec![7, 3], 1);
    assert_eq!(outcome, TurnOutcome::NeedNewNumber);
    assert_eq!(game.len(), 2);

    // A correct repetition plus a new digit extends the sequence.
    let outcome = game.turn(vec![7, 3, 9], 5);
    assert_eq!(outcome, TurnOutcome::Extended);
    assert_eq!(game.len(), 4);
    assert_eq!(game.digit_at(2), 9);
    assert_eq!(game.digit_at(3), 5);

    // Misremembering ends the game; the computer's final digit is not
    // counted as remembered.
    let outcome = game.turn(vec![7, 4, 9, 5, 2], 8);
    assert_eq!(outcome, TurnOutcome::Lost { remembered: 3 });
    assert_eq!(game.len(), 4);
}

#[test]
fn chat_messages_keep_their_fields() {
    let msg = ChatMessage::new("Student_1", "Amazing thing #1 is cool!");
    assert_eq!(msg.username, "Student_1");
    assert_eq!(msg.text, "Amazing thing #1 is cool!");
}

#[test]
fn presenter_keeps_the_name() {
    let presenter = Presenter::new("Mat");
    assert_eq!(presenter.name, "Mat");
}

#[test]
fn every_third_concept_is_spoken() {
    assert_eq!(NUMBER_OF_STUDENTS, 3);
    assert_eq!(NUMBER_OF_CONCEPTS, 6);
    for i in 1..=NUMBER_OF_CONCEPTS {
        let action = student_action(i);
        if i % 3 == 0 {
            assert_eq!(action, StudentAction::Speak);
        } else {
            assert_eq!(action, StudentAction::Chat);
        }
    }
}
