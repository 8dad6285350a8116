use odd_even::game::Game;
use odd_even::server::handle_datagram;
use odd_even::server::lose_message;
use odd_even::server::win_message;
use odd_even::server::ServerStep;

#[test]
fn a_full_round_announces_winner_and_resets() {
    let mut game: Game<String> = Game::new();
    let a = String::from("127.0.0.1:888");
    let b = String::from("127.0.0.1:881");

    let first = handle_datagram(&mut game, b"2 1".to_vec(), a.clone());
    assert_eq!(first, ServerStep::Waiting);

    let second = handle_datagram(&mut game, b"1 3".to_vec(), b.clone());
    assert_eq!(second, ServerStep::RoundOver { winner: b, loser: a.clone() });

    assert_eq!(game.can_guess(), false);
    assert_eq!(handle_datagram(&mut game, b"1 2".to_vec(), a), ServerStep::Waiting);
}

#[test]
fn an_odd_sum_hands_the_round_to_the_odd_player() {
    let mut game: Game<String> = Game::new();
    let a = String::from("a");
    let b = String::from("b");

    assert_eq!(handle_datagram(&mut game, b"2 2".to_vec(), a.clone()), ServerStep::Waiting);
    assert_eq!(
        handle_datagram(&mut game, b"1 3".to_vec(), b.clone()),
        ServerStep::RoundOver { winner: a, loser: b }
    );
}

#[test]
fn a_bad_payload_replies_and_changes_nothing() {
    let mut game: Game<String> = Game::new();
    let a = String::from("a");

    let step = handle_datagram(&mut game, b"nonsense".to_vec(), a.clone());
    assert_eq!(
        step,
        ServerStep::Reply(String::from("You must pass exactly 2 arguments."))
    );
    assert!(!game.contain_address(&a));
}

#[test]
fn a_repeated_sender_gets_the_fixed_reply() {
    let mut game: Game<String> = Game::new();
    let a = String::from("a");

    assert_eq!(handle_datagram(&mut game, b"1 2".to_vec(), a.clone()), ServerStep::Waiting);
    assert_eq!(
        handle_datagram(&mut game, b"2 3".to_vec(), a),
        ServerStep::Reply(String::from(
            "The game already contain your play. Wait for other player."
        ))
    );
}

#[test]
fn a_taken_slot_gets_the_fixed_reply() {
    let mut game: Game<String> = Game::new();
    let a = String::from("a");
    let b = String::from("b");

    assert_eq!(handle_datagram(&mut game, b"1 2".to_vec(), a), ServerStep::Waiting);
    assert_eq!(
        handle_datagram(&mut game, b"1 4".to_vec(), b),
        ServerStep::Reply(String::from(
            "You tried to play 'Even(4)' but this play option was already taken. Choose the other."
        ))
    );
}

#[test]
fn a_validation_failure_is_reported_to_the_sender() {
    let mut game: Game<String> = Game::new();
    let step = handle_datagram(&mut game, b"1 9".to_vec(), String::from("a"));
    assert_eq!(
        step,
        ServerStep::Reply(String::from("9 is out of range. The number must be from 1 to 5."))
    );
}

#[test]
fn the_announcements_are_fixed() {
    assert_eq!(win_message(), "You've win!!\nGame will refresh automatically!");
    assert_eq!(lose_message(), "You've lost!\nGame will refresh automatically!");
}
