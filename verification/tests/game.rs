use color_guess::{Action, Color, Event, Game, ParseError, Phase, WIN_THRESHOLD};

fn line(text: &str) -> Event {
    Event::Line(String::from(text))
}

/// A round for a black target that awaits a guess.
fn awaiting_black() -> Game {
    let game = Game::new(Color::new(0, 0, 0), WIN_THRESHOLD);
    let (game, _) = game.step(&Event::Begin);
    game
}

#[test]
fn new_game_announces_first() {
    let target = Color::new(9, 8, 7);
    let game = Game::new(target, 90);
    assert_eq!(game, Game { target, threshold: 90, phase: Phase::Announcing });
    let (next, action) = game.step(&Event::Begin);
    assert_eq!(action, Action::Announce { target });
    assert_eq!(next, Game { target, threshold: 90, phase: Phase::AwaitingValidGuess });
    assert_eq!(WIN_THRESHOLD, 90);
}

#[test]
fn exact_guess_wins() {
    let game = awaiting_black();
    let (next, action) = game.step(&line("#000000"));
    assert_eq!(
        action,
        Action::Score { guess: Color::new(0, 0, 0), accuracy: 10000, won: true }
    );
    assert_eq!(next.phase, Phase::Won);
    assert!(next.is_won());
    assert_eq!(next.target, Color::new(0, 0, 0));
}

#[test]
fn opposite_guess_scores_nothing_and_asks_again() {
    let game = awaiting_black();
    let (next, action) = game.step(&line("#ffffff"));
    assert_eq!(
        action,
        Action::Score { guess: Color::new(255, 255, 255), accuracy: 0, won: false }
    );
    assert_eq!(next, game);
    assert!(!next.is_won());
}

#[test]
fn bad_guess_is_retracted_and_changes_nothing() {
    let game = awaiting_black();
    let (next, action) = game.step(&line("zzzzzz"));
    assert_eq!(action, Action::Retract { error: ParseError::InvalidHexDigit });
    assert_eq!(next, game);
    let (next, action) = next.step(&line("12345"));
    assert_eq!(action, Action::Retract { error: ParseError::InvalidLength });
    assert_eq!(next, game);
    // The guess after them is scored as it would have been without them.
    assert_eq!(next.step(&line("#000000")), game.step(&line("#000000")));
    assert_eq!(next.step(&line("#000000")).0.phase, Phase::Won);
}

#[test]
fn failed_read_asks_again() {
    let game = awaiting_black();
    let (next, action) = game.step(&Event::ReadFailed);
    assert_eq!(action, Action::Reprompt);
    assert_eq!(next, game);
}

#[test]
fn guess_is_not_trimmed() {
    let game = awaiting_black();
    let (next, action) = game.step(&line(" 000000 "));
    assert_eq!(action, Action::Retract { error: ParseError::InvalidLength });
    assert_eq!(next, game);
}

#[test]
fn win_needs_more_than_the_threshold() {
    let game = awaiting_black();
    // Distance 76: 90.07 percent.
    let (next, action) = game.step(&line("4c0000"));
    assert_eq!(
        action,
        Action::Score { guess: Color::new(76, 0, 0), accuracy: 9007, won: true }
    );
    assert_eq!(next.phase, Phase::Won);
    // Distance 77: 89.93 percent.
    let (next, action) = game.step(&line("004d00"));
    assert_eq!(
        action,
        Action::Score { guess: Color::new(0, 77, 0), accuracy: 8993, won: false }
    );
    assert_eq!(next.phase, Phase::AwaitingValidGuess);
    // Exactly at the threshold is not above it.
    let at_eighty = Game {
        target: Color::new(0, 0, 0),
        threshold: 80,
        phase: Phase::AwaitingValidGuess,
    };
    let (next, action) = at_eighty.step(&line("990000"));
    assert_eq!(
        action,
        Action::Score { guess: Color::new(153, 0, 0), accuracy: 8000, won: false }
    );
    assert_eq!(next, at_eighty);
}

#[test]
fn threshold_of_one_hundred_is_never_passed() {
    let game = Game {
        target: Color::new(1, 2, 3),
        threshold: 100,
        phase: Phase::AwaitingValidGuess,
    };
    let (next, action) = game.step(&line("010203"));
    assert_eq!(
        action,
        Action::Score { guess: Color::new(1, 2, 3), accuracy: 10000, won: false }
    );
    assert_eq!(next, game);
}

#[test]
fn events_out_of_place_do_nothing() {
    let fresh = Game::new(Color::new(0, 0, 0), 90);
    assert_eq!(fresh.step(&line("#000000")), (fresh, Action::Nothing));
    assert_eq!(fresh.step(&Event::ReadFailed), (fresh, Action::Nothing));
    let awaiting = awaiting_black();
    assert_eq!(awaiting.step(&Event::Begin), (awaiting, Action::Nothing));
}

#[test]
fn won_game_stays_won() {
    let (won, _) = awaiting_black().step(&line("000000"));
    assert!(won.is_won());
    for event in [Event::Begin, Event::ReadFailed, line("ffffff"), line("zzzzzz"), line("000000")] {
        assert_eq!(won.step(&event), (won, Action::Nothing));
    }
}

#[test]
fn target_stays_through_a_whole_round() {
    let target = Color::new(200, 100, 50);
    let mut game = Game::new(target, 90);
    let events = [
        Event::Begin,
        line("nothing"),
        Event::ReadFailed,
        line("#000000"),
        line("c86400"),
        line("#c86432"),
        line("#ffffff"),
    ];
    let mut actions = Vec::new();
    for event in &events {
        let (next, action) = game.step(event);
        assert_eq!(next.target, target);
        assert_eq!(next.threshold, 90);
        game = next;
        actions.push(action);
    }
    assert_eq!(
        actions,
        vec![
            Action::Announce { target },
            Action::Retract { error: ParseError::InvalidLength },
            Action::Reprompt,
            Action::Score { guess: Color::new(0, 0, 0), accuracy: 5425, won: false },
            Action::Score { guess: Color::new(200, 100, 0), accuracy: 9346, won: true },
            Action::Nothing,
            Action::Nothing,
        ]
    );
    assert!(game.is_won());
}
