use color_guess::color::DRAW_BOUND;
use color_guess::{Color, Game, Phase};

#[test]
fn random_colors_stay_below_the_bound() {
    assert_eq!(DRAW_BOUND, 255);
    for _ in 0..20000 {
        let color = Color::generate_random();
        assert!(color.red < 255);
        assert!(color.green < 255);
        assert!(color.blue < 255);
    }
}

#[test]
fn random_colors_differ() {
    let first = Color::generate_random();
    let mut seen_other = false;
    for _ in 0..100 {
        if Color::generate_random() != first {
            seen_other = true;
        }
    }
    assert!(seen_other);
}

#[test]
fn random_channels_reach_both_ends() {
    let mut lowest = 255u8;
    let mut highest = 0u8;
    for _ in 0..20000 {
        let color = Color::generate_random();
        for channel in [color.red, color.green, color.blue] {
            lowest = lowest.min(channel);
            highest = highest.max(channel);
        }
    }
    assert_eq!(lowest, 0);
    assert_eq!(highest, 254);
}

#[test]
fn game_with_random_target_has_not_begun() {
    let game = Game::with_random_target(90);
    assert_eq!(game.threshold, 90);
    assert_eq!(game.phase, Phase::Announcing);
    assert!(game.target.red < 255 && game.target.green < 255 && game.target.blue < 255);
    assert!(!game.is_won());
}
