use color_guess::render::BLOCK_WIDTH;
use color_guess::{erase_last_line, Color};

const BLANKS: &str = "                    ";

/// What stands between `ESC [` and `m` before the blanks of a painted block.
fn style_of(block: &str) -> String {
    let body = block
        .strip_prefix("\u{1b}[")
        .expect("a painted block starts with a control sequence");
    let body = body
        .strip_suffix("\u{1b}[0m")
        .expect("a painted block ends with the reset sequence");
    let style = body
        .strip_suffix(BLANKS)
        .expect("a painted block holds twenty blanks");
    let style = style
        .strip_suffix("m")
        .expect("the style ends in m");
    String::from(style)
}

fn is_basic_background(style: &str) -> bool {
    match style.parse::<u32>() {
        Ok(n) => (40..=47).contains(&n) || (100..=107).contains(&n),
        Err(_) => false,
    }
}

#[test]
fn block_is_twenty_blanks_wide() {
    assert_eq!(BLOCK_WIDTH, 20);
    assert_eq!(BLANKS.len(), 20);
}

#[test]
fn painted_block_wraps_the_blanks() {
    colored::control::set_override(true);
    let block = Color::new(1, 2, 3).render();
    assert_ne!(block, BLANKS);
    let style = style_of(&block);
    assert!(style == "48;2;1;2;3" || is_basic_background(&style));
}

#[test]
fn painted_block_names_the_color() {
    colored::control::set_override(true);
    for color in [
        Color::new(0, 0, 0),
        Color::new(255, 255, 255),
        Color::new(10, 200, 99),
        Color::new(254, 0, 7),
    ] {
        let style = style_of(&color.render());
        let truecolor = format!("48;2;{};{};{}", color.red, color.green, color.blue);
        assert!(style == truecolor || is_basic_background(&style));
    }
}

#[test]
fn erase_sequence_moves_up_and_clears() {
    assert_eq!(erase_last_line(), "\u{1b}[F\u{1b}[2K");
    assert_eq!(erase_last_line().len(), 7);
}
