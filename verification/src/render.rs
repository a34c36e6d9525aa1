//! What the game writes to a terminal: a colour as a block of blanks on a
//! background of that colour, and the control sequence that takes back the
//! last line.

use crate::color::Color;
use crate::decimal::decimal;
use colored::Colorize;
use vstd::prelude::*;

verus! {

/// The number of blanks in a colour block.
pub const BLOCK_WIDTH: usize = 20;

/// A colour block before it is painted: twenty blanks.
pub open spec fn blank_block() -> Seq<char> {
    Seq::new(BLOCK_WIDTH as nat, |i: int| ' ')
}

/// The terminal control sequence with the given parameters and final
/// character: `ESC [`, the parameters, the final character.
pub open spec fn control_sequence(parameters: Seq<char>, last: char) -> Seq<char> {
    seq!['\x1b', '['] + parameters + seq![last]
}

/// The parameters that select a background by its red, green and blue
/// values: `48;2;`, then the three values in decimal with `;` between them.
pub open spec fn truecolor_background(red: u8, green: u8, blue: u8) -> Seq<char> {
    seq!['4', '8', ';', '2', ';'] + decimal(red as nat) + seq![';'] + decimal(green as nat)
        + seq![';'] + decimal(blue as nat)
}

/// Whether `n` selects one of the sixteen basic backgrounds.
pub open spec fn is_basic_background(n: nat) -> bool {
    40 <= n <= 47 || 100 <= n <= 107
}

/// The sequence that sets the terminal back to its defaults.
pub open spec fn reset_sequence() -> Seq<char> {
    control_sequence(seq!['0'], 'm')
}

/// Whether `style` may stand before a text that is shown on the given
/// colour: the sequence that selects exactly that background, or one that
/// selects a basic background in its place, or nothing.
pub open spec fn is_background_style(style: Seq<char>, red: u8, green: u8, blue: u8) -> bool {
    ||| style == control_sequence(truecolor_background(red, green, blue), 'm')
    ||| exists|n: nat|
        is_basic_background(n) && style == control_sequence(#[trigger] decimal(n), 'm')
    ||| style == Seq::<char>::empty()
}

/// Whether `painted` is `text` as it is, or `text` between a background
/// style for the given colour and the reset sequence.
pub open spec fn is_painted(
    painted: Seq<char>,
    text: Seq<char>,
    red: u8,
    green: u8,
    blue: u8,
) -> bool {
    ||| painted == text
    ||| exists|style: Seq<char>| #[trigger]
        is_background_style(style, red, green, blue) && painted == style + text + reset_sequence()
}

/// The two control sequences that take back the last line: cursor to the
/// start of the line above (`ESC [ F`), then erase that line (`ESC [ 2 K`).
pub open spec fn erase_sequence() -> Seq<char> {
    control_sequence(Seq::empty(), 'F') + control_sequence(seq!['2'], 'K')
}

/// Formats `text` for a terminal on a background of the given colour.
///
/// This is `colored::Colorize::on_truecolor` on `text`, and the `Display` of
/// the `ColoredString` that it returns. What comes out is decided by the
/// process's colour settings, which that crate takes from environment
/// variables and from whether the output is a terminal: with colours off,
/// the text as it is; with colours on, the text between a style and the
/// reset sequence. The style selects the given colour where the terminal is
/// known to take 24-bit colours, and else the basic colour that the crate
/// finds nearest. The settings are read more than once while the text is
/// written, so if they are switched off in between, the style can be missing
/// before a text that still ends in the reset sequence.
///
/// A text that itself holds the escape character may come out changed,
/// and nothing is claimed of it.
#[verifier::external_body]
fn paint_background(text: &str, red: u8, green: u8, blue: u8) -> (painted: String)
    ensures
        !text@.contains('\x1b') ==> is_painted(painted@, text@, red, green, blue),
{
    text.on_truecolor(red, green, blue).to_string()
}

impl Color {
    /// This colour as a block for the terminal: twenty blanks on a
    /// background of this colour, as far as the terminal and the colour
    /// settings allow.
    pub fn render(&self) -> (block: String)
        ensures
            is_painted(block@, blank_block(), self.red, self.green, self.blue),
    {
        let blank = "                    ";
        proof {
            reveal_strlit("                    ");
            assert(blank@ =~= blank_block());
        }
        paint_background(blank, self.red, self.green, self.blue)
    }
}

/// The text that, written to a terminal, takes back the last line: the
/// cursor moves up one line and that line is cleared.
pub fn erase_last_line() -> (sequence: &'static str)
    ensures
        sequence@ == erase_sequence(),
{
    let sequence = "\x1b[F\x1b[2K";
    proof {
        reveal_strlit("\x1b[F\x1b[2K");
        assert(sequence@ =~= erase_sequence());
    }
    sequence
}

} // verus!
