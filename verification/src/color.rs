//! The colour value and how one is drawn at random.

use rand::rngs::ThreadRng;
use rand::Rng;
use vstd::prelude::*;

verus! {

/// An RGB colour: one byte for each of red, green and blue.
#[derive(Clone, Copy, Debug, PartialEq, Eq, Structural)]
pub struct Color {
    pub red: u8,
    pub green: u8,
    pub blue: u8,
}

/// Every channel of a colour drawn at random is below this: it goes from 0
/// to 254, and 255 is never drawn.
pub const DRAW_BOUND: u8 = 255;

/// Whether `color` is one that can be drawn at random.
pub open spec fn can_be_drawn(color: Color) -> bool {
    &&& color.red < DRAW_BOUND
    &&& color.green < DRAW_BOUND
    &&& color.blue < DRAW_BOUND
}

/// The generator `rand::rngs::ThreadRng`, a handle to the calling thread's
/// random number generator. Nothing is known of what is inside it.
#[verifier::external_type_specification]
#[verifier::external_body]
pub struct ExThreadRng(rand::rngs::ThreadRng);

/// `rand::thread_rng` hands out the calling thread's generator. The system
/// seeds it on first use, and the program stops if it cannot. Nothing is
/// claimed of the generator.
pub assume_specification[ rand::thread_rng ]() -> (rng: rand::rngs::ThreadRng);

/// Draws a number from `low` up to, and without, `high` with
/// `rand::Rng::gen_range` on the half-open range between the two.
///
/// That method picks uniformly among the numbers of the range and stops the
/// program on a range that holds none, so `low` must be below `high`. Which
/// number comes out is left open: only that it is one of the range.
#[verifier::external_body]
fn draw_in_range(rng: &mut ThreadRng, low: u8, high: u8) -> (value: u8)
    requires
        low < high,
    ensures
        low <= value < high,
{
    rng.gen_range(low..high)
}

impl Default for Color {
    /// Black: every channel is 0.
    fn default() -> (color: Color)
        ensures
            color == (Color { red: 0, green: 0, blue: 0 }),
    {
        Color { red: 0, green: 0, blue: 0 }
    }
}

impl Color {
    /// The colour with the given channels.
    pub fn new(red: u8, green: u8, blue: u8) -> (color: Color)
        ensures
            color == (Color { red, green, blue }),
    {
        Color { red, green, blue }
    }

    /// A colour drawn at random: each channel on its own, from 0 to 254.
    pub fn generate_random() -> (color: Color)
        ensures
            can_be_drawn(color),
    {
        let mut rng = rand::thread_rng();
        let red = draw_in_range(&mut rng, 0, DRAW_BOUND);
        let green = draw_in_range(&mut rng, 0, DRAW_BOUND);
        let blue = draw_in_range(&mut rng, 0, DRAW_BOUND);
        Color::new(red, green, blue)
    }
}

} // verus!
