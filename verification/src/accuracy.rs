//! How close a guess is to the target.
//!
//! Two colours are compared channel by channel: the gaps between the reds,
//! the greens and the blues are added up, which gives a distance from 0 (the
//! same colour) to 765 (black against white). The accuracy is the share of
//! those 765 steps that the guess did not miss, as a percentage. It is kept
//! in whole numbers: as the distance itself where an exact answer is needed,
//! and in hundredths of a percent where it is shown.

use crate::color::Color;
use crate::decimal::{decimal, decimal_digit, decimal_text, digit_text};
use vstd::prelude::*;
use vstd::string::StringExecFns;

verus! {

/// The greatest distance there is between two colours.
pub const MAX_DISTANCE: u16 = 765;

/// The accuracy of a perfect match, in hundredths of a percent.
pub const FULL_ACCURACY: u16 = 10000;

/// How far apart two values of one channel are.
pub open spec fn channel_gap(a: u8, b: u8) -> int {
    if a <= b {
        b - a
    } else {
        a - b
    }
}

/// The distance between two colours: the sum of their three channel gaps.
pub open spec fn distance_spec(a: Color, b: Color) -> int {
    channel_gap(a.red, b.red) + channel_gap(a.green, b.green) + channel_gap(a.blue, b.blue)
}

/// The accuracy at the given distance in hundredths of a percent, rounded
/// to the nearest: `100 - distance / 765 * 100`, times one hundred.
pub open spec fn accuracy_spec(distance: int) -> int {
    ((765 - distance) * 20000 + 765) / 1530
}

/// Whether the accuracy at the given distance is strictly above `percent`.
///
/// This compares the exact accuracy, not the rounded one.
pub open spec fn exceeds_spec(distance: int, percent: int) -> bool {
    (765 - distance) * 100 > percent * 765
}

/// An accuracy as it is shown: the whole percents, a point, and the two
/// digits of the hundredths.
pub open spec fn accuracy_text_spec(hundredths: nat) -> Seq<char> {
    decimal(hundredths / 100) + seq![
        '.',
        decimal_digit(hundredths / 10 % 10),
        decimal_digit(hundredths % 10),
    ]
}

/// How far apart two values of one channel are.
fn gap(a: u8, b: u8) -> (apart: u8)
    ensures
        apart == channel_gap(a, b),
{
    if a <= b {
        b - a
    } else {
        a - b
    }
}

impl Color {
    /// The distance from this colour to `other`, from 0 to 765.
    pub fn distance(&self, other: &Color) -> (distance: u16)
        ensures
            distance == distance_spec(*self, *other),
            distance <= MAX_DISTANCE,
    {
        let red: u16 = gap(self.red, other.red) as u16;
        let green: u16 = gap(self.green, other.green) as u16;
        let blue: u16 = gap(self.blue, other.blue) as u16;
        red + green + blue
    }

    /// How well this colour matches `answer`, in hundredths of a percent:
    /// 10000 for the same colour, 0 for black against white.
    pub fn calc_accuracy(&self, answer: &Color) -> (accuracy: u16)
        ensures
            accuracy == accuracy_spec(distance_spec(*self, *answer)),
            accuracy <= FULL_ACCURACY,
    {
        let matched: u32 = (MAX_DISTANCE - self.distance(answer)) as u32;
        ((matched * 20000 + 765) / 1530) as u16
    }

    /// Whether this colour matches `answer` with an accuracy strictly above
    /// `percent`.
    pub fn exceeds(&self, answer: &Color, percent: u8) -> (above: bool)
        ensures
            above == exceeds_spec(distance_spec(*self, *answer), percent as int),
    {
        let matched: u32 = (MAX_DISTANCE - self.distance(answer)) as u32;
        matched * 100 > percent as u32 * 765
    }
}

/// The text of an accuracy given in hundredths of a percent, with two
/// decimals: `100.00` for 10000, `0.13` for 13.
pub fn accuracy_text(hundredths: u16) -> (text: String)
    ensures
        text@ == accuracy_text_spec(hundredths as nat),
{
    let text = decimal_text(hundredths / 100);
    let text = text.concat(".");
    let text = text.concat(digit_text((hundredths / 10 % 10) as u8));
    let text = text.concat(digit_text((hundredths % 10) as u8));
    proof {
        reveal_strlit(".");
        assert(text@ =~= accuracy_text_spec(hundredths as nat));
    }
    text
}

/// A colour matches itself perfectly.
pub proof fn lemma_accuracy_of_same_color(c: Color)
    ensures
        distance_spec(c, c) == 0,
        accuracy_spec(distance_spec(c, c)) == FULL_ACCURACY,
{
}

/// The accuracy does not depend on which colour is the guess and which the
/// answer.
pub proof fn lemma_accuracy_is_symmetric(a: Color, b: Color)
    ensures
        distance_spec(a, b) == distance_spec(b, a),
        accuracy_spec(distance_spec(a, b)) == accuracy_spec(distance_spec(b, a)),
        forall|percent: int|
            exceeds_spec(distance_spec(a, b), percent) == exceeds_spec(
                distance_spec(b, a),
                percent,
            ),
{
}

/// The accuracy lies between 0 and 100 percent and is the hundredth
/// nearest to the exact value `100 * (765 - distance) / 765`.
pub proof fn lemma_accuracy_is_nearest_hundredth(a: Color, b: Color)
    ensures
        0 <= distance_spec(a, b) <= 765,
        0 <= accuracy_spec(distance_spec(a, b)) <= 10000,
        -765 < 2 * (765 * accuracy_spec(distance_spec(a, b)) - 10000 * (765 - distance_spec(a, b)))
            < 765,
{
}

/// Only the same colour is at distance 0, and so only it is matched in full.
pub proof fn lemma_full_accuracy_means_same_color(a: Color, b: Color)
    ensures
        distance_spec(a, b) == 0 <==> a == b,
        accuracy_spec(distance_spec(a, b)) == FULL_ACCURACY <==> a == b,
{
}

} // verus!
