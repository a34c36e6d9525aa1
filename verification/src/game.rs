//! The course of one round, as a machine that is told what happened at the
//! terminal and answers with what to do there next.
//!
//! The caller owns the terminal. It hands every event to [`Game::step`],
//! carries on with the game that comes back, and performs the action that
//! comes with it.

use crate::accuracy::{accuracy_spec, distance_spec, exceeds_spec, FULL_ACCURACY};
use crate::color::{can_be_drawn, Color};
use crate::hex::{parse_spec, ParseError};
use vstd::prelude::*;

verus! {

/// The accuracy, in percent, that a guess must exceed to win.
pub const WIN_THRESHOLD: u8 = 90;

/// Where a round stands.
///
/// A guess is scored within the step that takes it, so there is no phase in
/// which a score is pending.
#[derive(Clone, Copy, Debug, PartialEq, Eq, Structural)]
pub enum Phase {
    /// The target has not been shown yet.
    Announcing,
    /// The target is on show, and a guess is awaited.
    AwaitingValidGuess,
    /// A guess has passed the threshold. The round is over.
    Won,
}

/// One round: the colour to guess, the accuracy to exceed, and the phase.
#[derive(Clone, Copy, Debug, PartialEq, Eq, Structural)]
pub struct Game {
    pub target: Color,
    pub threshold: u8,
    pub phase: Phase,
}

/// What happened at the terminal.
#[derive(Debug, PartialEq, Eq)]
pub enum Event {
    /// The round is to begin.
    Begin,
    /// A line was read. It holds the line without the blanks around it.
    Line(String),
    /// A line was asked for and could not be read.
    ReadFailed,
}

/// What to do at the terminal.
#[derive(Clone, Copy, Debug, PartialEq, Eq, Structural)]
pub enum Action {
    /// Show the target and ask for the first guess.
    Announce { target: Color },
    /// Report that reading failed and ask again.
    Reprompt,
    /// Take the prompt line back, show why the line is no colour, and ask
    /// again.
    Retract { error: ParseError },
    /// Take the prompt line back and show in its place the accuracy of the
    /// guess, in hundredths of a percent, the line as it was typed and the
    /// guessed colour. Then, if the round is won, say so and stop; if not,
    /// ask again.
    Score { guess: Color, accuracy: u16, won: bool },
    /// The event has no place in this phase: do nothing.
    Nothing,
}

/// The game after a guess at the given distance from the target: won if the
/// accuracy is above the threshold, and as before if not.
pub open spec fn after_guess(game: Game, distance: int) -> Game {
    if exceeds_spec(distance, game.threshold as int) {
        Game { phase: Phase::Won, ..game }
    } else {
        game
    }
}

/// The game after `event`, and the action that answers it.
pub open spec fn step_spec(game: Game, event: Event) -> (Game, Action) {
    match (game.phase, event) {
        (Phase::Announcing, Event::Begin) => (
            Game { phase: Phase::AwaitingValidGuess, ..game },
            Action::Announce { target: game.target },
        ),
        (Phase::AwaitingValidGuess, Event::ReadFailed) => (game, Action::Reprompt),
        (Phase::AwaitingValidGuess, Event::Line(line)) => match parse_spec(line@) {
            Err(error) => (game, Action::Retract { error }),
            Ok(guess) => {
                let distance = distance_spec(game.target, guess);
                (
                    after_guess(game, distance),
                    Action::Score {
                        guess,
                        accuracy: accuracy_spec(distance) as u16,
                        won: exceeds_spec(distance, game.threshold as int),
                    },
                )
            },
        },
        _ => (game, Action::Nothing),
    }
}

/// The game after all of `events`, one after the other.
pub open spec fn run_spec(game: Game, events: Seq<Event>) -> Game
    decreases events.len(),
{
    if events.len() == 0 {
        game
    } else {
        step_spec(run_spec(game, events.drop_last()), events.last()).0
    }
}

impl Game {
    /// A round for the given target that has not begun.
    pub fn new(target: Color, threshold: u8) -> (game: Game)
        ensures
            game == (Game { target, threshold, phase: Phase::Announcing }),
    {
        Game { target, threshold, phase: Phase::Announcing }
    }

    /// A round that has not begun, for a target drawn at random.
    pub fn with_random_target(threshold: u8) -> (game: Game)
        ensures
            can_be_drawn(game.target),
            game.threshold == threshold,
            game.phase == Phase::Announcing,
    {
        Game::new(Color::generate_random(), threshold)
    }

    /// Whether the round is over.
    pub fn is_won(&self) -> (won: bool)
        ensures
            won == (self.phase == Phase::Won),
    {
        match self.phase {
            Phase::Won => true,
            _ => false,
        }
    }

    /// Takes one event: returns the game as it then stands and what to do
    /// at the terminal.
    pub fn step(&self, event: &Event) -> (next: (Game, Action))
        ensures
            next == step_spec(*self, *event),
    {
        match (self.phase, event) {
            (Phase::Announcing, Event::Begin) => (
                Game {
                    target: self.target,
                    threshold: self.threshold,
                    phase: Phase::AwaitingValidGuess,
                },
                Action::Announce { target: self.target },
            ),
            (Phase::AwaitingValidGuess, Event::ReadFailed) => (*self, Action::Reprompt),
            (Phase::AwaitingValidGuess, Event::Line(line)) => match Color::parse(line.as_str()) {
                Err(error) => (*self, Action::Retract { error }),
                Ok(guess) => {
                    let accuracy: u16 = self.target.calc_accuracy(&guess);
                    let won: bool = self.target.exceeds(&guess, self.threshold);
                    let phase = if won {
                        Phase::Won
                    } else {
                        Phase::AwaitingValidGuess
                    };
                    (
                        Game { target: self.target, threshold: self.threshold, phase },
                        Action::Score { guess, accuracy, won },
                    )
                },
            },
            _ => (*self, Action::Nothing),
        }
    }
}

/// Whatever happens, the target and the threshold of a round stay as they
/// were.
pub proof fn lemma_target_is_fixed(game: Game, events: Seq<Event>)
    ensures
        run_spec(game, events).target == game.target,
        run_spec(game, events).threshold == game.threshold,
    decreases events.len(),
{
    if events.len() > 0 {
        lemma_target_is_fixed(game, events.drop_last());
    }
}

/// A round that is won stays won, and nothing changes it.
pub proof fn lemma_won_is_final(game: Game, events: Seq<Event>)
    requires
        game.phase == Phase::Won,
    ensures
        run_spec(game, events) == game,
    decreases events.len(),
{
    if events.len() > 0 {
        lemma_won_is_final(game, events.drop_last());
    }
}

/// A line that is no colour, and a read that failed, leave the round as it
/// was: the next guess is scored as if they had never come.
pub proof fn lemma_rejected_input_changes_nothing(game: Game, event: Event)
    requires
        event is ReadFailed || (event is Line && parse_spec(event->Line_0@) is Err),
    ensures
        step_spec(game, event).0 == game,
        !(step_spec(game, event).1 is Score),
{
}

/// Whether `event` is a winning guess in `game`: a guess is awaited, and
/// the event is a line that is a colour whose accuracy is above the
/// threshold.
pub open spec fn is_winning_guess(game: Game, event: Event) -> bool {
    &&& game.phase == Phase::AwaitingValidGuess
    &&& event matches Event::Line(line)
    &&& parse_spec(line@) matches Ok(guess)
    &&& exceeds_spec(distance_spec(game.target, guess), game.threshold as int)
}

/// A step ends in a won round exactly if the round was won before or the
/// event is a winning guess.
pub proof fn lemma_won_exactly_above_threshold(game: Game, event: Event)
    ensures
        step_spec(game, event).0.phase == Phase::Won <==> game.phase == Phase::Won
            || is_winning_guess(game, event),
{
}

/// Guessing the target itself scores the full accuracy, and wins wherever
/// the threshold is below 100 percent.
pub proof fn lemma_exact_guess_wins(game: Game, line: String)
    requires
        game.phase == Phase::AwaitingValidGuess,
        parse_spec(line@) == Ok::<Color, ParseError>(game.target),
    ensures
        step_spec(game, Event::Line(line)).1 == (Action::Score {
            guess: game.target,
            accuracy: FULL_ACCURACY,
            won: game.threshold < 100,
        }),
        game.threshold < 100 ==> step_spec(game, Event::Line(line)).0.phase == Phase::Won,
{
}

} // verus!
