use vstd::prelude::*;
use crate::resolver::{RoundOutcome, Terminal};

verus! {

/// The presentation-facing event for one resolved round: keep fighting, or
/// the fight ended after the carried number of half-turn steps (two steps
/// make one displayed turn).
#[derive(Clone, Copy, Debug, PartialEq, Eq, Structural)]
pub enum FightEvent {
    Continue,
    Victory(u32),
    Defeat(u32),
}

/// The pure mapping from a round's terminal state to its event.
pub open spec fn spec_report(o: RoundOutcome) -> FightEvent {
    match o.terminal {
        Terminal::Undecided => FightEvent::Continue,
        Terminal::HeroWon => FightEvent::Victory(o.half_turns_elapsed),
        Terminal::HeroLost => FightEvent::Defeat(o.half_turns_elapsed),
    }
}

/// Map a round outcome to the event the presentation layer consumes. This
/// is the only coupling between the resolver and the rendering collaborator.
pub fn report(o: &RoundOutcome) -> (e: FightEvent)
    ensures
        e == spec_report(*o),
{
    match o.terminal {
        Terminal::Undecided => FightEvent::Continue,
        Terminal::HeroWon => FightEvent::Victory(o.half_turns_elapsed),
        Terminal::HeroLost => FightEvent::Defeat(o.half_turns_elapsed),
    }
}

} // verus!
