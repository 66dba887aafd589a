use vstd::prelude::*;
use crate::combatant::Combatant;

verus! {

/// The two player moves of the fight.
#[derive(Clone, Copy, Debug, PartialEq, Eq, Structural)]
pub enum MoveKey {
    Punch,
    Kick,
}

/// How a move's accuracy is decided. A round's hit draw is a uniform value
/// in the range zero to eight inclusive; `DrawAtMost(t)` lands exactly when
/// that draw is at most `t`, while `Certain` always lands.
#[derive(Clone, Copy, Debug, PartialEq, Eq, Structural)]
pub enum Accuracy {
    Certain,
    DrawAtMost(u8),
}

/// A static move definition from the catalog.
#[derive(Clone, Copy, Debug, PartialEq, Eq, Structural)]
pub struct MoveDef {
    /// How many moves a combatant must have unlocked to use this one.
    pub required_unlocked: u8,
    /// Whole health points dealt when the move lands.
    pub damage: i32,
    pub accuracy: Accuracy,
}

/// The recoverable error of the combat core: the requested move exceeds the
/// combatant's unlock level. The round is not resolved and no state changes.
#[derive(Clone, Copy, Debug, PartialEq, Eq, Structural)]
pub enum CombatError {
    MoveUnavailable,
}

/// The move catalog: a punch needs one unlocked move, deals 9 points and
/// always lands; a kick needs two, deals 20 points and lands on half of the
/// nine possible hit draws.
pub open spec fn spec_move_def(key: MoveKey) -> MoveDef {
    match key {
        MoveKey::Punch => MoveDef {
            required_unlocked: 1,
            damage: 9,
            accuracy: Accuracy::Certain,
        },
        MoveKey::Kick => MoveDef {
            required_unlocked: 2,
            damage: 20,
            accuracy: Accuracy::DrawAtMost(4),
        },
    }
}

/// A combatant may use a move when its unlock threshold is within reach.
pub open spec fn available(moves_unlocked: u8, key: MoveKey) -> bool {
    spec_move_def(key).required_unlocked <= moves_unlocked
}

/// Whether a move lands for a given hit draw in the range zero to eight.
pub open spec fn move_lands(key: MoveKey, hit_draw: u8) -> bool {
    match spec_move_def(key).accuracy {
        Accuracy::Certain => true,
        Accuracy::DrawAtMost(t) => hit_draw <= t,
    }
}

/// Look a move up in the catalog.
pub fn move_def(key: MoveKey) -> (m: MoveDef)
    ensures
        m == spec_move_def(key),
{
    match key {
        MoveKey::Punch => MoveDef {
            required_unlocked: 1,
            damage: 9,
            accuracy: Accuracy::Certain,
        },
        MoveKey::Kick => MoveDef {
            required_unlocked: 2,
            damage: 20,
            accuracy: Accuracy::DrawAtMost(4),
        },
    }
}

/// Look a move up for a combatant, rejecting it when the combatant has not
/// unlocked enough moves.
pub fn lookup(c: &Combatant, key: MoveKey) -> (r: Result<MoveDef, CombatError>)
    ensures
        available(c.moves_unlocked, key) ==> r == Ok::<MoveDef, CombatError>(spec_move_def(key)),
        !available(c.moves_unlocked, key) ==> r == Err::<MoveDef, CombatError>(
            CombatError::MoveUnavailable,
        ),
{
    let m = move_def(key);
    if m.required_unlocked <= c.moves_unlocked {
        Ok(m)
    } else {
        Err(CombatError::MoveUnavailable)
    }
}

} // verus!
