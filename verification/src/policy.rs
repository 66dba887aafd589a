use vstd::prelude::*;
use crate::combatant::Combatant;
use crate::rng::draw_below_nine;

verus! {

/// What the enemy does in a round. A block nullifies the whole exchange:
/// neither side's health changes that round. A stumble is an attack that
/// deals nothing.
#[derive(Clone, Copy, Debug, PartialEq, Eq, Structural)]
pub enum EnemyAction {
    Hit(i32),
    Block,
    Stumble,
}

/// The enemy policy over a uniform draw in the range zero to eight. An enemy
/// with exactly two unlocked moves hits for 8 points on draws zero to four,
/// blocks on five to seven and stumbles on eight; any other unlock count
/// degenerates to a stumble rather than an error.
pub open spec fn enemy_action_of(moves_unlocked: u8, draw: u8) -> EnemyAction {
    if moves_unlocked == 2 {
        if draw <= 4 {
            EnemyAction::Hit(8)
        } else if draw <= 7 {
            EnemyAction::Block
        } else {
            EnemyAction::Stumble
        }
    } else {
        EnemyAction::Stumble
    }
}

/// Whole health points the action takes from the hero when the round is not
/// blocked: the hit damage, or nothing for a stumble.
pub open spec fn action_damage(a: EnemyAction) -> int {
    match a {
        EnemyAction::Hit(d) => d as int,
        EnemyAction::Block => 0,
        EnemyAction::Stumble => 0,
    }
}

/// Decide the enemy's action from an injected draw. Deterministic: this is
/// the seam through which tests and callers control the randomness.
pub fn enemy_decide(enemy: &Combatant, draw: u8) -> (a: EnemyAction)
    requires
        draw < 9,
    ensures
        a == enemy_action_of(enemy.moves_unlocked, draw),
{
    if enemy.moves_unlocked == 2 {
        if draw <= 4 {
            EnemyAction::Hit(8)
        } else if draw <= 7 {
            EnemyAction::Block
        } else {
            EnemyAction::Stumble
        }
    } else {
        EnemyAction::Stumble
    }
}

/// Decide the enemy's action from a fresh uniform draw. Whatever the draw,
/// the action is the policy's answer for some draw below nine.
pub fn enemy_move(enemy: &Combatant) -> (a: EnemyAction)
    ensures
        exists|draw: u8| draw < 9 && a == enemy_action_of(enemy.moves_unlocked, draw),
{
    let draw = draw_below_nine();
    let a = enemy_decide(enemy, draw);
    proof {
        assert(draw < 9 && a == enemy_action_of(enemy.moves_unlocked, draw));
    }
    a
}

} // verus!
