use vstd::prelude::*;

verus! {

/// A participant in the fight: the hero or the enemy.
///
/// Health is kept in whole points. It may drop below zero inside the round
/// that ends the fight; the termination check reads the raw value, so no
/// clamping happens before that comparison.
#[derive(Clone, Copy, Debug, PartialEq, Eq, Structural)]
pub struct Combatant {
    pub max_health: i32,
    pub current_health: i32,
    pub moves_unlocked: u8,
}

impl Combatant {
    /// A combatant is well formed when its maximum health is positive and its
    /// current health never exceeds the maximum.
    pub open spec fn wf(self) -> bool {
        0 < self.max_health && self.current_health <= self.max_health
    }

    /// The combatant still stands.
    pub open spec fn alive(self) -> bool {
        self.current_health > 0
    }

    /// Create a combatant at full health. A non-positive maximum health is a
    /// programming error, ruled out up front rather than handled at run time.
    pub fn new(max_health: i32, moves_unlocked: u8) -> (c: Combatant)
        requires
            max_health > 0,
        ensures
            c.max_health == max_health,
            c.current_health == max_health,
            c.moves_unlocked == moves_unlocked,
            c.wf(),
            c.alive(),
    {
        Combatant { max_health, current_health: max_health, moves_unlocked }
    }

    /// Widths of the two segments of this combatant's health bar: first the
    /// remaining part, then the lost part. The remaining segment mirrors the
    /// raw current health, so a dead combatant yields a non-positive width.
    pub fn health_bar_segments(&self) -> (seg: (i32, i32))
        requires
            self.wf(),
            self.max_health - self.current_health <= i32::MAX,
        ensures
            seg.0 == self.current_health,
            seg.1 == self.max_health - self.current_health,
    {
        (self.current_health, self.max_health - self.current_health)
    }
}

} // verus!
