//! Combat resolution core of a small turn-based fight: a move catalog, a
//! randomized enemy policy, a round resolver over two combatants' health,
//! and a reporter that maps round outcomes to presentation events.

pub mod combatant;
pub mod moves;
pub mod policy;
pub mod report;
pub mod resolver;
mod rng;

pub use combatant::Combatant;
pub use moves::{Accuracy, CombatError, MoveDef, MoveKey};
pub use policy::EnemyAction;
pub use report::FightEvent;
pub use resolver::{FightPhase, FightSession, PlayerInput, RoundOutcome, StepResult, Terminal};
