use vstd::prelude::*;
use crate::combatant::Combatant;
use crate::moves::{available, lookup, move_lands, spec_move_def, Accuracy, CombatError, MoveKey};
use crate::policy::{action_damage, enemy_action_of, enemy_decide, EnemyAction};
use crate::rng::draw_below_nine;

verus! {

/// A discrete event from the input collaborator: quit the fight, or select
/// a move for the next round.
#[derive(Clone, Copy, Debug, PartialEq, Eq, Structural)]
pub enum PlayerInput {
    Quit,
    SelectMove(MoveKey),
}

/// What one input event led to: leave the fight loop, ignore the event
/// because the fight is already over, or a round resolution (which may be a
/// rejected move).
#[derive(Clone, Copy, Debug, PartialEq, Eq)]
pub enum StepResult {
    Exit,
    Ignored,
    Round(Result<RoundOutcome, CombatError>),
}

/// Whether a round ended the fight, and how. The enemy's knockout is checked
/// before the hero's, so a round that fells both combatants is a win.
#[derive(Clone, Copy, Debug, PartialEq, Eq, Structural)]
pub enum Terminal {
    Undecided,
    HeroWon,
    HeroLost,
}

/// The resolver's state machine. `Won` and `Lost` are absorbing: once the
/// fight is over, further player actions are ignored.
#[derive(Clone, Copy, Debug, PartialEq, Eq, Structural)]
pub enum FightPhase {
    AwaitingInput,
    Won,
    Lost,
}

/// Everything one resolved round reports to the presentation layer. The turn
/// counter is kept in half-turn steps: each resolved round adds one step,
/// and the displayed turn count is half of it.
#[derive(Clone, Copy, Debug, PartialEq, Eq, Structural)]
pub struct RoundOutcome {
    pub player_move_landed: bool,
    pub enemy_action: EnemyAction,
    pub hero_health_after: i32,
    pub enemy_health_after: i32,
    pub half_turns_elapsed: u32,
    pub terminal: Terminal,
}

/// One fight: the two combatants, the turn counter in half-turn steps, and
/// the phase of the resolver's state machine.
#[derive(Clone, Copy, Debug, PartialEq, Eq, Structural)]
pub struct FightSession {
    pub hero: Combatant,
    pub enemy: Combatant,
    pub half_turns: u32,
    pub phase: FightPhase,
}

/// Whole health points the player's move takes from the enemy this round:
/// nothing when the enemy blocks or the move misses, the move's damage
/// otherwise.
pub open spec fn damage_to_enemy(key: MoveKey, hit_draw: u8, action: EnemyAction) -> int {
    if action is Block {
        0
    } else if move_lands(key, hit_draw) {
        spec_move_def(key).damage as int
    } else {
        0
    }
}

/// Whole health points the enemy's action takes from the hero this round:
/// nothing when the enemy blocks (a block nullifies the whole exchange),
/// otherwise the action's damage, dealt even when the player's move missed.
pub open spec fn damage_to_hero(action: EnemyAction) -> int {
    if action is Block {
        0
    } else {
        action_damage(action)
    }
}

/// The termination rule over the healths left after the exchange: the
/// enemy's knockout is checked first, so a win shadows a simultaneous loss.
pub open spec fn terminal_of(enemy_health: int, hero_health: int) -> Terminal {
    if enemy_health <= 0 {
        Terminal::HeroWon
    } else if hero_health <= 0 {
        Terminal::HeroLost
    } else {
        Terminal::Undecided
    }
}

/// The phase the session enters after a round with the given terminal state.
pub open spec fn phase_after(t: Terminal) -> FightPhase {
    match t {
        Terminal::Undecided => FightPhase::AwaitingInput,
        Terminal::HeroWon => FightPhase::Won,
        Terminal::HeroLost => FightPhase::Lost,
    }
}

/// The full effect of resolving one round from session `pre` with the given
/// move and draws: either the move is unavailable and nothing changes, or
/// the exchange is applied, the turn counter advances by one half-turn step,
/// and the outcome reports the new healths and the termination state.
pub open spec fn round_post(
    pre: FightSession,
    key: MoveKey,
    hit_draw: u8,
    enemy_draw: u8,
    post: FightSession,
    r: Result<RoundOutcome, CombatError>,
) -> bool {
    if !available(pre.hero.moves_unlocked, key) {
        r == Err::<RoundOutcome, CombatError>(CombatError::MoveUnavailable) && post == pre
    } else {
        let action = enemy_action_of(pre.enemy.moves_unlocked, enemy_draw);
        let enemy_health = pre.enemy.current_health - damage_to_enemy(key, hit_draw, action);
        let hero_health = pre.hero.current_health - damage_to_hero(action);
        let term = terminal_of(enemy_health, hero_health);
        &&& post.hero.max_health == pre.hero.max_health
        &&& post.hero.moves_unlocked == pre.hero.moves_unlocked
        &&& post.hero.current_health == hero_health
        &&& post.enemy.max_health == pre.enemy.max_health
        &&& post.enemy.moves_unlocked == pre.enemy.moves_unlocked
        &&& post.enemy.current_health == enemy_health
        &&& post.half_turns == pre.half_turns + 1
        &&& post.phase == phase_after(term)
        &&& r == Ok::<RoundOutcome, CombatError>(RoundOutcome {
            player_move_landed: !(action is Block) && move_lands(key, hit_draw),
            enemy_action: action,
            hero_health_after: post.hero.current_health,
            enemy_health_after: post.enemy.current_health,
            half_turns_elapsed: post.half_turns,
            terminal: term,
        })
    }
}

impl FightSession {
    /// A session is well formed when both combatants are, and both still
    /// stand whenever the resolver awaits the next move.
    pub open spec fn wf(self) -> bool {
        &&& self.hero.wf()
        &&& self.enemy.wf()
        &&& self.phase is AwaitingInput ==> self.hero.alive() && self.enemy.alive()
    }

    /// Start a fight between two living combatants, at turn zero.
    pub fn new(hero: Combatant, enemy: Combatant) -> (s: FightSession)
        requires
            hero.wf(),
            enemy.wf(),
            hero.alive(),
            enemy.alive(),
        ensures
            s.hero == hero,
            s.enemy == enemy,
            s.half_turns == 0,
            s.phase is AwaitingInput,
            s.wf(),
    {
        FightSession { hero, enemy, half_turns: 0, phase: FightPhase::AwaitingInput }
    }

    /// Resolve one round from two injected draws, each uniform in the range
    /// zero to eight: first the hit draw for the player's accuracy, then the
    /// draw the enemy policy acts on. A punch never reads the hit draw.
    ///
    /// Returns the move-unavailable error, and changes nothing, exactly when
    /// the hero has not unlocked the move; otherwise the round is applied as
    /// `round_post` states.
    pub fn resolve_round_with_draws(
        &mut self,
        key: MoveKey,
        hit_draw: u8,
        enemy_draw: u8,
    ) -> (r: Result<RoundOutcome, CombatError>)
        requires
            old(self).wf(),
            old(self).phase is AwaitingInput,
            old(self).half_turns < u32::MAX,
            hit_draw < 9,
            enemy_draw < 9,
        ensures
            round_post(*old(self), key, hit_draw, enemy_draw, *final(self), r),
            final(self).wf(),
    {
        let m = match lookup(&self.hero, key) {
            Ok(m) => m,
            Err(e) => {
                return Err(e);
            },
        };
        let action = enemy_decide(&self.enemy, enemy_draw);
        let blocked = match action {
            EnemyAction::Block => true,
            _ => false,
        };
        let landed = if blocked {
            false
        } else {
            match m.accuracy {
                Accuracy::Certain => true,
                Accuracy::DrawAtMost(t) => hit_draw <= t,
            }
        };
        if !blocked {
            if landed {
                self.enemy.current_health = self.enemy.current_health - m.damage;
            }
            let enemy_damage: i32 = match action {
                EnemyAction::Hit(d) => d,
                _ => 0,
            };
            self.hero.current_health = self.hero.current_health - enemy_damage;
        }
        self.half_turns = self.half_turns + 1;
        let term = if self.enemy.current_health <= 0 {
            Terminal::HeroWon
        } else if self.hero.current_health <= 0 {
            Terminal::HeroLost
        } else {
            Terminal::Undecided
        };
        self.phase = match term {
            Terminal::Undecided => FightPhase::AwaitingInput,
            Terminal::HeroWon => FightPhase::Won,
            Terminal::HeroLost => FightPhase::Lost,
        };
        Ok(RoundOutcome {
            player_move_landed: landed,
            enemy_action: action,
            hero_health_after: self.hero.current_health,
            enemy_health_after: self.enemy.current_health,
            half_turns_elapsed: self.half_turns,
            terminal: term,
        })
    }

    /// Resolve one round from injected draws through the state machine: a
    /// finished fight absorbs the action and nothing changes; otherwise the
    /// round is resolved as `resolve_round_with_draws` does.
    pub fn advance(&mut self, key: MoveKey, hit_draw: u8, enemy_draw: u8) -> (r: Option<
        Result<RoundOutcome, CombatError>,
    >)
        requires
            old(self).wf(),
            old(self).half_turns < u32::MAX,
            hit_draw < 9,
            enemy_draw < 9,
        ensures
            old(self).phase is AwaitingInput ==> (r matches Some(rr) && round_post(
                *old(self),
                key,
                hit_draw,
                enemy_draw,
                *final(self),
                rr,
            )),
            !(old(self).phase is AwaitingInput) ==> r is None && *final(self) == *old(self),
            final(self).wf(),
    {
        match self.phase {
            FightPhase::AwaitingInput => Some(
                self.resolve_round_with_draws(key, hit_draw, enemy_draw),
            ),
            _ => None,
        }
    }

    /// Resolve one round with fresh uniform draws, preserving the original
    /// draw discipline: a rejected or absorbed action draws nothing, a punch
    /// round draws once (for the enemy policy), and a kick round draws twice
    /// (the hit draw first, then the enemy policy's draw).
    pub fn play(&mut self, key: MoveKey) -> (r: Option<Result<RoundOutcome, CombatError>>)
        requires
            old(self).wf(),
            old(self).half_turns < u32::MAX,
        ensures
            old(self).phase is AwaitingInput ==> (r matches Some(rr)
                && exists|hit_draw: u8, enemy_draw: u8|
                hit_draw < 9 && enemy_draw < 9 && round_post(
                    *old(self),
                    key,
                    hit_draw,
                    enemy_draw,
                    *final(self),
                    rr,
                )),
            !(old(self).phase is AwaitingInput) ==> r is None && *final(self) == *old(self),
            final(self).wf(),
    {
        match self.phase {
            FightPhase::AwaitingInput => {},
            _ => {
                return None;
            },
        }
        if let Err(e) = lookup(&self.hero, key) {
            proof {
                assert(round_post(
                    *old(self),
                    key,
                    0,
                    0,
                    *self,
                    Err::<RoundOutcome, CombatError>(e),
                ));
            }
            return Some(Err(e));
        }
        let hit_draw: u8 = match key {
            MoveKey::Punch => 0,
            MoveKey::Kick => draw_below_nine(),
        };
        let enemy_draw = draw_below_nine();
        let rr = self.resolve_round_with_draws(key, hit_draw, enemy_draw);
        proof {
            assert(round_post(*old(self), key, hit_draw, enemy_draw, *self, rr));
        }
        Some(rr)
    }

    /// Decide what one input event does: quitting exits and changes nothing;
    /// selecting a move plays one round through the state machine, with a
    /// finished fight ignoring the selection.
    pub fn step(&mut self, input: PlayerInput) -> (r: StepResult)
        requires
            old(self).wf(),
            old(self).half_turns < u32::MAX,
        ensures
            input is Quit ==> r is Exit && *final(self) == *old(self),
            input is SelectMove && !(old(self).phase is AwaitingInput) ==> r is Ignored
                && *final(self) == *old(self),
            input matches PlayerInput::SelectMove(key) ==> (old(self).phase is AwaitingInput
                ==> (r matches StepResult::Round(rr) && exists|hit_draw: u8, enemy_draw: u8|
                hit_draw < 9 && enemy_draw < 9 && round_post(
                    *old(self),
                    key,
                    hit_draw,
                    enemy_draw,
                    *final(self),
                    rr,
                ))),
            final(self).wf(),
    {
        match input {
            PlayerInput::Quit => StepResult::Exit,
            PlayerInput::SelectMove(key) => match self.play(key) {
                Some(rr) => StepResult::Round(rr),
                None => StepResult::Ignored,
            },
        }
    }
}

/// A blocked round nullifies the whole exchange: both combatants' health is
/// unchanged, while the turn counter still advances by one half-turn step.
pub proof fn lemma_block_round(
    pre: FightSession,
    key: MoveKey,
    hit_draw: u8,
    enemy_draw: u8,
    post: FightSession,
    r: Result<RoundOutcome, CombatError>,
)
    requires
        round_post(pre, key, hit_draw, enemy_draw, post, r),
        r is Ok,
        enemy_action_of(pre.enemy.moves_unlocked, enemy_draw) is Block,
    ensures
        post.hero.current_health == pre.hero.current_health,
        post.enemy.current_health == pre.enemy.current_health,
        post.half_turns == pre.half_turns + 1,
        r matches Ok(o) ==> !o.player_move_landed,
{
}

/// The hero's side of a punch is never probabilistic: whenever the enemy
/// does not block, a punch round takes exactly the punch damage of 9 points
/// from the enemy, whatever the hit draw.
pub proof fn lemma_punch_damage(
    pre: FightSession,
    hit_draw: u8,
    enemy_draw: u8,
    post: FightSession,
    r: Result<RoundOutcome, CombatError>,
)
    requires
        round_post(pre, MoveKey::Punch, hit_draw, enemy_draw, post, r),
        r is Ok,
        !(enemy_action_of(pre.enemy.moves_unlocked, enemy_draw) is Block),
    ensures
        post.enemy.current_health == pre.enemy.current_health - 9,
        r matches Ok(o) ==> o.player_move_landed,
{
}

/// Holding the enemy action fixed to anything but a block, a kick takes the
/// kick damage of 20 points from the enemy exactly on the hit draws zero to
/// four, and nothing on the other draws.
pub proof fn lemma_kick_damage(
    pre: FightSession,
    hit_draw: u8,
    enemy_draw: u8,
    post: FightSession,
    r: Result<RoundOutcome, CombatError>,
)
    requires
        round_post(pre, MoveKey::Kick, hit_draw, enemy_draw, post, r),
        r is Ok,
        !(enemy_action_of(pre.enemy.moves_unlocked, enemy_draw) is Block),
    ensures
        hit_draw <= 4 ==> post.enemy.current_health == pre.enemy.current_health - 20,
        hit_draw > 4 ==> post.enemy.current_health == pre.enemy.current_health,
{
}

/// When one round drives both healths to zero or below, the result is a win
/// for the hero, never a loss: the enemy's knockout is checked first.
pub proof fn lemma_simultaneous_knockout_is_win(
    pre: FightSession,
    key: MoveKey,
    hit_draw: u8,
    enemy_draw: u8,
    post: FightSession,
    r: Result<RoundOutcome, CombatError>,
)
    requires
        round_post(pre, key, hit_draw, enemy_draw, post, r),
        r is Ok,
        post.enemy.current_health <= 0,
        post.hero.current_health <= 0,
    ensures
        r matches Ok(o) ==> o.terminal is HeroWon,
        post.phase is Won,
{
}

/// The turn counter never decreases: a resolved round advances it by exactly
/// one half-turn step, and a move rejected as unavailable leaves it (and all
/// other state) unchanged.
pub proof fn lemma_turn_counter(
    pre: FightSession,
    key: MoveKey,
    hit_draw: u8,
    enemy_draw: u8,
    post: FightSession,
    r: Result<RoundOutcome, CombatError>,
)
    requires
        round_post(pre, key, hit_draw, enemy_draw, post, r),
    ensures
        post.half_turns >= pre.half_turns,
        r is Ok ==> post.half_turns == pre.half_turns + 1,
        r is Err ==> post.half_turns == pre.half_turns && post == pre,
{
}

} // verus!
