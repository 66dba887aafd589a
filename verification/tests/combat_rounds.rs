use speedfight::moves::{lookup, move_def};
use speedfight::report::report;
use speedfight::{
    Accuracy, Combatant, CombatError, EnemyAction, FightEvent, FightSession, MoveKey, Terminal,
};

fn fresh_session(hero_health: i32, enemy_health: i32) -> FightSession {
    let hero = Combatant::new(hero_health, 2);
    let enemy = Combatant::new(enemy_health, 2);
    FightSession::new(hero, enemy)
}

// Draws 5 through 7 make the enemy block; the whole exchange is nullified
// while the turn counter still advances by one half-turn step.
#[test]
fn block_round_changes_no_health() {
    for enemy_draw in 5u8..=7 {
        for key in [MoveKey::Punch, MoveKey::Kick] {
            let mut s = fresh_session(100, 100);
            let r = s.resolve_round_with_draws(key, 0, enemy_draw).unwrap();
            assert_eq!(r.enemy_action, EnemyAction::Block);
            assert!(!r.player_move_landed);
            assert_eq!(s.hero.current_health, 100);
            assert_eq!(s.enemy.current_health, 100);
            assert_eq!(s.half_turns, 1);
            assert_eq!(r.terminal, Terminal::Undecided);
        }
    }
}

// A punch always lands: whenever the enemy hits or stumbles, the enemy loses
// exactly 9 points, whatever the hit draw was.
#[test]
fn punch_always_deals_nine() {
    for enemy_draw in [0u8, 4, 8] {
        for hit_draw in [0u8, 5, 8] {
            let mut s = fresh_session(100, 100);
            let r = s.resolve_round_with_draws(MoveKey::Punch, hit_draw, enemy_draw).unwrap();
            assert!(r.player_move_landed);
            assert_eq!(s.enemy.current_health, 91);
        }
    }
}

// A kick lands exactly on hit draws 0 through 4 (20 points), and misses on
// 5 through 8, holding the enemy action fixed to a stumble.
#[test]
fn kick_hits_on_low_draws_only() {
    for hit_draw in 0u8..9 {
        let mut s = fresh_session(100, 100);
        let r = s.resolve_round_with_draws(MoveKey::Kick, hit_draw, 8).unwrap();
        assert_eq!(r.enemy_action, EnemyAction::Stumble);
        if hit_draw <= 4 {
            assert!(r.player_move_landed);
            assert_eq!(s.enemy.current_health, 80);
        } else {
            assert!(!r.player_move_landed);
            assert_eq!(s.enemy.current_health, 100);
        }
        assert_eq!(s.hero.current_health, 100);
    }
}

// The enemy's hit is applied even when the player's kick misses.
#[test]
fn enemy_hit_lands_when_kick_misses() {
    let mut s = fresh_session(100, 100);
    let r = s.resolve_round_with_draws(MoveKey::Kick, 7, 3).unwrap();
    assert_eq!(r.enemy_action, EnemyAction::Hit(8));
    assert!(!r.player_move_landed);
    assert_eq!(s.enemy.current_health, 100);
    assert_eq!(s.hero.current_health, 92);
}

// A round that fells both combatants is a win: the enemy's knockout is
// checked before the hero's.
#[test]
fn simultaneous_knockout_is_a_win() {
    let mut s = fresh_session(8, 9);
    let r = s.resolve_round_with_draws(MoveKey::Punch, 0, 0).unwrap();
    assert_eq!(s.enemy.current_health, 0);
    assert_eq!(s.hero.current_health, 0);
    assert_eq!(r.terminal, Terminal::HeroWon);
    assert_eq!(report(&r), FightEvent::Victory(1));
}

// The turn counter advances by exactly one half-turn step per resolved round
// and not at all for a rejected move.
#[test]
fn turn_counter_advances_only_on_resolved_rounds() {
    let hero = Combatant::new(100, 1);
    let enemy = Combatant::new(100, 2);
    let mut s = FightSession::new(hero, enemy);
    let rejected = s.resolve_round_with_draws(MoveKey::Kick, 0, 0);
    assert_eq!(rejected, Err(CombatError::MoveUnavailable));
    assert_eq!(s.half_turns, 0);
    assert_eq!(s.hero.current_health, 100);
    assert_eq!(s.enemy.current_health, 100);

    let mut last = s.half_turns;
    for round in 1u32..=3 {
        s.resolve_round_with_draws(MoveKey::Punch, 0, 6).unwrap();
        assert!(s.half_turns >= last);
        assert_eq!(s.half_turns, round);
        last = s.half_turns;
    }
    assert_eq!(s.half_turns as f32 * 0.5, 1.5);
}

// Scenario: both combatants start at 100 with two unlocked moves; the hero
// punches twelve times while the enemy is forced to hit for 8 every round.
// The enemy reaches 100 - 12 * 9 = -8 on round twelve and the hero wins
// after 6.0 displayed turns.
#[test]
fn twelve_forced_punches_win_in_six_turns() {
    let mut s = fresh_session(100, 100);
    for round in 1u32..=12 {
        let r = s.resolve_round_with_draws(MoveKey::Punch, 0, 0).unwrap();
        assert_eq!(r.enemy_action, EnemyAction::Hit(8));
        assert_eq!(s.enemy.current_health, 100 - 9 * round as i32);
        if round < 12 {
            assert_eq!(r.terminal, Terminal::Undecided);
        } else {
            assert_eq!(s.enemy.current_health, -8);
            assert_eq!(r.terminal, Terminal::HeroWon);
            assert_eq!(r.half_turns_elapsed as f32 * 0.5, 6.0);
            assert_eq!(report(&r), FightEvent::Victory(12));
        }
    }
}

// Scenario: the hero stands at 9 health, the enemy is forced to hit for 8,
// and the hero's kick misses on a high draw: the hero drops to 1, the enemy
// is untouched, and the fight goes on.
#[test]
fn missed_kick_against_forced_hit_leaves_hero_at_one() {
    let hero = Combatant::new(9, 2);
    let enemy = Combatant::new(100, 2);
    let mut s = FightSession::new(hero, enemy);
    let r = s.resolve_round_with_draws(MoveKey::Kick, 5, 0).unwrap();
    assert_eq!(s.hero.current_health, 1);
    assert_eq!(s.enemy.current_health, 100);
    assert_eq!(r.terminal, Terminal::Undecided);
    assert_eq!(report(&r), FightEvent::Continue);
}

// Scenario: the enemy is forced to block and the hero punches: both healths
// are unchanged, the turn advances, and the fight goes on.
#[test]
fn forced_block_advances_turn_without_damage() {
    let mut s = fresh_session(100, 100);
    let r = s.resolve_round_with_draws(MoveKey::Punch, 0, 5).unwrap();
    assert_eq!(s.hero.current_health, 100);
    assert_eq!(s.enemy.current_health, 100);
    assert_eq!(s.half_turns, 1);
    assert_eq!(r.terminal, Terminal::Undecided);
    assert_eq!(report(&r), FightEvent::Continue);
}

// A lost round maps to a defeat event carrying the half-turn count.
#[test]
fn hero_knockout_reports_defeat() {
    let hero = Combatant::new(8, 2);
    let enemy = Combatant::new(100, 2);
    let mut s = FightSession::new(hero, enemy);
    let r = s.resolve_round_with_draws(MoveKey::Punch, 0, 4).unwrap();
    assert_eq!(s.hero.current_health, 0);
    assert_eq!(r.terminal, Terminal::HeroLost);
    assert_eq!(report(&r), FightEvent::Defeat(1));
}

// Catalog values: the punch needs one unlocked move, deals 9 and is certain;
// the kick needs two, deals 20 and lands on draws at most 4.
#[test]
fn catalog_matches_the_fight_table() {
    let punch = move_def(MoveKey::Punch);
    assert_eq!(punch.required_unlocked, 1);
    assert_eq!(punch.damage, 9);
    assert_eq!(punch.accuracy, Accuracy::Certain);
    let kick = move_def(MoveKey::Kick);
    assert_eq!(kick.required_unlocked, 2);
    assert_eq!(kick.damage, 20);
    assert_eq!(kick.accuracy, Accuracy::DrawAtMost(4));
}

// The lookup rejects exactly the moves above the combatant's unlock level.
#[test]
fn lookup_rejects_locked_moves() {
    let novice = Combatant::new(50, 1);
    assert_eq!(lookup(&novice, MoveKey::Punch), Ok(move_def(MoveKey::Punch)));
    assert_eq!(lookup(&novice, MoveKey::Kick), Err(CombatError::MoveUnavailable));
    let untrained = Combatant::new(50, 0);
    assert_eq!(lookup(&untrained, MoveKey::Punch), Err(CombatError::MoveUnavailable));
    let expert = Combatant::new(50, 3);
    assert_eq!(lookup(&expert, MoveKey::Kick), Ok(move_def(MoveKey::Kick)));
}

// The health bar splits into the remaining and the lost segment; a felled
// combatant's remaining segment carries the raw, non-clamped value.
#[test]
fn health_bar_segments_split_the_maximum() {
    let mut c = Combatant::new(100, 2);
    c.current_health = 40;
    assert_eq!(c.health_bar_segments(), (40, 60));
    c.current_health = -8;
    assert_eq!(c.health_bar_segments(), (-8, 108));
}
