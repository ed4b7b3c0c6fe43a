use jamesscape::combat::{
    apply_damage, calculate_magic_damage, calculate_melee_damage, calculate_ranged_damage,
    enemy_attack_damage, player_attack_damage, process_combat_event, process_combat_event_random,
    resolve_damage, switch_style, tick_cooldown, try_attack, update_enemy_ai, CombatEvent,
    CombatSettings, CombatState, CombatStyle, Enemy, EnemySnapshot, Health,
};
use jamesscape::skills::{curve_for, new_skills};
use jamesscape::world::Position;
use jamesscape::ProgressionError;

fn origin() -> Position {
    Position { x: 0, y: 0, z: 0 }
}

fn enemy_at(entity: u64, x: i64) -> EnemySnapshot {
    EnemySnapshot { entity, position: Position { x, y: 0, z: 0 } }
}

fn ready_state() -> CombatState {
    CombatState { current_style: CombatStyle::Melee, cooldown_remaining_ms: 0, target: None }
}

#[test]
fn default_state_waits_one_full_interval() {
    let state = CombatState::default();
    assert_eq!(state.current_style, CombatStyle::Melee);
    assert_eq!(state.cooldown_remaining_ms, 1500);
    assert_eq!(state.target, None);
}

#[test]
fn default_settings_values() {
    let settings = CombatSettings::default();
    assert_eq!(settings.melee_range, 2000);
    assert_eq!(settings.ranged_range, 7000);
    assert_eq!(settings.magic_range, 10000);
    assert_eq!(settings.attack_cooldown_ms, 1500);
}

#[test]
fn style_switch_is_unconditional_and_keeps_cooldown() {
    let mut state = CombatState { cooldown_remaining_ms: 700, ..ready_state() };
    switch_style(&mut state, CombatStyle::Magic);
    assert_eq!(state.current_style, CombatStyle::Magic);
    assert_eq!(state.cooldown_remaining_ms, 700);
}

#[test]
fn cooldown_ticks_down_and_saturates() {
    let mut state = CombatState { cooldown_remaining_ms: 1000, ..ready_state() };
    tick_cooldown(&mut state, 400);
    assert_eq!(state.cooldown_remaining_ms, 600);
    tick_cooldown(&mut state, 5000);
    assert_eq!(state.cooldown_remaining_ms, 0);
}

#[test]
fn attack_on_cooldown_is_a_no_op() {
    let settings = CombatSettings::default();
    let mut state = CombatState { cooldown_remaining_ms: 1, ..ready_state() };
    let enemies = vec![enemy_at(1, 1000)];
    let r = try_attack(&mut state, &settings, 100, &origin(), &enemies);
    assert_eq!(r.unwrap_err(), ProgressionError::ActionOnCooldown);
    assert_eq!(state.cooldown_remaining_ms, 1);
    assert_eq!(state.target, None);
}

#[test]
fn attack_in_range_resets_cooldown_to_full_interval() {
    let settings = CombatSettings::default();
    let mut state = ready_state();
    let enemies = vec![enemy_at(1, 1000)];
    let r = try_attack(&mut state, &settings, 100, &origin(), &enemies).unwrap();
    assert_eq!(r, CombatEvent { attacker: 100, target: 1, style: CombatStyle::Melee });
    assert_eq!(state.cooldown_remaining_ms, 1500);
    assert_eq!(state.target, Some(1));
}

#[test]
fn attack_out_of_range_does_not_reset_cooldown() {
    let settings = CombatSettings::default();
    let mut state = ready_state();
    let enemies = vec![enemy_at(1, 2000)];
    let r = try_attack(&mut state, &settings, 100, &origin(), &enemies);
    assert_eq!(r.unwrap_err(), ProgressionError::NoTargetInRange);
    assert_eq!(state.cooldown_remaining_ms, 0);
    assert_eq!(state.target, None);
}

#[test]
fn attack_picks_strictly_nearest_enemy() {
    let settings = CombatSettings::default();
    let mut state = ready_state();
    let enemies = vec![enemy_at(1, 1500), enemy_at(2, 900), enemy_at(3, 1999)];
    let r = try_attack(&mut state, &settings, 100, &origin(), &enemies).unwrap();
    assert_eq!(r.target, 2);
}

#[test]
fn ranged_style_reaches_further() {
    let settings = CombatSettings::default();
    let mut state = CombatState { current_style: CombatStyle::Ranged, ..ready_state() };
    let enemies = vec![enemy_at(1, 5000)];
    let r = try_attack(&mut state, &settings, 100, &origin(), &enemies).unwrap();
    assert_eq!(r.style, CombatStyle::Ranged);
    assert_eq!(r.target, 1);
}

#[test]
fn base_damage_formulas() {
    let curve = curve_for(99);
    let fresh = new_skills();
    // Every skill at 1 experience is level 1.
    assert_eq!(calculate_melee_damage(&fresh, &curve), 1);
    assert_eq!(calculate_ranged_damage(&fresh, &curve), 1);
    assert_eq!(calculate_magic_damage(&fresh, &curve), 1);
    // At the top of the curve every level is 100.
    let mut maxed = new_skills();
    maxed.attack = 13_034_469;
    maxed.strength = 13_034_469;
    maxed.ranged = 13_034_469;
    maxed.magic = 13_034_469;
    assert_eq!(calculate_melee_damage(&maxed, &curve), (100 + 100) / 8 + 1);
    assert_eq!(calculate_ranged_damage(&maxed, &curve), 100 / 4 + 1);
    assert_eq!(calculate_magic_damage(&maxed, &curve), 100 / 4 + 1);
}

#[test]
fn resolve_damage_rounds_to_nearest() {
    assert_eq!(resolve_damage(10, 80), 8);
    assert_eq!(resolve_damage(10, 120), 12);
    assert_eq!(resolve_damage(1, 80), 1);
    assert_eq!(resolve_damage(1, 120), 1);
    assert_eq!(resolve_damage(5, 89), 4);
    assert_eq!(resolve_damage(5, 90), 5);
    assert_eq!(resolve_damage(0, 120), 0);
}

// A fresh melee attacker has base damage (1 + 1) / 8 + 1 = 1; after
// the multiplier roll the damage is never negative and never above 2.
#[test]
fn fresh_melee_damage_stays_within_bounds() {
    let curve = curve_for(99);
    let fresh = new_skills();
    for roll in 80..=120 {
        let damage = player_attack_damage(CombatStyle::Melee, &fresh, &curve, roll);
        assert!(damage <= 2);
    }
}

#[test]
fn enemy_damage_follows_its_level() {
    assert_eq!(enemy_attack_damage(4, 100), 2);
    assert_eq!(enemy_attack_damage(8, 100), 3);
    assert_eq!(enemy_attack_damage(0, 100), 1);
}

#[test]
fn combat_event_from_player_uses_skills() {
    let curve = curve_for(99);
    let skills = new_skills();
    let event = CombatEvent { attacker: 100, target: 7, style: CombatStyle::Melee };
    let damage = process_combat_event(&event, 100, &skills, &curve, None, 100);
    assert_eq!(damage.target, 7);
    assert!(damage.is_player_source);
    assert_eq!(damage.amount, 1);
}

#[test]
fn combat_event_from_enemy_uses_its_level() {
    let curve = curve_for(99);
    let skills = new_skills();
    let event = CombatEvent { attacker: 7, target: 100, style: CombatStyle::Melee };
    let enemy = Enemy { level: 8, aggression_range: 8000, attack_range: 2000 };
    let damage = process_combat_event(&event, 100, &skills, &curve, Some(&enemy), 100);
    assert_eq!(damage.target, 100);
    assert!(!damage.is_player_source);
    assert_eq!(damage.amount, 3);
}

// The drawn multiplier stays within 0.80 to 1.20, so the amount stays
// within the deterministic bounds for the base damage.
#[test]
fn random_resolution_stays_within_roll_bounds() {
    let curve = curve_for(99);
    let skills = new_skills();
    let event = CombatEvent { attacker: 7, target: 100, style: CombatStyle::Melee };
    let enemy = Enemy { level: 8, aggression_range: 8000, attack_range: 2000 };
    for _ in 0..50 {
        let damage = process_combat_event_random(&event, 100, &skills, &curve, Some(&enemy));
        // base 3: lowest roll gives (3 * 80 + 50) / 100 = 2,
        // highest gives (3 * 120 + 50) / 100 = 4.
        assert!((2..=4).contains(&damage.amount));
    }
}

#[test]
fn damage_application_saturates_at_zero() {
    let mut health = Health { current: 100, maximum: 100 };
    apply_damage(&mut health, 30);
    assert_eq!(health.current, 70);
    assert_eq!(health.maximum, 100);
    apply_damage(&mut health, 0);
    assert_eq!(health.current, 70);
    apply_damage(&mut health, 1000);
    assert_eq!(health.current, 0);
    assert_eq!(health.maximum, 100);
}

#[test]
fn enemy_ai_strikes_in_attack_range() {
    let mut state = ready_state();
    let enemy = Enemy { level: 5, aggression_range: 8000, attack_range: 2000 };
    let r = update_enemy_ai(
        &mut state,
        &enemy,
        7,
        &Position { x: 1000, y: 0, z: 0 },
        100,
        &origin(),
        1500,
        16,
    );
    assert_eq!(
        r,
        Some(CombatEvent { attacker: 7, target: 100, style: CombatStyle::Melee })
    );
    assert_eq!(state.target, Some(100));
    assert_eq!(state.cooldown_remaining_ms, 1500);
}

#[test]
fn enemy_ai_aggression_only_sets_target() {
    let mut state = ready_state();
    let enemy = Enemy { level: 5, aggression_range: 8000, attack_range: 2000 };
    let r = update_enemy_ai(
        &mut state,
        &enemy,
        7,
        &Position { x: 5000, y: 0, z: 0 },
        100,
        &origin(),
        1500,
        16,
    );
    assert!(r.is_none());
    assert_eq!(state.target, Some(100));
    assert_eq!(state.cooldown_remaining_ms, 0);
}

#[test]
fn enemy_ai_clears_target_out_of_range() {
    let mut state = CombatState { target: Some(100), ..ready_state() };
    let enemy = Enemy { level: 5, aggression_range: 8000, attack_range: 2000 };
    let r = update_enemy_ai(
        &mut state,
        &enemy,
        7,
        &Position { x: 9000, y: 0, z: 0 },
        100,
        &origin(),
        1500,
        16,
    );
    assert!(r.is_none());
    assert_eq!(state.target, None);
}

#[test]
fn enemy_ai_respects_its_cooldown() {
    let mut state = CombatState { cooldown_remaining_ms: 500, ..ready_state() };
    let enemy = Enemy { level: 5, aggression_range: 8000, attack_range: 2000 };
    let r = update_enemy_ai(
        &mut state,
        &enemy,
        7,
        &Position { x: 1000, y: 0, z: 0 },
        100,
        &origin(),
        1500,
        100,
    );
    assert!(r.is_none());
    assert_eq!(state.target, Some(100));
    assert_eq!(state.cooldown_remaining_ms, 400);
}
