//! Combat state machine: per-actor style, attack cooldown and target
//! selection, and the damage exchange between two actors.
//!
//! An attack signal succeeds only once the cooldown has fully elapsed
//! and an opposing actor stands within the style's range; success
//! locks the target, resets the cooldown and emits an attack event.
//! Damage resolution turns an attack event into a damage event whose
//! amount is the attacker's base damage scaled by a random multiplier
//! drawn uniformly from 0.80 to 1.20, carried here as an integer count
//! of hundredths so that the rounding is exact.  Applying damage
//! saturates at zero health.

use crate::skills::{level_for, Skills};
use crate::world::{dist_sq, distance_squared, Position, MAX_COORD};
use crate::ProgressionError;
use vstd::prelude::*;

verus! {

/// The lowest damage multiplier roll, in hundredths.
pub const ROLL_MIN: u64 = 80;

/// The highest damage multiplier roll, in hundredths.
pub const ROLL_MAX: u64 = 120;

/// One of the three ways an actor fights.
#[derive(Clone, Copy, Debug, PartialEq, Eq, Structural)]
pub enum CombatStyle {
    Melee,
    Ranged,
    Magic,
}

/// Per-actor combat state: the chosen style, how long until the next
/// attack may land, and the current target, if any.
#[derive(Clone, Copy, Debug, PartialEq, Eq, Structural)]
pub struct CombatState {
    pub current_style: CombatStyle,
    pub cooldown_remaining_ms: u64,
    pub target: Option<u64>,
}

impl Default for CombatState {
    /// A freshly spawned actor fights melee, has no target, and must
    /// first wait out one full attack interval.
    fn default() -> (state: CombatState)
        ensures
            state == (CombatState {
                current_style: CombatStyle::Melee,
                cooldown_remaining_ms: 1500,
                target: None,
            }),
    {
        CombatState {
            current_style: CombatStyle::Melee,
            cooldown_remaining_ms: 1500,
            target: None,
        }
    }
}

/// Tuning values of the combat system: per-style attack ranges in
/// coordinate thousandths, and the attack interval in milliseconds.
#[derive(Clone, Copy, Debug, PartialEq, Eq, Structural)]
pub struct CombatSettings {
    pub melee_range: u64,
    pub ranged_range: u64,
    pub magic_range: u64,
    pub attack_cooldown_ms: u64,
}

impl CombatSettings {
    /// Every range fits the world bound, so its square fits in `u64`.
    pub open spec fn wf(self) -> bool {
        &&& self.melee_range <= MAX_COORD as u64
        &&& self.ranged_range <= MAX_COORD as u64
        &&& self.magic_range <= MAX_COORD as u64
    }

    /// The attack range the style uses.
    pub open spec fn spec_range_for(self, style: CombatStyle) -> u64 {
        match style {
            CombatStyle::Melee => self.melee_range,
            CombatStyle::Ranged => self.ranged_range,
            CombatStyle::Magic => self.magic_range,
        }
    }

    /// The attack range the style uses.
    pub fn range_for(&self, style: CombatStyle) -> (range: u64)
        ensures
            range == self.spec_range_for(style),
    {
        match style {
            CombatStyle::Melee => self.melee_range,
            CombatStyle::Ranged => self.ranged_range,
            CombatStyle::Magic => self.magic_range,
        }
    }
}

impl Default for CombatSettings {
    /// The standard configuration: melee reaches 2.0 world units,
    /// ranged 7.0, magic 10.0, and attacks are 1.5 seconds apart.
    fn default() -> (settings: CombatSettings)
        ensures
            settings == (CombatSettings {
                melee_range: 2000,
                ranged_range: 7000,
                magic_range: 10000,
                attack_cooldown_ms: 1500,
            }),
            settings.wf(),
    {
        CombatSettings {
            melee_range: 2000,
            ranged_range: 7000,
            magic_range: 10000,
            attack_cooldown_ms: 1500,
        }
    }
}

/// A hostile actor's combat tuning: its level, and how close the
/// player must come to be noticed and to be struck, in coordinate
/// thousandths.  Both ranges are per-actor values, not global
/// constants.
#[derive(Clone, Copy, Debug, PartialEq, Eq, Structural)]
pub struct Enemy {
    pub level: u32,
    pub aggression_range: u64,
    pub attack_range: u64,
}

/// One opposing actor of the world snapshot, as seen by an attack
/// scan.
#[derive(Clone, Copy, Debug, PartialEq, Eq, Structural)]
pub struct EnemySnapshot {
    pub entity: u64,
    pub position: Position,
}

/// A domain event: an attack resolved between two actors.
#[derive(Clone, Copy, Debug, PartialEq, Eq, Structural)]
pub struct CombatEvent {
    pub attacker: u64,
    pub target: u64,
    pub style: CombatStyle,
}

/// A domain event: an amount of damage to apply to a target.
#[derive(Clone, Copy, Debug, PartialEq, Eq, Structural)]
pub struct DamageEvent {
    pub target: u64,
    pub amount: u32,
    pub is_player_source: bool,
}

/// An actor's health pool.  Damage saturates at zero; the current
/// value never exceeds what external spawning code set it to.
#[derive(Clone, Copy, Debug, PartialEq, Eq, Structural)]
pub struct Health {
    pub current: u32,
    pub maximum: u32,
}

/// Switches the combat style, unconditionally and immediately.  The
/// cooldown and target are untouched.
pub fn switch_style(state: &mut CombatState, style: CombatStyle)
    ensures
        *final(state) == (CombatState { current_style: style, ..*old(state) }),
{
    state.current_style = style;
}

/// Ticks the attack cooldown down by the elapsed time, stopping at
/// zero.
pub fn tick_cooldown(state: &mut CombatState, elapsed_ms: u64)
    ensures
        *final(state) == (CombatState {
            cooldown_remaining_ms: if old(state).cooldown_remaining_ms >= elapsed_ms {
                (old(state).cooldown_remaining_ms - elapsed_ms) as u64
            } else {
                0
            },
            ..*old(state)
        }),
{
    if state.cooldown_remaining_ms >= elapsed_ms {
        state.cooldown_remaining_ms = state.cooldown_remaining_ms - elapsed_ms;
    } else {
        state.cooldown_remaining_ms = 0;
    }
}

/// The square of an in-world range.
fn square_range(range: u64) -> (sq: u64)
    requires
        range <= MAX_COORD as u64,
    ensures
        sq == (range as int) * (range as int),
{
    proof {
        assert((range as int) * (range as int) <= 1_000_000_000_000_000_000) by (nonlinear_arith)
            requires
                range <= 1_000_000_000,
        ;
    }
    range * range
}

/// Whether enemy `i` is the one an in-range scan from `origin` picks:
/// strictly nearest among the enemies within the squared range, with
/// the earliest winning ties.
pub open spec fn picks_nearest_enemy(
    origin: Position,
    enemies: Seq<EnemySnapshot>,
    range_sq: int,
    i: int,
) -> bool {
    &&& 0 <= i < enemies.len()
    &&& dist_sq(origin, enemies[i].position) < range_sq
    &&& forall|j: int|
        0 <= j < enemies.len() && dist_sq(origin, #[trigger] enemies[j].position) < range_sq
            ==> dist_sq(origin, enemies[j].position) >= dist_sq(origin, enemies[i].position)
    &&& forall|j: int|
        0 <= j < i ==> dist_sq(origin, #[trigger] enemies[j].position) > dist_sq(
            origin,
            enemies[i].position,
        )
}

/// Whether some enemy stands within the squared range of `origin`.
pub open spec fn some_enemy_in_range(
    origin: Position,
    enemies: Seq<EnemySnapshot>,
    range_sq: int,
) -> bool {
    exists|j: int|
        0 <= j < enemies.len() && dist_sq(origin, #[trigger] enemies[j].position) < range_sq
}

/// An attack attempt.  While the cooldown has not fully elapsed the
/// signal is a no-op reported as `ActionOnCooldown`: no event, no
/// state change.  With the cooldown elapsed, the strictly nearest
/// enemy within the current style's range becomes the target, the
/// cooldown is reset to the full attack interval, and an attack event
/// is emitted; if no enemy is in range the attempt reports
/// `NoTargetInRange` and the cooldown is not reset.
pub fn try_attack(
    state: &mut CombatState,
    settings: &CombatSettings,
    attacker: u64,
    attacker_pos: &Position,
    enemies: &Vec<EnemySnapshot>,
) -> (r: Result<CombatEvent, ProgressionError>)
    requires
        settings.wf(),
        attacker_pos.in_world(),
        forall|i: int| 0 <= i < enemies@.len() ==> (#[trigger] enemies@[i].position).in_world(),
    ensures
        final(state).current_style == old(state).current_style,
        r is Ok <==> old(state).cooldown_remaining_ms == 0 && some_enemy_in_range(
            *attacker_pos,
            enemies@,
            spec_range_sq(*settings, old(state).current_style),
        ),
        old(state).cooldown_remaining_ms > 0 ==> r == Err::<CombatEvent, ProgressionError>(
            ProgressionError::ActionOnCooldown,
        ) && *final(state) == *old(state),
        old(state).cooldown_remaining_ms == 0 && !some_enemy_in_range(
            *attacker_pos,
            enemies@,
            spec_range_sq(*settings, old(state).current_style),
        ) ==> r == Err::<CombatEvent, ProgressionError>(ProgressionError::NoTargetInRange)
            && *final(state) == *old(state),
        r is Ok ==> exists|i: int|
            {
                &&& #[trigger] picks_nearest_enemy(
                    *attacker_pos,
                    enemies@,
                    spec_range_sq(*settings, old(state).current_style),
                    i,
                )
                &&& r == Ok::<CombatEvent, ProgressionError>(
                    CombatEvent {
                        attacker,
                        target: enemies@[i].entity,
                        style: old(state).current_style,
                    },
                )
                &&& *final(state) == (CombatState {
                    current_style: old(state).current_style,
                    cooldown_remaining_ms: settings.attack_cooldown_ms,
                    target: Some(enemies@[i].entity),
                })
            },
{
    if state.cooldown_remaining_ms > 0 {
        return Err(ProgressionError::ActionOnCooldown);
    }
    let range = settings.range_for(state.current_style);
    let range_sq = square_range(range);
    let n = enemies.len();
    let mut best: Option<usize> = None;
    let mut best_dist: u64 = 0;
    let mut i: usize = 0;
    while i < n
        invariant
            0 <= i <= n,
            n == enemies@.len(),
            attacker_pos.in_world(),
            forall|k: int| 0 <= k < n ==> (#[trigger] enemies@[k].position).in_world(),
            match best {
                Some(b) => {
                    &&& b < i
                    &&& best_dist == dist_sq(*attacker_pos, enemies@[b as int].position)
                    &&& best_dist < range_sq
                    &&& forall|j: int|
                        0 <= j < i && dist_sq(*attacker_pos, #[trigger] enemies@[j].position)
                            < range_sq ==> dist_sq(*attacker_pos, enemies@[j].position) >= best_dist
                    &&& forall|j: int|
                        0 <= j < b ==> dist_sq(*attacker_pos, #[trigger] enemies@[j].position)
                            > best_dist
                },
                None => forall|j: int|
                    0 <= j < i ==> dist_sq(*attacker_pos, #[trigger] enemies@[j].position)
                        >= range_sq,
            },
        decreases n - i,
    {
        let d = distance_squared(attacker_pos, &enemies[i].position);
        let improves = match best {
            Some(_) => d < range_sq && d < best_dist,
            None => d < range_sq,
        };
        if improves {
            best = Some(i);
            best_dist = d;
        }
        i = i + 1;
    }
    match best {
        Some(b) => {
            proof {
                assert(range_sq as int == spec_range_sq(*settings, old(state).current_style));
                assert(picks_nearest_enemy(
                    *attacker_pos,
                    enemies@,
                    spec_range_sq(*settings, old(state).current_style),
                    b as int,
                ));
            }
            let target = enemies[b].entity;
            state.target = Some(target);
            state.cooldown_remaining_ms = settings.attack_cooldown_ms;
            Ok(CombatEvent { attacker, target, style: state.current_style })
        },
        None => {
            proof {
                assert(range_sq as int == spec_range_sq(*settings, old(state).current_style));
                assert(!some_enemy_in_range(
                    *attacker_pos,
                    enemies@,
                    spec_range_sq(*settings, old(state).current_style),
                ));
            }
            Err(ProgressionError::NoTargetInRange)
        },
    }
}

/// The squared attack range of a style, as a mathematical integer.
pub open spec fn spec_range_sq(settings: CombatSettings, style: CombatStyle) -> int {
    (settings.spec_range_for(style) as int) * (settings.spec_range_for(style) as int)
}

/// Base damage of a player melee attack: the attack and strength
/// levels drive it.
pub open spec fn melee_base_damage(attacker: Skills, curve: Seq<u32>) -> int {
    (level_for(attacker.attack as int, curve) + level_for(attacker.strength as int, curve)) / 8 + 1
}

/// Base damage of a player ranged attack.
pub open spec fn ranged_base_damage(attacker: Skills, curve: Seq<u32>) -> int {
    level_for(attacker.ranged as int, curve) / 4 + 1
}

/// Base damage of a player magic attack.
pub open spec fn magic_base_damage(attacker: Skills, curve: Seq<u32>) -> int {
    level_for(attacker.magic as int, curve) / 4 + 1
}

/// Base damage of a player attack in the given style.
pub open spec fn player_base_damage(style: CombatStyle, attacker: Skills, curve: Seq<u32>) -> int {
    match style {
        CombatStyle::Melee => melee_base_damage(attacker, curve),
        CombatStyle::Ranged => ranged_base_damage(attacker, curve),
        CombatStyle::Magic => magic_base_damage(attacker, curve),
    }
}

/// Base damage of a hostile actor's attack: its level drives it,
/// whatever the style.
pub open spec fn enemy_base_damage(level: int) -> int {
    level / 4 + 1
}

/// A base damage scaled by a multiplier roll in hundredths and
/// rounded to the nearest integer, halves rounding up.
pub open spec fn rolled_damage(base: int, roll: int) -> int {
    (base * roll + 50) / 100
}

/// The derived level lies between 1 and one past the curve's length.
proof fn lemma_level_range(xp: int, curve: Seq<u32>)
    ensures
        1 <= level_for(xp, curve) <= curve.len() + 1,
    decreases curve.len(),
{
    if curve.len() > 0 && xp >= curve[0] {
        lemma_level_range(xp, curve.subrange(1, curve.len() as int));
    }
}

/// Base damage of a player melee attack, from the attack and strength
/// levels the curve derives.
pub fn calculate_melee_damage(attacker: &Skills, experience_curve: &[u32]) -> (damage: u32)
    requires
        experience_curve@.len() < u32::MAX,
    ensures
        damage == melee_base_damage(*attacker, experience_curve@),
{
    proof {
        lemma_level_range(attacker.attack as int, experience_curve@);
        lemma_level_range(attacker.strength as int, experience_curve@);
    }
    let attack_level = crate::skills::calculate_level(attacker.attack, experience_curve);
    let strength_level = crate::skills::calculate_level(attacker.strength, experience_curve);
    ((attack_level as u64 + strength_level as u64) / 8 + 1) as u32
}

/// Base damage of a player ranged attack, from the ranged level the
/// curve derives.
pub fn calculate_ranged_damage(attacker: &Skills, experience_curve: &[u32]) -> (damage: u32)
    requires
        experience_curve@.len() < u32::MAX,
    ensures
        damage == ranged_base_damage(*attacker, experience_curve@),
{
    proof {
        lemma_level_range(attacker.ranged as int, experience_curve@);
    }
    let ranged_level = crate::skills::calculate_level(attacker.ranged, experience_curve);
    ranged_level / 4 + 1
}

/// Base damage of a player magic attack, from the magic level the
/// curve derives.
pub fn calculate_magic_damage(attacker: &Skills, experience_curve: &[u32]) -> (damage: u32)
    requires
        experience_curve@.len() < u32::MAX,
    ensures
        damage == magic_base_damage(*attacker, experience_curve@),
{
    proof {
        lemma_level_range(attacker.magic as int, experience_curve@);
    }
    let magic_level = crate::skills::calculate_level(attacker.magic, experience_curve);
    magic_level / 4 + 1
}

/// Scales a base damage by a multiplier roll in hundredths, rounding
/// to the nearest integer.  The roll is an injectable randomness
/// value, so callers and tests can fix it and assert exact outputs.
pub fn resolve_damage(base_damage: u32, roll: u64) -> (amount: u32)
    requires
        ROLL_MIN <= roll <= ROLL_MAX,
        rolled_damage(base_damage as int, roll as int) <= u32::MAX,
    ensures
        amount == rolled_damage(base_damage as int, roll as int),
{
    proof {
        assert((base_damage as int) * (roll as int) + 50 <= 0xFFFF_FFFF * 120 + 50) by (
        nonlinear_arith)
            requires
                base_damage <= 0xFFFF_FFFFu32,
                roll <= 120,
        ;
        assert((base_damage as int) * (roll as int) >= 0) by (nonlinear_arith)
            requires
                base_damage >= 0,
                roll >= 0,
        ;
    }
    (((base_damage as u64) * roll + 50) / 100) as u32
}

/// Draws a uniform value from a non-empty inclusive range.
///
/// Relies on rand's `Rng::gen_range` on the thread-local generator:
/// sampling a non-empty inclusive integer range returns a value within
/// it.  An empty range would make the call panic, so it is excluded.
#[verifier::external_body]
fn sample_inclusive_range(lo: u64, hi: u64) -> (sample: u64)
    requires
        lo <= hi,
    ensures
        lo <= sample <= hi,
{
    rand::Rng::gen_range(&mut rand::thread_rng(), lo..=hi)
}

/// Draws the damage multiplier roll, in hundredths, uniformly between
/// 0.80 and 1.20.
fn roll_damage_multiplier() -> (roll: u64)
    ensures
        ROLL_MIN <= roll <= ROLL_MAX,
{
    sample_inclusive_range(ROLL_MIN, ROLL_MAX)
}

/// The damage a player attack deals for a given multiplier roll.
pub fn player_attack_damage(
    style: CombatStyle,
    attacker: &Skills,
    experience_curve: &[u32],
    roll: u64,
) -> (amount: u32)
    requires
        experience_curve@.len() < u32::MAX,
        ROLL_MIN <= roll <= ROLL_MAX,
        rolled_damage(player_base_damage(style, *attacker, experience_curve@), roll as int)
            <= u32::MAX,
    ensures
        amount == rolled_damage(
            player_base_damage(style, *attacker, experience_curve@),
            roll as int,
        ),
{
    let base = match style {
        CombatStyle::Melee => calculate_melee_damage(attacker, experience_curve),
        CombatStyle::Ranged => calculate_ranged_damage(attacker, experience_curve),
        CombatStyle::Magic => calculate_magic_damage(attacker, experience_curve),
    };
    resolve_damage(base, roll)
}

/// The damage a hostile actor's attack deals for a given multiplier
/// roll.
pub fn enemy_attack_damage(enemy_level: u32, roll: u64) -> (amount: u32)
    requires
        ROLL_MIN <= roll <= ROLL_MAX,
        rolled_damage(enemy_base_damage(enemy_level as int), roll as int) <= u32::MAX,
    ensures
        amount == rolled_damage(enemy_base_damage(enemy_level as int), roll as int),
{
    resolve_damage(enemy_level / 4 + 1, roll)
}

/// Resolves an attack event into a damage event, for a given
/// multiplier roll.  A player attacker deals damage by style and
/// skills; a hostile attacker deals damage by its level alone.
pub fn process_combat_event(
    event: &CombatEvent,
    player_entity: u64,
    player_skills: &Skills,
    experience_curve: &[u32],
    attacker_enemy: Option<&Enemy>,
    roll: u64,
) -> (r: DamageEvent)
    requires
        experience_curve@.len() < u32::MAX,
        ROLL_MIN <= roll <= ROLL_MAX,
        event.attacker != player_entity ==> attacker_enemy is Some,
        event.attacker == player_entity ==> rolled_damage(
            player_base_damage(event.style, *player_skills, experience_curve@),
            roll as int,
        ) <= u32::MAX,
        event.attacker != player_entity ==> rolled_damage(
            enemy_base_damage(attacker_enemy->Some_0.level as int),
            roll as int,
        ) <= u32::MAX,
    ensures
        r.target == event.target,
        r.is_player_source == (event.attacker == player_entity),
        event.attacker == player_entity ==> r.amount == rolled_damage(
            player_base_damage(event.style, *player_skills, experience_curve@),
            roll as int,
        ),
        event.attacker != player_entity ==> r.amount == rolled_damage(
            enemy_base_damage(attacker_enemy->Some_0.level as int),
            roll as int,
        ),
{
    if event.attacker == player_entity {
        let amount = player_attack_damage(event.style, player_skills, experience_curve, roll);
        DamageEvent { target: event.target, amount, is_player_source: true }
    } else {
        let enemy = attacker_enemy.unwrap();
        let amount = enemy_attack_damage(enemy.level, roll);
        DamageEvent { target: event.target, amount, is_player_source: false }
    }
}

/// The amount an attack event resolves to for a given multiplier
/// roll: by style and skills for a player attacker, by the hostile
/// actor's level otherwise.
pub open spec fn damage_amount_for_roll(
    event: CombatEvent,
    player_entity: u64,
    player_skills: Skills,
    curve: Seq<u32>,
    enemy_level: int,
    roll: int,
) -> int {
    if event.attacker == player_entity {
        rolled_damage(player_base_damage(event.style, player_skills, curve), roll)
    } else {
        rolled_damage(enemy_base_damage(enemy_level), roll)
    }
}

/// Resolves an attack event into a damage event, drawing the
/// multiplier roll from the thread-local generator.  Whatever the
/// draw, the amount equals the deterministic resolution for some roll
/// within the multiplier bounds.
pub fn process_combat_event_random(
    event: &CombatEvent,
    player_entity: u64,
    player_skills: &Skills,
    experience_curve: &[u32],
    attacker_enemy: Option<&Enemy>,
) -> (r: DamageEvent)
    requires
        experience_curve@.len() < u32::MAX,
        event.attacker != player_entity ==> attacker_enemy is Some,
        event.attacker == player_entity ==> rolled_damage(
            player_base_damage(event.style, *player_skills, experience_curve@),
            ROLL_MAX as int,
        ) <= u32::MAX,
        event.attacker != player_entity ==> rolled_damage(
            enemy_base_damage(attacker_enemy->Some_0.level as int),
            ROLL_MAX as int,
        ) <= u32::MAX,
    ensures
        r.target == event.target,
        r.is_player_source == (event.attacker == player_entity),
        exists|roll: int|
            ROLL_MIN <= roll <= ROLL_MAX && r.amount == #[trigger] damage_amount_for_roll(
                *event,
                player_entity,
                *player_skills,
                experience_curve@,
                attacker_enemy->Some_0.level as int,
                roll,
            ),
{
    let roll = roll_damage_multiplier();
    proof {
        lemma_level_range(player_skills.attack as int, experience_curve@);
        lemma_level_range(player_skills.strength as int, experience_curve@);
        lemma_level_range(player_skills.ranged as int, experience_curve@);
        lemma_level_range(player_skills.magic as int, experience_curve@);
        lemma_rolled_damage_monotonic_in_roll(
            if event.attacker == player_entity {
                player_base_damage(event.style, *player_skills, experience_curve@)
            } else {
                enemy_base_damage(attacker_enemy->Some_0.level as int)
            },
            roll as int,
            ROLL_MAX as int,
        );
    }
    let r = process_combat_event(
        event,
        player_entity,
        player_skills,
        experience_curve,
        attacker_enemy,
        roll,
    );
    proof {
        assert(r.amount == damage_amount_for_roll(
            *event,
            player_entity,
            *player_skills,
            experience_curve@,
            attacker_enemy->Some_0.level as int,
            roll as int,
        ));
    }
    r
}

/// A larger roll never lowers the damage of a nonnegative base.
proof fn lemma_rolled_damage_monotonic_in_roll(base: int, r1: int, r2: int)
    requires
        base >= 0,
        0 <= r1 <= r2,
    ensures
        rolled_damage(base, r1) <= rolled_damage(base, r2),
{
    assert(base * r1 <= base * r2) by (nonlinear_arith)
        requires
            base >= 0,
            r1 <= r2,
    ;
    vstd::arithmetic::div_mod::lemma_div_is_ordered(base * r1 + 50, base * r2 + 50, 100);
}

/// Applies a damage event to a health pool: the current health drops
/// by the amount, saturating at zero, and never signals an error for
/// overkill.  The maximum is untouched.
pub fn apply_damage(health: &mut Health, amount: u32)
    ensures
        final(health).current == if old(health).current >= amount {
            (old(health).current - amount) as u32
        } else {
            0
        },
        final(health).maximum == old(health).maximum,
{
    if health.current >= amount {
        health.current = health.current - amount;
    } else {
        health.current = 0;
    }
}

/// One tick of a hostile actor's combat loop.  The cooldown ticks
/// down first.  With the player inside the aggression range the
/// player becomes the target, and if the player is also inside the
/// attack range with the cooldown elapsed, the cooldown resets and a
/// melee attack event against the player is emitted.  With the player
/// outside the aggression range the target is cleared.
pub fn update_enemy_ai(
    state: &mut CombatState,
    enemy: &Enemy,
    enemy_entity: u64,
    enemy_pos: &Position,
    player_entity: u64,
    player_pos: &Position,
    attack_cooldown_ms: u64,
    elapsed_ms: u64,
) -> (r: Option<CombatEvent>)
    requires
        enemy_pos.in_world(),
        player_pos.in_world(),
        enemy.aggression_range <= MAX_COORD as u64,
        enemy.attack_range <= MAX_COORD as u64,
    ensures
        ({
            let d = dist_sq(*enemy_pos, *player_pos);
            let aggression_sq = (enemy.aggression_range as int) * (enemy.aggression_range as int);
            let attack_sq = (enemy.attack_range as int) * (enemy.attack_range as int);
            let ticked: u64 = if old(state).cooldown_remaining_ms >= elapsed_ms {
                (old(state).cooldown_remaining_ms - elapsed_ms) as u64
            } else {
                0
            };
            let strikes = d < aggression_sq && d < attack_sq && ticked == 0;
            &&& final(state).current_style == old(state).current_style
            &&& d < aggression_sq ==> final(state).target == Some(player_entity)
            &&& d >= aggression_sq ==> final(state).target is None
            &&& strikes ==> final(state).cooldown_remaining_ms == attack_cooldown_ms && r == Some(
                CombatEvent {
                    attacker: enemy_entity,
                    target: player_entity,
                    style: CombatStyle::Melee,
                },
            )
            &&& !strikes ==> final(state).cooldown_remaining_ms == ticked && r is None
        }),
{
    tick_cooldown(state, elapsed_ms);
    let d = distance_squared(enemy_pos, player_pos);
    let aggression_sq = square_range(enemy.aggression_range);
    let attack_sq = square_range(enemy.attack_range);
    if d < aggression_sq {
        state.target = Some(player_entity);
        if d < attack_sq && state.cooldown_remaining_ms == 0 {
            state.cooldown_remaining_ms = attack_cooldown_ms;
            return Some(
                CombatEvent {
                    attacker: enemy_entity,
                    target: player_entity,
                    style: CombatStyle::Melee,
                },
            );
        }
    } else {
        state.target = None;
    }
    None
}

} // verus!
