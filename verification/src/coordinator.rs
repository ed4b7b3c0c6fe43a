//! Progression coordinator: event-driven glue with no state of its
//! own.  It routes gathering completion and combat signals into
//! experience-ledger and inventory mutations, in the order the owning
//! state machine emitted them, and converts any failure into a
//! recoverable diagnostic that leaves the acting state machine in its
//! prior, consistent state.

use crate::combat::{
    picks_nearest_enemy, some_enemy_in_range, spec_range_sq, switch_style, tick_cooldown,
    try_attack, CombatEvent, CombatSettings, CombatState, CombatStyle, EnemySnapshot,
};
use crate::gathering::{
    gather_experience, gather_step, gathering_tick, item_for_resource, position_of_entity,
    skill_for_resource, start_gathering, GatherCompletion, GatheringInProgress,
    ResourceGatheringEvent, ResourceNode,
};
use crate::inventory::{stored_quantity, Inventory, InventoryUpdateEvent, ItemDatabase};
use crate::skills::{
    calculate_level, gain_experience, level_for, SkillExperienceEvent, Skills, SkillsSettings,
};
use crate::world::Position;
use crate::ProgressionError;
use vstd::prelude::*;

verus! {

/// Applies an experience event to the ledger and reports the level
/// the skill now has.
pub fn apply_skill_event(
    skills: &mut Skills,
    experience_curve: &[u32],
    event: &SkillExperienceEvent,
) -> (level: u32)
    requires
        old(skills).spec_experience(event.skill) + event.experience <= u32::MAX,
        experience_curve@.len() < u32::MAX,
    ensures
        *final(skills) == old(skills).spec_with_experience(
            event.skill,
            (old(skills).spec_experience(event.skill) + event.experience) as u32,
        ),
        level == level_for(
            old(skills).spec_experience(event.skill) + event.experience,
            experience_curve@,
        ),
{
    gain_experience(skills, event.skill, event.experience);
    let xp = skills.experience(event.skill);
    calculate_level(xp, experience_curve)
}

/// Applies a signed inventory delta: a positive quantity adds, a
/// negative one removes, zero does nothing.  Any failure is returned
/// with the inventory unchanged.
pub fn apply_inventory_update(
    inventory: &mut Inventory,
    catalog: &ItemDatabase,
    event: &InventoryUpdateEvent,
) -> (r: Result<(), ProgressionError>)
    requires
        old(inventory).wf(),
        event.quantity != i32::MIN,
        event.quantity > 0 ==> stored_quantity(old(inventory).as_map(), event.item_id)
            + event.quantity <= u32::MAX,
    ensures
        final(inventory).wf(),
        final(inventory).spec_capacity() == old(inventory).spec_capacity(),
        final(inventory).spec_gold() == old(inventory).spec_gold(),
        event.quantity == 0 ==> r == Ok::<(), ProgressionError>(()) && *final(inventory) == *old(
            inventory,
        ),
        event.quantity > 0 && catalog.spec_contains(event.item_id) ==> {
            &&& r == Ok::<(), ProgressionError>(())
            &&& final(inventory).as_map() == old(inventory).as_map().insert(
                event.item_id,
                (stored_quantity(old(inventory).as_map(), event.item_id) + event.quantity) as u32,
            )
        },
        event.quantity > 0 && !catalog.spec_contains(event.item_id) ==> {
            &&& r == Err::<(), ProgressionError>(ProgressionError::UnknownItem)
            &&& *final(inventory) == *old(inventory)
        },
        event.quantity < 0 ==> {
            let removed = -event.quantity as int;
            let m = old(inventory).as_map();
            &&& !m.dom().contains(event.item_id) ==> r == Err::<(), ProgressionError>(
                ProgressionError::ItemNotPresent,
            ) && *final(inventory) == *old(inventory)
            &&& m.dom().contains(event.item_id) && m[event.item_id] < removed ==> r == Err::<
                (),
                ProgressionError,
            >(ProgressionError::InsufficientQuantity) && *final(inventory) == *old(inventory)
            &&& m.dom().contains(event.item_id) && m[event.item_id] > removed ==> r == Ok::<
                (),
                ProgressionError,
            >(()) && final(inventory).as_map() == m.insert(
                event.item_id,
                (m[event.item_id] - removed) as u32,
            )
            &&& m.dom().contains(event.item_id) && m[event.item_id] == removed ==> r == Ok::<
                (),
                ProgressionError,
            >(()) && final(inventory).as_map() == m.remove(event.item_id)
        },
{
    if event.quantity > 0 {
        inventory.add(catalog, event.item_id, event.quantity as u32)
    } else if event.quantity < 0 {
        inventory.remove(event.item_id, (-event.quantity) as u32)
    } else {
        Ok(())
    }
}

/// What one tick of the gathering system did: the completion it
/// processed, the level the trained skill then reached, the
/// diagnostic of the completion's inventory add, and the diagnostic
/// of the interact signal.
pub struct GatheringOutcome {
    pub completion: Option<GatherCompletion>,
    pub new_level: Option<u32>,
    pub completion_item_error: Option<ProgressionError>,
    pub start_error: Option<ProgressionError>,
}

/// One tick of the gathering system for one actor.  First any active
/// session advances by the elapsed time; a session that completes
/// grants its experience and its item atomically, in that order, and
/// is destroyed.  Only then is a newly issued interact signal
/// considered, and only against the state the tick began with: a
/// signal issued while a session was active this tick - even one that
/// just completed - is rejected as `AlreadyGathering`, so an actor
/// cannot re-enter gathering in the tick it finished.
pub fn handle_resource_gathering(
    session: &mut Option<GatheringInProgress>,
    skills: &mut Skills,
    inventory: &mut Inventory,
    catalog: &ItemDatabase,
    settings: &SkillsSettings,
    interact: Option<&ResourceGatheringEvent>,
    resources: &Vec<ResourceNode>,
    elapsed_ms: u64,
) -> (outcome: GatheringOutcome)
    requires
        old(inventory).wf(),
        settings.experience_curve@.len() < u32::MAX,
        *old(session) is Some ==> {
            let s = (*old(session))->Some_0;
            let kind = s.resource_type;
            &&& s.progress_ms + elapsed_ms <= u64::MAX
            &&& gather_experience(kind, settings.gathering_base_experience as int) <= u32::MAX
            &&& old(skills).spec_experience(skill_for_resource(kind)) + gather_experience(
                kind,
                settings.gathering_base_experience as int,
            ) <= u32::MAX
            &&& stored_quantity(old(inventory).as_map(), item_for_resource(kind)) + 1 <= u32::MAX
        },
    ensures
        final(inventory).wf(),
        final(inventory).spec_capacity() == old(inventory).spec_capacity(),
        final(inventory).spec_gold() == old(inventory).spec_gold(),
        *old(session) is None ==> {
            &&& outcome.completion is None
            &&& outcome.new_level is None
            &&& outcome.completion_item_error is None
            &&& *final(skills) == *old(skills)
            &&& *final(inventory) == *old(inventory)
            &&& outcome.start_error is None
            &&& match interact {
                Some(ev) => *final(session) == Some(
                    GatheringInProgress {
                        resource_type: ev.resource_type,
                        target_entity: ev.entity,
                        progress_ms: 0,
                        total_time_ms: settings.gathering_time_base_ms,
                        target_position: position_of_entity(resources@, ev.entity),
                    },
                ),
                None => *final(session) is None,
            }
        },
        *old(session) is Some ==> {
            let s = (*old(session))->Some_0;
            let base = settings.gathering_base_experience as int;
            let step = gather_step(s, elapsed_ms as int, base);
            &&& outcome.start_error == if interact is Some {
                Some(ProgressionError::AlreadyGathering)
            } else {
                None::<ProgressionError>
            }
            &&& step.1 is None ==> {
                &&& *final(session) == step.0
                &&& outcome.completion is None
                &&& outcome.new_level is None
                &&& outcome.completion_item_error is None
                &&& *final(skills) == *old(skills)
                &&& *final(inventory) == *old(inventory)
            }
            &&& step.1 is Some ==> {
                let c = step.1->Some_0;
                let skill = skill_for_resource(s.resource_type);
                let xp = gather_experience(s.resource_type, base);
                let item = item_for_resource(s.resource_type);
                &&& *final(session) is None
                &&& outcome.completion == step.1
                &&& *final(skills) == old(skills).spec_with_experience(
                    skill,
                    (old(skills).spec_experience(skill) + xp) as u32,
                )
                &&& outcome.new_level == Some(
                    calculate_level_spec(
                        old(skills).spec_experience(skill) + xp,
                        settings.experience_curve@,
                    ),
                )
                &&& catalog.spec_contains(item) ==> {
                    &&& outcome.completion_item_error is None
                    &&& final(inventory).as_map() == old(inventory).as_map().insert(
                        item,
                        (stored_quantity(old(inventory).as_map(), item) + 1) as u32,
                    )
                }
                &&& !catalog.spec_contains(item) ==> {
                    &&& outcome.completion_item_error == Some(ProgressionError::UnknownItem)
                    &&& *final(inventory) == *old(inventory)
                }
            }
        },
{
    let mut completion: Option<GatherCompletion> = None;
    let mut new_level: Option<u32> = None;
    let mut completion_item_error: Option<ProgressionError> = None;
    let was_gathering = session.is_some();
    if let Some(active) = session.take() {
        let (next, completed) = gathering_tick(
            active,
            elapsed_ms,
            settings.gathering_base_experience,
        );
        *session = next;
        if let Some(c) = completed {
            let level = apply_skill_event(
                skills,
                settings.experience_curve.as_slice(),
                &c.skill_event,
            );
            let item_result = apply_inventory_update(inventory, catalog, &c.inventory_event);
            new_level = Some(level);
            completion_item_error = match item_result {
                Ok(()) => None,
                Err(e) => Some(e),
            };
            completion = Some(c);
        }
    }
    let start_error: Option<ProgressionError> = match interact {
        Some(ev) => {
            if was_gathering {
                Some(ProgressionError::AlreadyGathering)
            } else {
                match start_gathering(session, ev, resources, settings.gathering_time_base_ms) {
                    Ok(new_session) => {
                        *session = Some(new_session);
                        None
                    },
                    Err(e) => Some(e),
                }
            }
        },
        None => None,
    };
    GatheringOutcome { completion, new_level, completion_item_error, start_error }
}

/// The level an experience total earns, as `calculate_level` computes
/// it, narrowed to `u32`.
pub open spec fn calculate_level_spec(xp: int, curve: Seq<u32>) -> u32 {
    level_for(xp, curve) as u32
}

/// The style in force after an optional style-select signal.
pub open spec fn styled_choice(style_select: Option<CombatStyle>, prior: CombatStyle) -> CombatStyle {
    match style_select {
        Some(s) => s,
        None => prior,
    }
}

/// A cooldown after ticking down by the elapsed time, stopping at
/// zero.
pub open spec fn ticked_cooldown(cooldown_ms: u64, elapsed_ms: u64) -> u64 {
    if cooldown_ms >= elapsed_ms {
        (cooldown_ms - elapsed_ms) as u64
    } else {
        0
    }
}

/// One tick of the player's combat input handling.  A style-select
/// signal switches the style first, unconditionally; the cooldown then
/// ticks down by the elapsed time; only then is an attack signal
/// tried, exactly as `try_attack` specifies against the ticked state.
pub fn handle_combat_input(
    state: &mut CombatState,
    settings: &CombatSettings,
    attacker: u64,
    attacker_pos: &Position,
    enemies: &Vec<EnemySnapshot>,
    style_select: Option<CombatStyle>,
    attack_pressed: bool,
    elapsed_ms: u64,
) -> (r: (Option<CombatEvent>, Option<ProgressionError>))
    requires
        settings.wf(),
        attacker_pos.in_world(),
        forall|i: int| 0 <= i < enemies@.len() ==> (#[trigger] enemies@[i].position).in_world(),
    ensures
        final(state).current_style == styled_choice(style_select, old(state).current_style),
        !attack_pressed ==> {
            &&& r == (None::<CombatEvent>, None::<ProgressionError>)
            &&& final(state).cooldown_remaining_ms == ticked_cooldown(
                old(state).cooldown_remaining_ms,
                elapsed_ms,
            )
            &&& final(state).target == old(state).target
        },
        attack_pressed && ticked_cooldown(old(state).cooldown_remaining_ms, elapsed_ms) > 0 ==> {
            &&& r == (None::<CombatEvent>, Some(ProgressionError::ActionOnCooldown))
            &&& final(state).cooldown_remaining_ms == ticked_cooldown(
                old(state).cooldown_remaining_ms,
                elapsed_ms,
            )
            &&& final(state).target == old(state).target
        },
        attack_pressed && ticked_cooldown(old(state).cooldown_remaining_ms, elapsed_ms) == 0
            && !some_enemy_in_range(
            *attacker_pos,
            enemies@,
            spec_range_sq(*settings, styled_choice(style_select, old(state).current_style)),
        ) ==> {
            &&& r == (None::<CombatEvent>, Some(ProgressionError::NoTargetInRange))
            &&& final(state).cooldown_remaining_ms == 0
            &&& final(state).target == old(state).target
        },
        attack_pressed && ticked_cooldown(old(state).cooldown_remaining_ms, elapsed_ms) == 0
            && some_enemy_in_range(
            *attacker_pos,
            enemies@,
            spec_range_sq(*settings, styled_choice(style_select, old(state).current_style)),
        ) ==> exists|i: int|
            {
                &&& #[trigger] picks_nearest_enemy(
                    *attacker_pos,
                    enemies@,
                    spec_range_sq(
                        *settings,
                        styled_choice(style_select, old(state).current_style),
                    ),
                    i,
                )
                &&& r == (
                    Some(
                        CombatEvent {
                            attacker,
                            target: enemies@[i].entity,
                            style: styled_choice(style_select, old(state).current_style),
                        },
                    ),
                    None::<ProgressionError>,
                )
                &&& final(state).cooldown_remaining_ms == settings.attack_cooldown_ms
                &&& final(state).target == Some(enemies@[i].entity)
            },
{
    if let Some(style) = style_select {
        switch_style(state, style);
    }
    tick_cooldown(state, elapsed_ms);
    if !attack_pressed {
        return (None, None);
    }
    match try_attack(state, settings, attacker, attacker_pos, enemies) {
        Ok(event) => (Some(event), None),
        Err(e) => (None, Some(e)),
    }
}

} // verus!
