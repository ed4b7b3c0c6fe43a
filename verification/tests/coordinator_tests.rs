use jamesscape::combat::{CombatSettings, CombatState, CombatStyle};
use jamesscape::coordinator::{
    apply_inventory_update, apply_skill_event, handle_combat_input, handle_resource_gathering,
};
use jamesscape::entities::create_player;
use jamesscape::gathering::{
    check_resource_interaction, ResourceGatheringEvent, ResourceNode, ResourceNodeType,
};
use jamesscape::inventory::{Inventory, InventoryUpdateEvent, ItemDatabase};
use jamesscape::messages::{ChatChannel, ClientMessage, MovementDirection, ServerMessage};
use jamesscape::skills::{new_skills, SkillExperienceEvent, SkillId, Skills, SkillsSettings};
use jamesscape::world::Position;
use jamesscape::ProgressionError;

fn origin() -> Position {
    Position { x: 0, y: 0, z: 0 }
}

fn fresh_skills_with(woodcutting: u32) -> Skills {
    Skills { woodcutting, ..new_skills() }
}

#[test]
fn skill_event_grants_and_reports_level() {
    let settings = SkillsSettings::default();
    let mut skills = new_skills();
    let event = SkillExperienceEvent { skill: SkillId::Mining, experience: 200 };
    let level = apply_skill_event(&mut skills, &settings.experience_curve, &event);
    assert_eq!(skills.mining, 201);
    // 201 experience passes the 75 and 158 thresholds but not 249.
    assert_eq!(level, 3);
}

#[test]
fn inventory_update_routes_by_sign() {
    let db = ItemDatabase::default();
    let mut inv = Inventory::new(28);
    let add = InventoryUpdateEvent { item_id: 1, quantity: 5 };
    assert!(apply_inventory_update(&mut inv, &db, &add).is_ok());
    assert_eq!(inv.quantity_of(1), 5);
    let remove = InventoryUpdateEvent { item_id: 1, quantity: -2 };
    assert!(apply_inventory_update(&mut inv, &db, &remove).is_ok());
    assert_eq!(inv.quantity_of(1), 3);
    let nothing = InventoryUpdateEvent { item_id: 1, quantity: 0 };
    assert!(apply_inventory_update(&mut inv, &db, &nothing).is_ok());
    assert_eq!(inv.quantity_of(1), 3);
    let too_many = InventoryUpdateEvent { item_id: 1, quantity: -9 };
    assert_eq!(
        apply_inventory_update(&mut inv, &db, &too_many),
        Err(ProgressionError::InsufficientQuantity)
    );
    assert_eq!(inv.quantity_of(1), 3);
}

// A woodcutting actor with 0 experience gathers a tree for the full
// 3.0 seconds: 10 experience arrives, one unit of Logs arrives, and
// the session is gone.
#[test]
fn gathering_a_tree_start_to_finish() {
    let settings = SkillsSettings::default();
    let db = ItemDatabase::default();
    let mut skills = fresh_skills_with(0);
    let mut inventory = Inventory::new(28);
    let mut session = None;

    let resources = vec![ResourceNode {
        entity: 40,
        position: Position { x: 2000, y: 0, z: 0 },
        kind: ResourceNodeType::Tree,
    }];
    let interact = check_resource_interaction(&origin(), &resources).unwrap();
    assert_eq!(interact.entity, 40);

    let outcome = handle_resource_gathering(
        &mut session,
        &mut skills,
        &mut inventory,
        &db,
        &settings,
        Some(&interact),
        &resources,
        0,
    );
    assert!(outcome.start_error.is_none());
    assert!(outcome.completion.is_none());
    let active = session.unwrap();
    assert_eq!(active.progress_ms, 0);
    assert_eq!(active.total_time_ms, 3000);
    session = Some(active);

    let outcome = handle_resource_gathering(
        &mut session,
        &mut skills,
        &mut inventory,
        &db,
        &settings,
        None,
        &resources,
        3000,
    );
    let completion = outcome.completion.unwrap();
    assert_eq!(completion.skill_event.skill, SkillId::Woodcutting);
    assert_eq!(completion.skill_event.experience, 10);
    assert_eq!(completion.inventory_event.item_id, 1);
    assert_eq!(completion.inventory_event.quantity, 1);
    assert!(outcome.completion_item_error.is_none());
    assert_eq!(outcome.new_level, Some(1));
    assert_eq!(skills.woodcutting, 10);
    assert_eq!(inventory.quantity_of(1), 1);
    assert!(session.is_none());
}

#[test]
fn gathering_below_total_time_yields_nothing() {
    let settings = SkillsSettings::default();
    let db = ItemDatabase::default();
    let mut skills = fresh_skills_with(0);
    let mut inventory = Inventory::new(28);
    let resources = vec![ResourceNode {
        entity: 40,
        position: Position { x: 2000, y: 0, z: 0 },
        kind: ResourceNodeType::Tree,
    }];
    let interact = ResourceGatheringEvent { resource_type: ResourceNodeType::Tree, entity: 40 };
    let mut session = None;
    handle_resource_gathering(
        &mut session,
        &mut skills,
        &mut inventory,
        &db,
        &settings,
        Some(&interact),
        &resources,
        0,
    );
    let outcome = handle_resource_gathering(
        &mut session,
        &mut skills,
        &mut inventory,
        &db,
        &settings,
        None,
        &resources,
        2999,
    );
    assert!(outcome.completion.is_none());
    assert_eq!(skills.woodcutting, 0);
    assert_eq!(inventory.quantity_of(1), 0);
    assert_eq!(session.unwrap().progress_ms, 2999);
}

#[test]
fn interact_during_active_session_reports_already_gathering() {
    let settings = SkillsSettings::default();
    let db = ItemDatabase::default();
    let mut skills = fresh_skills_with(0);
    let mut inventory = Inventory::new(28);
    let resources = vec![ResourceNode {
        entity: 40,
        position: Position { x: 2000, y: 0, z: 0 },
        kind: ResourceNodeType::Tree,
    }];
    let interact = ResourceGatheringEvent { resource_type: ResourceNodeType::Tree, entity: 40 };
    let mut session = None;
    handle_resource_gathering(
        &mut session,
        &mut skills,
        &mut inventory,
        &db,
        &settings,
        Some(&interact),
        &resources,
        0,
    );
    // The session is active: a second interact is rejected, even in
    // the very tick the session completes.
    let outcome = handle_resource_gathering(
        &mut session,
        &mut skills,
        &mut inventory,
        &db,
        &settings,
        Some(&interact),
        &resources,
        3000,
    );
    assert!(outcome.completion.is_some());
    assert_eq!(outcome.start_error, Some(ProgressionError::AlreadyGathering));
    assert!(session.is_none());
}

#[test]
fn combat_input_switches_style_then_attacks() {
    let settings = CombatSettings::default();
    let mut state = CombatState {
        current_style: CombatStyle::Melee,
        cooldown_remaining_ms: 0,
        target: None,
    };
    let enemies = vec![jamesscape::combat::EnemySnapshot {
        entity: 9,
        position: Position { x: 5000, y: 0, z: 0 },
    }];
    // Out of melee reach, but a style switch to ranged lands first.
    let (event, error) = handle_combat_input(
        &mut state,
        &settings,
        100,
        &origin(),
        &enemies,
        Some(CombatStyle::Ranged),
        true,
        0,
    );
    assert!(error.is_none());
    let event = event.unwrap();
    assert_eq!(event.style, CombatStyle::Ranged);
    assert_eq!(event.target, 9);
    assert_eq!(state.cooldown_remaining_ms, 1500);
}

#[test]
fn combat_input_on_cooldown_reports_diagnostic() {
    let settings = CombatSettings::default();
    let mut state = CombatState::default();
    let enemies = vec![jamesscape::combat::EnemySnapshot {
        entity: 9,
        position: Position { x: 1000, y: 0, z: 0 },
    }];
    let (event, error) = handle_combat_input(
        &mut state,
        &settings,
        100,
        &origin(),
        &enemies,
        None,
        true,
        100,
    );
    assert!(event.is_none());
    assert_eq!(error, Some(ProgressionError::ActionOnCooldown));
    assert_eq!(state.cooldown_remaining_ms, 1400);
}

#[test]
fn created_player_keeps_its_name() {
    let player = create_player(String::from("Explorer"));
    assert_eq!(player.username, "Explorer");
}

#[test]
fn message_values_carry_their_fields() {
    let m = ClientMessage::ChatMessage {
        content: String::from("hello"),
        channel: ChatChannel::Global,
    };
    match m {
        ClientMessage::ChatMessage { content, channel } => {
            assert_eq!(content, "hello");
            assert!(matches!(channel, ChatChannel::Global));
        },
        _ => panic!("unexpected message variant"),
    }
    let d = MovementDirection::NorthEast;
    assert!(matches!(d, MovementDirection::NorthEast));
    let s = ServerMessage::PlayerLeft { player_id: 17 };
    match s {
        ServerMessage::PlayerLeft { player_id } => assert_eq!(player_id, 17),
        _ => panic!("unexpected message variant"),
    }
}
