use jamesscape::gathering::{
    check_resource_interaction, experience_for_gather, gathering_tick, get_item_id_for_resource,
    skill_id_for_resource, start_gathering, GatheringInProgress, ResourceGatheringEvent,
    ResourceNode, ResourceNodeType,
};
use jamesscape::skills::SkillId;
use jamesscape::world::Position;
use jamesscape::ProgressionError;

fn origin() -> Position {
    Position { x: 0, y: 0, z: 0 }
}

fn node(entity: u64, x: i64, kind: ResourceNodeType) -> ResourceNode {
    ResourceNode { entity, position: Position { x, y: 0, z: 0 }, kind }
}

#[test]
fn resource_kinds_map_to_items() {
    assert_eq!(get_item_id_for_resource(&ResourceNodeType::Tree), 1);
    assert_eq!(get_item_id_for_resource(&ResourceNodeType::Rock), 2);
    assert_eq!(get_item_id_for_resource(&ResourceNodeType::OreDeposit), 3);
    assert_eq!(get_item_id_for_resource(&ResourceNodeType::FishingSpot), 4);
}

#[test]
fn resource_kinds_map_to_skills() {
    assert_eq!(skill_id_for_resource(&ResourceNodeType::Tree), SkillId::Woodcutting);
    assert_eq!(skill_id_for_resource(&ResourceNodeType::Rock), SkillId::Mining);
    assert_eq!(skill_id_for_resource(&ResourceNodeType::OreDeposit), SkillId::Mining);
    assert_eq!(skill_id_for_resource(&ResourceNodeType::FishingSpot), SkillId::Fishing);
}

#[test]
fn experience_multipliers_truncate() {
    assert_eq!(experience_for_gather(&ResourceNodeType::Tree, 10), 10);
    assert_eq!(experience_for_gather(&ResourceNodeType::Rock, 10), 12);
    assert_eq!(experience_for_gather(&ResourceNodeType::OreDeposit, 10), 15);
    assert_eq!(experience_for_gather(&ResourceNodeType::FishingSpot, 10), 11);
    assert_eq!(experience_for_gather(&ResourceNodeType::FishingSpot, 5), 5);
}

#[test]
fn interaction_picks_nearest_resource_in_range() {
    let resources = vec![
        node(10, 2500, ResourceNodeType::Rock),
        node(11, 1200, ResourceNodeType::Tree),
        node(12, 2900, ResourceNodeType::OreDeposit),
    ];
    let r = check_resource_interaction(&origin(), &resources).unwrap();
    assert_eq!(r.entity, 11);
    assert_eq!(r.resource_type, ResourceNodeType::Tree);
}

#[test]
fn interaction_tie_goes_to_earlier_resource() {
    let resources = vec![
        node(20, 1500, ResourceNodeType::Rock),
        node(21, 1500, ResourceNodeType::Tree),
    ];
    let r = check_resource_interaction(&origin(), &resources).unwrap();
    assert_eq!(r.entity, 20);
}

#[test]
fn interaction_out_of_range_reports_no_target() {
    let resources = vec![node(30, 3000, ResourceNodeType::Tree)];
    let r = check_resource_interaction(&origin(), &resources);
    assert_eq!(r.unwrap_err(), ProgressionError::NoTargetInRange);
}

#[test]
fn start_captures_target_position() {
    let resources = vec![node(40, 2000, ResourceNodeType::Tree)];
    let event = ResourceGatheringEvent { resource_type: ResourceNodeType::Tree, entity: 40 };
    let session = start_gathering(&None, &event, &resources, 3000).unwrap();
    assert_eq!(session.progress_ms, 0);
    assert_eq!(session.total_time_ms, 3000);
    assert_eq!(session.target_entity, 40);
    assert_eq!(session.target_position, Some(Position { x: 2000, y: 0, z: 0 }));
}

#[test]
fn start_with_unknown_entity_has_no_position() {
    let resources = vec![node(40, 2000, ResourceNodeType::Tree)];
    let event = ResourceGatheringEvent { resource_type: ResourceNodeType::Rock, entity: 99 };
    let session = start_gathering(&None, &event, &resources, 3000).unwrap();
    assert_eq!(session.target_position, None);
}

#[test]
fn start_while_gathering_is_rejected() {
    let resources = vec![node(40, 2000, ResourceNodeType::Tree)];
    let event = ResourceGatheringEvent { resource_type: ResourceNodeType::Tree, entity: 40 };
    let active = GatheringInProgress {
        resource_type: ResourceNodeType::Tree,
        target_entity: 40,
        progress_ms: 100,
        total_time_ms: 3000,
        target_position: None,
    };
    let r = start_gathering(&Some(active), &event, &resources, 3000);
    assert_eq!(r.unwrap_err(), ProgressionError::AlreadyGathering);
}

#[test]
fn tick_below_total_emits_nothing() {
    let session = GatheringInProgress {
        resource_type: ResourceNodeType::Tree,
        target_entity: 1,
        progress_ms: 0,
        total_time_ms: 3000,
        target_position: None,
    };
    let (next, completion) = gathering_tick(session, 2999, 10);
    let next = next.unwrap();
    assert_eq!(next.progress_ms, 2999);
    assert!(completion.is_none());
}

#[test]
fn tick_reaching_total_completes_with_both_events() {
    let session = GatheringInProgress {
        resource_type: ResourceNodeType::Tree,
        target_entity: 1,
        progress_ms: 0,
        total_time_ms: 3000,
        target_position: None,
    };
    let (next, completion) = gathering_tick(session, 3000, 10);
    assert!(next.is_none());
    let c = completion.unwrap();
    assert_eq!(c.skill_event.skill, SkillId::Woodcutting);
    assert_eq!(c.skill_event.experience, 10);
    assert_eq!(c.inventory_event.item_id, 1);
    assert_eq!(c.inventory_event.quantity, 1);
}

#[test]
fn tick_past_total_also_completes() {
    let session = GatheringInProgress {
        resource_type: ResourceNodeType::OreDeposit,
        target_entity: 7,
        progress_ms: 2500,
        total_time_ms: 3000,
        target_position: None,
    };
    let (next, completion) = gathering_tick(session, 1000, 10);
    assert!(next.is_none());
    let c = completion.unwrap();
    assert_eq!(c.skill_event.skill, SkillId::Mining);
    assert_eq!(c.skill_event.experience, 15);
    assert_eq!(c.inventory_event.item_id, 3);
}
