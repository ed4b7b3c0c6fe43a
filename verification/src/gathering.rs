//! Gathering state machine: a per-actor timed action that, on
//! completion, atomically emits one experience event and one inventory
//! add, then destroys itself.
//!
//! The machine has two states, idle and in progress.  An interact
//! signal starts a session when a resource stands within interaction
//! range and no session is active; each tick adds the elapsed time to
//! the session's progress; the instant progress reaches the required
//! total the session completes and is gone.

use crate::inventory::InventoryUpdateEvent;
use crate::skills::{SkillExperienceEvent, SkillId};
use crate::world::{dist_sq, distance_squared, Position};
use crate::ProgressionError;
use vstd::prelude::*;

verus! {

/// Interaction range for starting a gather, squared: 3.0 world units,
/// i.e. 3000 coordinate thousandths, squared.
pub const INTERACTION_RANGE_SQ: u64 = 9_000_000;

/// Category of a gatherable world object.
#[derive(Clone, Copy, Debug, PartialEq, Eq, Structural)]
pub enum ResourceNodeType {
    Tree,
    Rock,
    OreDeposit,
    FishingSpot,
}

/// One gatherable object of the world snapshot: its entity identifier,
/// position and kind.
#[derive(Clone, Copy, Debug, PartialEq, Eq, Structural)]
pub struct ResourceNode {
    pub entity: u64,
    pub position: Position,
    pub kind: ResourceNodeType,
}

/// A domain event: an interact signal selected this resource for
/// gathering.
#[derive(Clone, Copy, Debug, PartialEq, Eq, Structural)]
pub struct ResourceGatheringEvent {
    pub resource_type: ResourceNodeType,
    pub entity: u64,
}

/// The transient state of an in-progress timed gather: what is being
/// gathered, how far along the action is, how long it takes in total,
/// and where the resource stood when the session began (kept for
/// facing and animation by presentation code outside this core).
#[derive(Clone, Copy, Debug, PartialEq, Eq, Structural)]
pub struct GatheringInProgress {
    pub resource_type: ResourceNodeType,
    pub target_entity: u64,
    pub progress_ms: u64,
    pub total_time_ms: u64,
    pub target_position: Option<Position>,
}

/// The pair of domain events a completed gather emits atomically.
#[derive(Clone, Copy, Debug, PartialEq, Eq, Structural)]
pub struct GatherCompletion {
    pub skill_event: SkillExperienceEvent,
    pub inventory_event: InventoryUpdateEvent,
}

/// The skill a resource kind trains.
pub open spec fn skill_for_resource(kind: ResourceNodeType) -> SkillId {
    match kind {
        ResourceNodeType::Tree => SkillId::Woodcutting,
        ResourceNodeType::Rock => SkillId::Mining,
        ResourceNodeType::OreDeposit => SkillId::Mining,
        ResourceNodeType::FishingSpot => SkillId::Fishing,
    }
}

/// The experience multiplier of a resource kind, in tenths: 1.0 for a
/// tree, 1.2 for a rock, 1.5 for an ore deposit, 1.1 for a fishing
/// spot.
pub open spec fn multiplier_tenths(kind: ResourceNodeType) -> int {
    match kind {
        ResourceNodeType::Tree => 10,
        ResourceNodeType::Rock => 12,
        ResourceNodeType::OreDeposit => 15,
        ResourceNodeType::FishingSpot => 11,
    }
}

/// The experience a completed gather grants: the base experience times
/// the kind's multiplier, truncated to an integer.
pub open spec fn gather_experience(kind: ResourceNodeType, base_experience: int) -> int {
    base_experience * multiplier_tenths(kind) / 10
}

/// The item a resource kind yields, by catalog identifier.
pub open spec fn item_for_resource(kind: ResourceNodeType) -> u64 {
    match kind {
        ResourceNodeType::Tree => 1,
        ResourceNodeType::Rock => 2,
        ResourceNodeType::OreDeposit => 3,
        ResourceNodeType::FishingSpot => 4,
    }
}

/// The catalog identifier of the item a resource kind yields.
pub fn get_item_id_for_resource(resource_type: &ResourceNodeType) -> (id: u64)
    ensures
        id == item_for_resource(*resource_type),
{
    match resource_type {
        ResourceNodeType::Tree => 1,
        ResourceNodeType::Rock => 2,
        ResourceNodeType::OreDeposit => 3,
        ResourceNodeType::FishingSpot => 4,
    }
}

/// The skill a resource kind trains.
pub fn skill_id_for_resource(resource_type: &ResourceNodeType) -> (skill: SkillId)
    ensures
        skill == skill_for_resource(*resource_type),
{
    match resource_type {
        ResourceNodeType::Tree => SkillId::Woodcutting,
        ResourceNodeType::Rock => SkillId::Mining,
        ResourceNodeType::OreDeposit => SkillId::Mining,
        ResourceNodeType::FishingSpot => SkillId::Fishing,
    }
}

/// The experience a completed gather of this kind grants, from the
/// configured base experience.
pub fn experience_for_gather(resource_type: &ResourceNodeType, base_experience: u32) -> (xp: u64)
    ensures
        xp == gather_experience(*resource_type, base_experience as int),
{
    let mult: u64 = match resource_type {
        ResourceNodeType::Tree => 10,
        ResourceNodeType::Rock => 12,
        ResourceNodeType::OreDeposit => 15,
        ResourceNodeType::FishingSpot => 11,
    };
    (base_experience as u64) * mult / 10
}

/// Whether node `i` is the one an in-range scan from `origin` picks:
/// strictly nearest among the nodes within the squared range, with the
/// earliest node winning ties.
pub open spec fn picks_nearest(
    origin: Position,
    nodes: Seq<ResourceNode>,
    range_sq: int,
    i: int,
) -> bool {
    &&& 0 <= i < nodes.len()
    &&& dist_sq(origin, nodes[i].position) < range_sq
    &&& forall|j: int|
        0 <= j < nodes.len() && dist_sq(origin, #[trigger] nodes[j].position) < range_sq
            ==> dist_sq(origin, nodes[j].position) >= dist_sq(origin, nodes[i].position)
    &&& forall|j: int|
        0 <= j < i ==> dist_sq(origin, #[trigger] nodes[j].position) > dist_sq(
            origin,
            nodes[i].position,
        )
}

/// Selects the resource an interact signal gathers: the strictly
/// nearest node within interaction range of the actor, earlier nodes
/// winning ties.  Reports `NoTargetInRange` when no node is in range.
pub fn check_resource_interaction(player_pos: &Position, resources: &Vec<ResourceNode>) -> (r:
    Result<ResourceGatheringEvent, ProgressionError>)
    requires
        player_pos.in_world(),
        forall|i: int| 0 <= i < resources@.len() ==> (#[trigger] resources@[i].position).in_world(),
    ensures
        match r {
            Ok(ev) => exists|i: int|
                {
                    &&& #[trigger] picks_nearest(
                        *player_pos,
                        resources@,
                        INTERACTION_RANGE_SQ as int,
                        i,
                    )
                    &&& ev == (ResourceGatheringEvent {
                        resource_type: resources@[i].kind,
                        entity: resources@[i].entity,
                    })
                },
            Err(e) => {
                &&& e == ProgressionError::NoTargetInRange
                &&& forall|j: int|
                    0 <= j < resources@.len() ==> dist_sq(
                        *player_pos,
                        #[trigger] resources@[j].position,
                    ) >= INTERACTION_RANGE_SQ
            },
        },
{
    let n = resources.len();
    let mut best: Option<usize> = None;
    let mut best_dist: u64 = 0;
    let mut i: usize = 0;
    while i < n
        invariant
            0 <= i <= n,
            n == resources@.len(),
            player_pos.in_world(),
            forall|k: int|
                0 <= k < n ==> (#[trigger] resources@[k].position).in_world(),
            match best {
                Some(b) => {
                    &&& b < i
                    &&& best_dist == dist_sq(*player_pos, resources@[b as int].position)
                    &&& best_dist < INTERACTION_RANGE_SQ
                    &&& forall|j: int|
                        0 <= j < i && dist_sq(*player_pos, #[trigger] resources@[j].position)
                            < INTERACTION_RANGE_SQ ==> dist_sq(*player_pos, resources@[j].position)
                            >= best_dist
                    &&& forall|j: int|
                        0 <= j < b ==> dist_sq(*player_pos, #[trigger] resources@[j].position)
                            > best_dist
                },
                None => forall|j: int|
                    0 <= j < i ==> dist_sq(*player_pos, #[trigger] resources@[j].position)
                        >= INTERACTION_RANGE_SQ,
            },
        decreases n - i,
    {
        let d = distance_squared(player_pos, &resources[i].position);
        let improves = match best {
            Some(_) => d < INTERACTION_RANGE_SQ && d < best_dist,
            None => d < INTERACTION_RANGE_SQ,
        };
        if improves {
            best = Some(i);
            best_dist = d;
        }
        i = i + 1;
    }
    match best {
        Some(b) => {
            proof {
                assert(picks_nearest(*player_pos, resources@, INTERACTION_RANGE_SQ as int, b as int));
            }
            Ok(
                ResourceGatheringEvent {
                    resource_type: resources[b].kind,
                    entity: resources[b].entity,
                },
            )
        },
        None => Err(ProgressionError::NoTargetInRange),
    }
}

/// The captured position of the first node carrying an entity
/// identifier, if any node does.
pub open spec fn position_of_entity(nodes: Seq<ResourceNode>, entity: u64) -> Option<Position>
    decreases nodes.len(),
{
    if nodes.len() == 0 {
        None
    } else if nodes[0].entity == entity {
        Some(nodes[0].position)
    } else {
        position_of_entity(nodes.subrange(1, nodes.len() as int), entity)
    }
}

/// A forward scan that passed the first `i` nodes finds the entity at
/// `i`, or nowhere.
proof fn lemma_position_of_entity_at(nodes: Seq<ResourceNode>, entity: u64, i: int)
    requires
        0 <= i <= nodes.len(),
        forall|j: int| 0 <= j < i ==> nodes[j].entity != entity,
        i < nodes.len() ==> nodes[i].entity == entity,
    ensures
        position_of_entity(nodes, entity) == if i < nodes.len() {
            Some(nodes[i].position)
        } else {
            None::<Position>
        },
    decreases i,
{
    if i > 0 {
        lemma_position_of_entity_at(nodes.subrange(1, nodes.len() as int), entity, i - 1);
    }
}

/// Starts a gathering session for the resource an interact event
/// selected.  A signal that arrives while a session is active is a
/// no-op, reported as `AlreadyGathering`.  The new session starts at
/// zero progress and captures the resource's current position.
pub fn start_gathering(
    session: &Option<GatheringInProgress>,
    event: &ResourceGatheringEvent,
    resources: &Vec<ResourceNode>,
    total_time_ms: u64,
) -> (r: Result<GatheringInProgress, ProgressionError>)
    ensures
        session is Some ==> r == Err::<GatheringInProgress, ProgressionError>(
            ProgressionError::AlreadyGathering,
        ),
        session is None ==> r == Ok::<GatheringInProgress, ProgressionError>(
            GatheringInProgress {
                resource_type: event.resource_type,
                target_entity: event.entity,
                progress_ms: 0,
                total_time_ms,
                target_position: position_of_entity(resources@, event.entity),
            },
        ),
{
    if session.is_some() {
        return Err(ProgressionError::AlreadyGathering);
    }
    let n = resources.len();
    let mut target_position: Option<Position> = None;
    let ghost mut first_idx: int = 0;
    let mut i: usize = 0;
    while i < n
        invariant
            0 <= i <= n,
            n == resources@.len(),
            target_position is None ==> forall|j: int|
                0 <= j < i ==> resources@[j].entity != event.entity,
            target_position is Some ==> {
                &&& 0 <= first_idx < i
                &&& resources@[first_idx].entity == event.entity
                &&& forall|j: int| 0 <= j < first_idx ==> resources@[j].entity != event.entity
                &&& target_position == Some(resources@[first_idx].position)
            },
        decreases n - i,
    {
        if target_position.is_none() && resources[i].entity == event.entity {
            target_position = Some(resources[i].position);
            proof {
                first_idx = i as int;
            }
        }
        i = i + 1;
    }
    proof {
        if target_position is None {
            lemma_position_of_entity_at(resources@, event.entity, n as int);
        } else {
            lemma_position_of_entity_at(resources@, event.entity, first_idx);
        }
    }
    Ok(
        GatheringInProgress {
            resource_type: event.resource_type,
            target_entity: event.entity,
            progress_ms: 0,
            total_time_ms,
            target_position,
        },
    )
}

/// One tick of an active session: elapsed time is added to the
/// progress; the session either continues or, the instant progress
/// reaches the total, completes with its two events and is gone.
pub open spec fn gather_step(s: GatheringInProgress, elapsed_ms: int, base_experience: int) -> (
    Option<GatheringInProgress>,
    Option<GatherCompletion>,
) {
    if s.progress_ms + elapsed_ms >= s.total_time_ms {
        (
            None,
            Some(
                GatherCompletion {
                    skill_event: SkillExperienceEvent {
                        skill: skill_for_resource(s.resource_type),
                        experience: gather_experience(s.resource_type, base_experience) as u32,
                    },
                    inventory_event: InventoryUpdateEvent {
                        item_id: item_for_resource(s.resource_type),
                        quantity: 1,
                    },
                },
            ),
        )
    } else {
        (
            Some(GatheringInProgress { progress_ms: (s.progress_ms + elapsed_ms) as u64, ..s }),
            None,
        )
    }
}

/// Advances an active session by the elapsed time.  While progress
/// stays below the required total the session continues unchanged but
/// for its progress, and nothing is emitted; the instant progress
/// reaches the total, exactly one experience event and one inventory
/// add are emitted and the session is destroyed.
pub fn gathering_tick(session: GatheringInProgress, elapsed_ms: u64, base_experience: u32) -> (r: (
    Option<GatheringInProgress>,
    Option<GatherCompletion>,
))
    requires
        session.progress_ms + elapsed_ms <= u64::MAX,
        gather_experience(session.resource_type, base_experience as int) <= u32::MAX,
    ensures
        r == gather_step(session, elapsed_ms as int, base_experience as int),
{
    let progress = session.progress_ms + elapsed_ms;
    if progress >= session.total_time_ms {
        let xp = experience_for_gather(&session.resource_type, base_experience);
        let completion = GatherCompletion {
            skill_event: SkillExperienceEvent {
                skill: skill_id_for_resource(&session.resource_type),
                experience: xp as u32,
            },
            inventory_event: InventoryUpdateEvent {
                item_id: get_item_id_for_resource(&session.resource_type),
                quantity: 1,
            },
        };
        (None, Some(completion))
    } else {
        (Some(GatheringInProgress { progress_ms: progress, ..session }), None)
    }
}

/// A session started at zero progress completes after exactly its
/// total duration: advancing by the full duration yields exactly one
/// experience event and one inventory add of one unit of the kind's
/// yield, and the session no longer exists; advancing by any shorter
/// time yields neither event and the session lives on.
pub proof fn lemma_gathering_completes_on_time(s: GatheringInProgress, base_experience: int)
    requires
        s.progress_ms == 0,
    ensures
        gather_step(s, s.total_time_ms as int, base_experience).0 is None,
        gather_step(s, s.total_time_ms as int, base_experience).1 == Some(
            GatherCompletion {
                skill_event: SkillExperienceEvent {
                    skill: skill_for_resource(s.resource_type),
                    experience: gather_experience(s.resource_type, base_experience) as u32,
                },
                inventory_event: InventoryUpdateEvent {
                    item_id: item_for_resource(s.resource_type),
                    quantity: 1,
                },
            },
        ),
        forall|d: int|
            0 <= d < s.total_time_ms ==> (#[trigger] gather_step(s, d, base_experience)).0
                == Some(GatheringInProgress { progress_ms: d as u64, ..s }) && gather_step(
                s,
                d,
                base_experience,
            ).1 is None,
{
}

} // verus!
