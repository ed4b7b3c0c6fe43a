//! Experience ledger: per-skill experience counters and the
//! experience-to-level curve.
//!
//! Experience is cumulative and never decreases; a level is always
//! derived from experience through the curve, never stored.  The curve
//! holds one cumulative threshold per level boundary, built from the
//! formula `threshold[level] = floor(((level-1) + 300 * 2^((level-1)/7)) / 4)`
//! accumulated from level 1 upward.  The factor `2^((level-1)/7)` is
//! evaluated exactly: with `level - 1 = 7q + r`, it equals
//! `2^q * 2^(r/7)`, and each of the seven constants `2^(r/7)` is carried
//! as a fixed-point integer scaled by 2^40.  The scale is fine enough
//! that the floor of the quotient equals the floor of the exact real
//! value at every level the curve covers.

use vstd::arithmetic::power2::{lemma2_to64, lemma_pow2_pos, lemma_pow2_unfold, pow2};
use vstd::prelude::*;
use vstd::string::StringSliceAdditionalSpecFns;

verus! {

/// A fixed, closed set of skill identifiers.
#[derive(Clone, Copy, Debug, PartialEq, Eq, Structural)]
pub enum SkillId {
    Attack,
    Defense,
    Strength,
    Hitpoints,
    Ranged,
    Prayer,
    Magic,
    Cooking,
    Woodcutting,
    Fletching,
    Fishing,
    Firemaking,
    Crafting,
    Smithing,
    Mining,
    Herblore,
    Agility,
    Thieving,
    Slayer,
    Farming,
    Runecrafting,
}

/// Per-actor experience counters, one per skill.
#[derive(Clone, Copy, Debug, PartialEq, Eq, Structural)]
pub struct Skills {
    pub attack: u32,
    pub defense: u32,
    pub strength: u32,
    pub hitpoints: u32,
    pub ranged: u32,
    pub prayer: u32,
    pub magic: u32,
    pub cooking: u32,
    pub woodcutting: u32,
    pub fletching: u32,
    pub fishing: u32,
    pub firemaking: u32,
    pub crafting: u32,
    pub smithing: u32,
    pub mining: u32,
    pub herblore: u32,
    pub agility: u32,
    pub thieving: u32,
    pub slayer: u32,
    pub farming: u32,
    pub runecrafting: u32,
}

impl Skills {
    /// The experience counter a skill identifier selects.
    pub open spec fn spec_experience(self, skill: SkillId) -> u32 {
        match skill {
            SkillId::Attack => self.attack,
            SkillId::Defense => self.defense,
            SkillId::Strength => self.strength,
            SkillId::Hitpoints => self.hitpoints,
            SkillId::Ranged => self.ranged,
            SkillId::Prayer => self.prayer,
            SkillId::Magic => self.magic,
            SkillId::Cooking => self.cooking,
            SkillId::Woodcutting => self.woodcutting,
            SkillId::Fletching => self.fletching,
            SkillId::Fishing => self.fishing,
            SkillId::Firemaking => self.firemaking,
            SkillId::Crafting => self.crafting,
            SkillId::Smithing => self.smithing,
            SkillId::Mining => self.mining,
            SkillId::Herblore => self.herblore,
            SkillId::Agility => self.agility,
            SkillId::Thieving => self.thieving,
            SkillId::Slayer => self.slayer,
            SkillId::Farming => self.farming,
            SkillId::Runecrafting => self.runecrafting,
        }
    }

    /// The same counters with one skill's experience replaced.
    pub open spec fn spec_with_experience(self, skill: SkillId, xp: u32) -> Skills {
        match skill {
            SkillId::Attack => Skills { attack: xp, ..self },
            SkillId::Defense => Skills { defense: xp, ..self },
            SkillId::Strength => Skills { strength: xp, ..self },
            SkillId::Hitpoints => Skills { hitpoints: xp, ..self },
            SkillId::Ranged => Skills { ranged: xp, ..self },
            SkillId::Prayer => Skills { prayer: xp, ..self },
            SkillId::Magic => Skills { magic: xp, ..self },
            SkillId::Cooking => Skills { cooking: xp, ..self },
            SkillId::Woodcutting => Skills { woodcutting: xp, ..self },
            SkillId::Fletching => Skills { fletching: xp, ..self },
            SkillId::Fishing => Skills { fishing: xp, ..self },
            SkillId::Firemaking => Skills { firemaking: xp, ..self },
            SkillId::Crafting => Skills { crafting: xp, ..self },
            SkillId::Smithing => Skills { smithing: xp, ..self },
            SkillId::Mining => Skills { mining: xp, ..self },
            SkillId::Herblore => Skills { herblore: xp, ..self },
            SkillId::Agility => Skills { agility: xp, ..self },
            SkillId::Thieving => Skills { thieving: xp, ..self },
            SkillId::Slayer => Skills { slayer: xp, ..self },
            SkillId::Farming => Skills { farming: xp, ..self },
            SkillId::Runecrafting => Skills { runecrafting: xp, ..self },
        }
    }

    /// Reads one skill's experience counter.
    pub fn experience(&self, skill: SkillId) -> (xp: u32)
        ensures
            xp == self.spec_experience(skill),
    {
        match skill {
            SkillId::Attack => self.attack,
            SkillId::Defense => self.defense,
            SkillId::Strength => self.strength,
            SkillId::Hitpoints => self.hitpoints,
            SkillId::Ranged => self.ranged,
            SkillId::Prayer => self.prayer,
            SkillId::Magic => self.magic,
            SkillId::Cooking => self.cooking,
            SkillId::Woodcutting => self.woodcutting,
            SkillId::Fletching => self.fletching,
            SkillId::Fishing => self.fishing,
            SkillId::Firemaking => self.firemaking,
            SkillId::Crafting => self.crafting,
            SkillId::Smithing => self.smithing,
            SkillId::Mining => self.mining,
            SkillId::Herblore => self.herblore,
            SkillId::Agility => self.agility,
            SkillId::Thieving => self.thieving,
            SkillId::Slayer => self.slayer,
            SkillId::Farming => self.farming,
            SkillId::Runecrafting => self.runecrafting,
        }
    }
}

/// Adds `amount` to the named skill's experience counter.  Experience
/// only ever grows; every other counter is untouched.
pub fn gain_experience(skills: &mut Skills, skill: SkillId, amount: u32)
    requires
        old(skills).spec_experience(skill) + amount <= u32::MAX,
    ensures
        *final(skills) == old(skills).spec_with_experience(
            skill,
            (old(skills).spec_experience(skill) + amount) as u32,
        ),
        final(skills).spec_experience(skill) >= old(skills).spec_experience(skill),
{
    match skill {
        SkillId::Attack => skills.attack = skills.attack + amount,
        SkillId::Defense => skills.defense = skills.defense + amount,
        SkillId::Strength => skills.strength = skills.strength + amount,
        SkillId::Hitpoints => skills.hitpoints = skills.hitpoints + amount,
        SkillId::Ranged => skills.ranged = skills.ranged + amount,
        SkillId::Prayer => skills.prayer = skills.prayer + amount,
        SkillId::Magic => skills.magic = skills.magic + amount,
        SkillId::Cooking => skills.cooking = skills.cooking + amount,
        SkillId::Woodcutting => skills.woodcutting = skills.woodcutting + amount,
        SkillId::Fletching => skills.fletching = skills.fletching + amount,
        SkillId::Fishing => skills.fishing = skills.fishing + amount,
        SkillId::Firemaking => skills.firemaking = skills.firemaking + amount,
        SkillId::Crafting => skills.crafting = skills.crafting + amount,
        SkillId::Smithing => skills.smithing = skills.smithing + amount,
        SkillId::Mining => skills.mining = skills.mining + amount,
        SkillId::Herblore => skills.herblore = skills.herblore + amount,
        SkillId::Agility => skills.agility = skills.agility + amount,
        SkillId::Thieving => skills.thieving = skills.thieving + amount,
        SkillId::Slayer => skills.slayer = skills.slayer + amount,
        SkillId::Farming => skills.farming = skills.farming + amount,
        SkillId::Runecrafting => skills.runecrafting = skills.runecrafting + amount,
    }
}

/// The counters a freshly spawned actor starts with: every skill at the
/// minimum experience floor of 1, except hitpoints at 10.
pub fn new_skills() -> (skills: Skills)
    ensures
        skills == (Skills {
            attack: 1,
            defense: 1,
            strength: 1,
            hitpoints: 10,
            ranged: 1,
            prayer: 1,
            magic: 1,
            cooking: 1,
            woodcutting: 1,
            fletching: 1,
            fishing: 1,
            firemaking: 1,
            crafting: 1,
            smithing: 1,
            mining: 1,
            herblore: 1,
            agility: 1,
            thieving: 1,
            slayer: 1,
            farming: 1,
            runecrafting: 1,
        }),
{
    Skills {
        attack: 1,
        defense: 1,
        strength: 1,
        hitpoints: 10,
        ranged: 1,
        prayer: 1,
        magic: 1,
        cooking: 1,
        woodcutting: 1,
        fletching: 1,
        fishing: 1,
        firemaking: 1,
        crafting: 1,
        smithing: 1,
        mining: 1,
        herblore: 1,
        agility: 1,
        thieving: 1,
        slayer: 1,
        farming: 1,
        runecrafting: 1,
    }
}

/// The scale of the fixed-point constants below: 2^40.
pub open spec fn curve_scale() -> int {
    0x100_0000_0000
}

/// `2^(r/7)` for `r` in `0..7`, scaled by 2^40 and rounded to the
/// nearest integer.
pub open spec fn seventh_root_scaled(r: int) -> int {
    if r == 0 {
        1099511627776
    } else if r == 1 {
        1213959258390
    } else if r == 2 {
        1340319687216
    } else if r == 3 {
        1479832911625
    } else if r == 4 {
        1633867999715
    } else if r == 5 {
        1803936525212
    } else {
        1991707400820
    }
}

/// The experience points level `level` adds to the cumulative curve:
/// `floor(((level-1) + 300 * 2^((level-1)/7)) / 4)`, with the
/// seventh-root factor in 2^40 fixed point.
pub open spec fn points_for_level(level: int) -> int {
    let q = (level - 1) / 7;
    let r = (level - 1) % 7;
    ((level - 1) * curve_scale() + 300 * pow2(q as nat) * seventh_root_scaled(r)) / (
    4 * curve_scale())
}

/// Cumulative experience required to pass `level`: the sum of
/// `points_for_level` over levels 1 through `level`.
pub open spec fn cumulative_xp(level: int) -> int
    decreases level,
{
    if level <= 0 {
        0
    } else {
        cumulative_xp(level - 1) + points_for_level(level)
    }
}

/// Every level's points contribution lies between 75 and 3,000,000.
proof fn lemma_points_bounds(level: int)
    requires
        1 <= level <= 99,
    ensures
        75 <= points_for_level(level) <= 3_000_000,
{
    let q = (level - 1) / 7;
    let r = (level - 1) % 7;
    vstd::arithmetic::div_mod::lemma_div_pos_is_pos(level - 1, 7);
    vstd::arithmetic::div_mod::lemma_div_is_ordered(level - 1, 98, 7);
    vstd::arithmetic::div_mod::lemma_mod_division_less_than_divisor(level - 1, 7);
    assert(0 <= q <= 14 && 0 <= r <= 6);
    lemma_pow2_pos(q as nat);
    lemma2_to64();
    assert(pow2(q as nat) <= pow2(14)) by {
        if q < 14 {
            vstd::arithmetic::power2::lemma_pow2_strictly_increases(q as nat, 14);
        }
    }
    let s = curve_scale();
    let num = (level - 1) * s + 300 * pow2(q as nat) * seventh_root_scaled(r);
    assert(300 * s <= num <= 10_000_000 * s) by (nonlinear_arith)
        requires
            num == (level - 1) * s + 300 * pow2(q as nat) * seventh_root_scaled(r),
            s == 0x100_0000_0000,
            1 <= level <= 99,
            1 <= pow2(q as nat) <= 16384,
            0x100_0000_0000 <= seventh_root_scaled(r) <= 2_000_000_000_000,
    ;
    assert(75 <= num / (4 * s) <= 3_000_000) by (nonlinear_arith)
        requires
            s == 0x100_0000_0000,
            300 * s <= num <= 10_000_000 * s,
    ;
}

/// The cumulative curve is strictly increasing in the level.
proof fn lemma_cumulative_xp_increases(l1: int, l2: int)
    requires
        0 <= l1 < l2 <= 99,
    ensures
        cumulative_xp(l1) < cumulative_xp(l2),
        cumulative_xp(l2) <= 3_000_000 * l2,
    decreases l2,
{
    lemma_points_bounds(l2);
    if l1 < l2 - 1 {
        lemma_cumulative_xp_increases(l1, l2 - 1);
    } else if l2 - 1 > 0 {
        lemma_cumulative_xp_increases(0, l2 - 1);
    }
}

/// The points contribution of one level, computed exactly in
/// fixed-point integer arithmetic.
fn level_points(level: u32) -> (points: u64)
    requires
        1 <= level <= 99,
    ensures
        points == points_for_level(level as int),
        75 <= points <= 3_000_000,
{
    proof {
        lemma_points_bounds(level as int);
    }
    let idx: u32 = level - 1;
    let q: u32 = idx / 7;
    let r: u32 = idx % 7;
    let root: u64 = if r == 0 {
        1099511627776
    } else if r == 1 {
        1213959258390
    } else if r == 2 {
        1340319687216
    } else if r == 3 {
        1479832911625
    } else if r == 4 {
        1633867999715
    } else if r == 5 {
        1803936525212
    } else {
        1991707400820
    };
    assert(root == seventh_root_scaled(r as int));
    let mut power: u64 = 1;
    let mut k: u32 = 0;
    proof {
        lemma2_to64();
    }
    while k < q
        invariant
            k <= q,
            q <= 14,
            power == pow2(k as nat),
            pow2(q as nat) <= 16384,
        decreases q - k,
    {
        proof {
            lemma_pow2_unfold((k + 1) as nat);
            if k + 1 < q {
                vstd::arithmetic::power2::lemma_pow2_strictly_increases((k + 1) as nat, q as nat);
            }
        }
        power = power * 2;
        k = k + 1;
    }
    let scale: u128 = 0x100_0000_0000;
    proof {
        assert((idx as int) * 0x100_0000_0000 + 300 * (power as int) * (root as int)
            < 0x1_0000_0000_0000_0000) by (nonlinear_arith)
            requires
                idx < 99,
                1 <= power <= 16384,
                0 < root <= 2_000_000_000_000,
        ;
    }
    let num: u128 = (idx as u128) * scale + 300 * (power as u128) * (root as u128);
    let points: u128 = num / (4 * scale);
    proof {
        assert(num == (idx as int) * curve_scale() + 300 * pow2(q as nat) * seventh_root_scaled(
            r as int,
        ));
        assert((level - 1) as int / 7 == q as int && (level - 1) as int % 7 == r as int);
    }
    points as u64
}

/// Builds the cumulative experience-threshold curve for levels
/// 1 through `max_level`: entry `i` is the total experience required to
/// pass level `i + 1`.  The curve is strictly increasing.
pub fn curve_for(max_level: u32) -> (curve: Vec<u32>)
    requires
        max_level <= 99,
    ensures
        curve@.len() == max_level,
        forall|i: int| 0 <= i < max_level ==> curve@[i] == cumulative_xp(i + 1),
        strictly_increasing(curve@),
{
    let mut curve: Vec<u32> = Vec::new();
    let mut total: u32 = 0;
    let mut level: u32 = 1;
    while level <= max_level
        invariant
            1 <= level <= max_level + 1,
            max_level <= 99,
            curve@.len() == level - 1,
            total == cumulative_xp(level as int - 1),
            total <= 3_000_000 * (level as int - 1),
            forall|i: int| 0 <= i < level - 1 ==> curve@[i] == cumulative_xp(i + 1),
        decreases max_level + 1 - level,
    {
        let points = level_points(level);
        proof {
            lemma_cumulative_xp_increases(level as int - 1, level as int);
        }
        total = total + points as u32;
        curve.push(total);
        level = level + 1;
    }
    proof {
        assert forall|j: int, k: int| 0 <= j < k < curve@.len() implies curve@[j] < curve@[k] by {
            lemma_cumulative_xp_increases(j + 1, k + 1);
        }
    }
    curve
}

/// Whether a threshold sequence grows strictly from one entry to the
/// next.
pub open spec fn strictly_increasing(curve: Seq<u32>) -> bool {
    forall|j: int, k: int| 0 <= j < k < curve.len() ==> curve[j] < curve[k]
}

/// The level an experience total earns against a threshold curve: the
/// smallest `1 + i` such that the experience is below `curve[i]`, or
/// one past the last level if the experience meets every threshold.
pub open spec fn level_for(xp: int, curve: Seq<u32>) -> int
    decreases curve.len(),
{
    if curve.len() == 0 {
        1
    } else if xp < curve[0] {
        1
    } else {
        1 + level_for(xp, curve.subrange(1, curve.len() as int))
    }
}

/// A scan that passed the first `i` thresholds and stopped at `i` lands
/// on level `i + 1`.
proof fn lemma_level_for_at(xp: int, curve: Seq<u32>, i: int)
    requires
        0 <= i <= curve.len(),
        forall|j: int| 0 <= j < i ==> xp >= curve[j],
        i < curve.len() ==> xp < curve[i],
    ensures
        level_for(xp, curve) == i + 1,
    decreases i,
{
    if i > 0 {
        let rest = curve.subrange(1, curve.len() as int);
        lemma_level_for_at(xp, rest, i - 1);
    }
}

/// Derives the level from an experience total by a linear scan of the
/// curve.
pub fn calculate_level(experience: u32, experience_curve: &[u32]) -> (level: u32)
    requires
        experience_curve@.len() < u32::MAX,
    ensures
        level == level_for(experience as int, experience_curve@),
{
    let n = experience_curve.len();
    let mut i: usize = 0;
    while i < n
        invariant
            0 <= i <= n,
            n == experience_curve@.len(),
            n < u32::MAX,
            forall|j: int| 0 <= j < i ==> experience >= experience_curve@[j],
        decreases n - i,
    {
        if experience < experience_curve[i] {
            proof {
                lemma_level_for_at(experience as int, experience_curve@, i as int);
            }
            return i as u32 + 1;
        }
        i = i + 1;
    }
    proof {
        lemma_level_for_at(experience as int, experience_curve@, n as int);
    }
    n as u32 + 1
}

/// A level is always at least 1.
pub proof fn lemma_level_for_at_least_one(xp: int, curve: Seq<u32>)
    ensures
        level_for(xp, curve) >= 1,
    decreases curve.len(),
{
    if curve.len() > 0 && xp >= curve[0] {
        lemma_level_for_at_least_one(xp, curve.subrange(1, curve.len() as int));
    }
}

/// More experience never means a lower level: `level_for` is
/// non-decreasing in the experience total, for every curve.
pub proof fn lemma_level_for_non_decreasing(curve: Seq<u32>, x1: int, x2: int)
    requires
        x1 <= x2,
    ensures
        level_for(x1, curve) <= level_for(x2, curve),
    decreases curve.len(),
{
    if curve.len() > 0 {
        if x1 < curve[0] {
            lemma_level_for_at_least_one(x2, curve);
        } else {
            lemma_level_for_non_decreasing(curve.subrange(1, curve.len() as int), x1, x2);
        }
    }
}

/// Each threshold is a strict level boundary: one experience point
/// below threshold `i` the level is still `i + 1`, and exactly at the
/// threshold it becomes `i + 2`.
pub proof fn lemma_level_for_boundary(curve: Seq<u32>, i: int)
    requires
        strictly_increasing(curve),
        0 <= i < curve.len(),
    ensures
        level_for(curve[i] - 1, curve) == i + 1,
        level_for(curve[i] as int, curve) == i + 2,
{
    lemma_level_for_at(curve[i] - 1, curve, i);
    lemma_level_for_at(curve[i] as int, curve, i + 1);
}

/// Tuning values of the gathering and leveling systems: the shared
/// threshold curve, the base experience a completed gather grants, and
/// the fixed duration of a gathering session in milliseconds.
pub struct SkillsSettings {
    pub experience_curve: Vec<u32>,
    pub gathering_base_experience: u32,
    pub gathering_time_base_ms: u64,
}

impl Default for SkillsSettings {
    /// The standard configuration: a 99-entry curve, 10 base
    /// experience per gather, and 3.0 seconds per gathering session.
    fn default() -> (settings: SkillsSettings)
        ensures
            settings.experience_curve@.len() == 99,
            forall|i: int|
                0 <= i < 99 ==> settings.experience_curve@[i] == cumulative_xp(i + 1),
            strictly_increasing(settings.experience_curve@),
            settings.gathering_base_experience == 10,
            settings.gathering_time_base_ms == 3000,
    {
        SkillsSettings {
            experience_curve: curve_for(99),
            gathering_base_experience: 10,
            gathering_time_base_ms: 3000,
        }
    }
}

/// A domain event: a skill gained experience.
#[derive(Clone, Copy, Debug, PartialEq, Eq, Structural)]
pub struct SkillExperienceEvent {
    pub skill: SkillId,
    pub experience: u32,
}

/// Whether two byte strings are equal.
fn bytes_eq(a: &[u8], b: &[u8]) -> (r: bool)
    ensures
        r <==> a@ == b@,
{
    if a.len() != b.len() {
        return false;
    }
    let n = a.len();
    let mut i: usize = 0;
    while i < n
        invariant
            0 <= i <= n,
            n == a@.len(),
            a@.len() == b@.len(),
            forall|j: int| 0 <= j < i ==> a@[j] == b@[j],
        decreases n - i,
    {
        if a[i] != b[i] {
            return false;
        }
        i = i + 1;
    }
    proof {
        assert(a@ =~= b@);
    }
    true
}

/// The skill a lower-case name from external input selects, if any.
pub open spec fn spec_skill_from_name(name: Seq<u8>) -> Option<SkillId> {
    if name == "attack".spec_bytes() {
        Some(SkillId::Attack)
    } else if name == "defense".spec_bytes() {
        Some(SkillId::Defense)
    } else if name == "strength".spec_bytes() {
        Some(SkillId::Strength)
    } else if name == "hitpoints".spec_bytes() {
        Some(SkillId::Hitpoints)
    } else if name == "ranged".spec_bytes() {
        Some(SkillId::Ranged)
    } else if name == "prayer".spec_bytes() {
        Some(SkillId::Prayer)
    } else if name == "magic".spec_bytes() {
        Some(SkillId::Magic)
    } else if name == "cooking".spec_bytes() {
        Some(SkillId::Cooking)
    } else if name == "woodcutting".spec_bytes() {
        Some(SkillId::Woodcutting)
    } else if name == "fletching".spec_bytes() {
        Some(SkillId::Fletching)
    } else if name == "fishing".spec_bytes() {
        Some(SkillId::Fishing)
    } else if name == "firemaking".spec_bytes() {
        Some(SkillId::Firemaking)
    } else if name == "crafting".spec_bytes() {
        Some(SkillId::Crafting)
    } else if name == "smithing".spec_bytes() {
        Some(SkillId::Smithing)
    } else if name == "mining".spec_bytes() {
        Some(SkillId::Mining)
    } else if name == "herblore".spec_bytes() {
        Some(SkillId::Herblore)
    } else if name == "agility".spec_bytes() {
        Some(SkillId::Agility)
    } else if name == "thieving".spec_bytes() {
        Some(SkillId::Thieving)
    } else if name == "slayer".spec_bytes() {
        Some(SkillId::Slayer)
    } else if name == "farming".spec_bytes() {
        Some(SkillId::Farming)
    } else if name == "runecrafting".spec_bytes() {
        Some(SkillId::Runecrafting)
    } else {
        None
    }
}

/// Resolves a skill name from external input against the fixed set.
pub fn skill_from_name(name: &str) -> (r: Option<SkillId>)
    ensures
        r == spec_skill_from_name(name.spec_bytes()),
{
    let b = name.as_bytes();
    if bytes_eq(b, "attack".as_bytes()) {
        Some(SkillId::Attack)
    } else if bytes_eq(b, "defense".as_bytes()) {
        Some(SkillId::Defense)
    } else if bytes_eq(b, "strength".as_bytes()) {
        Some(SkillId::Strength)
    } else if bytes_eq(b, "hitpoints".as_bytes()) {
        Some(SkillId::Hitpoints)
    } else if bytes_eq(b, "ranged".as_bytes()) {
        Some(SkillId::Ranged)
    } else if bytes_eq(b, "prayer".as_bytes()) {
        Some(SkillId::Prayer)
    } else if bytes_eq(b, "magic".as_bytes()) {
        Some(SkillId::Magic)
    } else if bytes_eq(b, "cooking".as_bytes()) {
        Some(SkillId::Cooking)
    } else if bytes_eq(b, "woodcutting".as_bytes()) {
        Some(SkillId::Woodcutting)
    } else if bytes_eq(b, "fletching".as_bytes()) {
        Some(SkillId::Fletching)
    } else if bytes_eq(b, "fishing".as_bytes()) {
        Some(SkillId::Fishing)
    } else if bytes_eq(b, "firemaking".as_bytes()) {
        Some(SkillId::Firemaking)
    } else if bytes_eq(b, "crafting".as_bytes()) {
        Some(SkillId::Crafting)
    } else if bytes_eq(b, "smithing".as_bytes()) {
        Some(SkillId::Smithing)
    } else if bytes_eq(b, "mining".as_bytes()) {
        Some(SkillId::Mining)
    } else if bytes_eq(b, "herblore".as_bytes()) {
        Some(SkillId::Herblore)
    } else if bytes_eq(b, "agility".as_bytes()) {
        Some(SkillId::Agility)
    } else if bytes_eq(b, "thieving".as_bytes()) {
        Some(SkillId::Thieving)
    } else if bytes_eq(b, "slayer".as_bytes()) {
        Some(SkillId::Slayer)
    } else if bytes_eq(b, "farming".as_bytes()) {
        Some(SkillId::Farming)
    } else if bytes_eq(b, "runecrafting".as_bytes()) {
        Some(SkillId::Runecrafting)
    } else {
        None
    }
}

/// Grants experience under a skill name from external input.  A name
/// outside the fixed skill set fails with `UnknownSkill` and mutates
/// nothing; a known name adds the amount to exactly that skill.
pub fn grant_named(skills: &mut Skills, skill_name: &str, amount: u32) -> (r: Result<
    (),
    crate::ProgressionError,
>)
    requires
        match spec_skill_from_name(skill_name.spec_bytes()) {
            Some(skill) => old(skills).spec_experience(skill) + amount <= u32::MAX,
            None => true,
        },
    ensures
        match spec_skill_from_name(skill_name.spec_bytes()) {
            Some(skill) => r == Ok::<(), crate::ProgressionError>(()) && *final(skills) == old(
                skills,
            ).spec_with_experience(
                skill,
                (old(skills).spec_experience(skill) + amount) as u32,
            ),
            None => r == Err::<(), crate::ProgressionError>(
                crate::ProgressionError::UnknownSkill,
            ) && *final(skills) == *old(skills),
        },
{
    match skill_from_name(skill_name) {
        Some(skill) => {
            gain_experience(skills, skill, amount);
            Ok(())
        },
        None => Err(crate::ProgressionError::UnknownSkill),
    }
}

} // verus!
