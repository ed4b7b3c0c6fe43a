use jamesscape::skills::{
    calculate_level, curve_for, gain_experience, grant_named, new_skills, SkillId, Skills,
    SkillsSettings,
};
use jamesscape::ProgressionError;

#[test]
fn curve_has_expected_thresholds() {
    let curve = curve_for(99);
    assert_eq!(curve.len(), 99);
    assert_eq!(curve[0], 75);
    assert_eq!(curve[1], 158);
    assert_eq!(curve[2], 249);
    assert_eq!(curve[3], 350);
    assert_eq!(curve[98], 13_034_469);
}

#[test]
fn curve_is_strictly_increasing() {
    let curve = curve_for(99);
    for i in 1..curve.len() {
        assert!(curve[i - 1] < curve[i]);
    }
}

#[test]
fn curve_for_shorter_max_level() {
    let curve = curve_for(10);
    let full = curve_for(99);
    assert_eq!(curve.len(), 10);
    assert_eq!(&curve[..], &full[..10]);
}

#[test]
fn level_zero_experience_is_one() {
    let curve = curve_for(99);
    assert_eq!(calculate_level(0, &curve), 1);
}

#[test]
fn level_boundaries_are_strict() {
    let curve = curve_for(99);
    for i in 0..curve.len() {
        let threshold = curve[i];
        assert_eq!(calculate_level(threshold - 1, &curve), i as u32 + 1);
        assert_eq!(calculate_level(threshold, &curve), i as u32 + 2);
    }
}

#[test]
fn level_is_non_decreasing_in_experience() {
    let curve = curve_for(99);
    let mut previous = 0;
    for xp in (0..14_000_000u32).step_by(9973) {
        let level = calculate_level(xp, &curve);
        assert!(level >= previous);
        previous = level;
    }
}

#[test]
fn level_beyond_every_threshold() {
    let curve = curve_for(99);
    assert_eq!(calculate_level(u32::MAX, &curve), 100);
}

#[test]
fn level_with_empty_curve() {
    let curve: Vec<u32> = Vec::new();
    assert_eq!(calculate_level(12345, &curve), 1);
}

#[test]
fn new_skills_start_at_floor() {
    let skills = new_skills();
    assert_eq!(skills.attack, 1);
    assert_eq!(skills.strength, 1);
    assert_eq!(skills.hitpoints, 10);
    assert_eq!(skills.woodcutting, 1);
    assert_eq!(skills.runecrafting, 1);
}

#[test]
fn gain_experience_adds_to_one_skill() {
    let mut skills = new_skills();
    gain_experience(&mut skills, SkillId::Woodcutting, 99);
    assert_eq!(skills.woodcutting, 100);
    assert_eq!(skills.mining, 1);
    assert_eq!(skills.attack, 1);
}

#[test]
fn gain_experience_never_decreases() {
    let mut skills = Skills { woodcutting: 500, ..new_skills() };
    gain_experience(&mut skills, SkillId::Woodcutting, 0);
    assert_eq!(skills.woodcutting, 500);
    gain_experience(&mut skills, SkillId::Woodcutting, 1);
    assert_eq!(skills.woodcutting, 501);
}

#[test]
fn settings_default_values() {
    let settings = SkillsSettings::default();
    assert_eq!(settings.experience_curve.len(), 99);
    assert_eq!(settings.experience_curve[0], 75);
    assert_eq!(settings.gathering_base_experience, 10);
    assert_eq!(settings.gathering_time_base_ms, 3000);
}

#[test]
fn grant_named_accepts_every_known_skill_name() {
    let mut skills = new_skills();
    for name in [
        "attack",
        "defense",
        "strength",
        "hitpoints",
        "ranged",
        "prayer",
        "magic",
        "cooking",
        "woodcutting",
        "fletching",
        "fishing",
        "firemaking",
        "crafting",
        "smithing",
        "mining",
        "herblore",
        "agility",
        "thieving",
        "slayer",
        "farming",
        "runecrafting",
    ] {
        assert!(grant_named(&mut skills, name, 7).is_ok());
    }
    assert_eq!(skills.woodcutting, 8);
    assert_eq!(skills.hitpoints, 17);
}

#[test]
fn grant_named_rejects_unknown_names() {
    let mut skills = new_skills();
    assert_eq!(
        grant_named(&mut skills, "sailing", 7),
        Err(ProgressionError::UnknownSkill)
    );
    assert_eq!(
        grant_named(&mut skills, "Woodcutting", 7),
        Err(ProgressionError::UnknownSkill)
    );
    assert_eq!(skills, new_skills());
}
