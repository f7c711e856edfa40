use text2tabletop::army::build_unit;
use text2tabletop::parse_units;
use text2tabletop::Unit;
use text2tabletop::Weapon;

#[test]
fn unjoined_unit() {
    let parsed = parse_units(
        "
2x Drained Soldiers [10] Q5+ D5+ | 85pts | Undead
10x Spear (A1, Counter)
",
    );
    let expected = Unit {
        name: "Drained Soldiers".to_string(),
        count: "2".to_string(),
        models: "10".to_string(),
        points: "85".to_string(),
        xp: None,
        special_rules: "Undead".to_string(),
        quality: "5".to_string(),
        defense: "5".to_string(),
        weapons: vec![Weapon::Melee("10x Spear (A1, Counter)".to_string())],
        joined_to: None,
    };
    assert_eq!(parsed[0], expected)
}

#[test]
fn joined_unit() {
    let parsed = parse_units(
        "
Champion [1] Q4+ D4+ | 95pts | Hero, Tough(3), Undead, 1x Master Necromancer(Caster(3))
Hand Weapon (A3)
| Joined to:
Drained Archers [10] Q5+ D5+ | 135pts | Undead, Banner
10x Bow (24\", A1), 10x Hand Weapon (A1)
",
    );
    let expected = Unit {
        name: "Champion".to_string(),
        count: "1".to_string(),
        models: "1".to_string(),
        points: "95".to_string(),
        xp: None,
        special_rules: "Hero, Tough(3), Undead, 1x Master Necromancer(Caster(3))".to_string(),
        quality: "4".to_string(),
        defense: "4".to_string(),
        weapons: vec![Weapon::Melee("Hand Weapon (A3)".to_string())],
        joined_to: Some("Drained Archers".to_string()),
    };
    assert_eq!(parsed[0], expected)
}

#[test]
fn joined_pair_second_unit_has_no_join() {
    let parsed = parse_units(
        "
Champion [1] Q4+ D4+ | 95pts | Hero
Hand Weapon (A3)
| Joined to:
Drained Archers [10] Q5+ D5+ | 135pts | Undead
10x Bow (24\", A1)
",
    );
    assert_eq!(parsed.len(), 2);
    assert_eq!(parsed[0].joined_to, Some("Drained Archers".to_string()));
    assert_eq!(parsed[1].name, "Drained Archers".to_string());
    assert_eq!(parsed[1].joined_to, None);
}

#[test]
fn stat_and_weapon_pair_fields() {
    let unit = build_unit(
        "Champion [1] Q4+ D4+ | 95pts | Hero, Tough(3)",
        "Hand Weapon (A3)",
    );
    let expected = Unit {
        name: "Champion".to_string(),
        count: "1".to_string(),
        models: "1".to_string(),
        points: "95".to_string(),
        xp: None,
        special_rules: "Hero, Tough(3)".to_string(),
        quality: "4".to_string(),
        defense: "4".to_string(),
        weapons: vec![Weapon::Melee("Hand Weapon (A3)".to_string())],
        joined_to: None,
    };
    assert_eq!(unit, expected)
}

#[test]
fn missing_markers_degrade_to_sentinels() {
    let unit = build_unit("a line with none of the markers", "");
    assert_eq!(unit.name, "[error: can't extract name]".to_string());
    assert_eq!(unit.count, "1".to_string());
    assert_eq!(unit.models, "[error: can't extract models]".to_string());
    assert_eq!(unit.points, "[error: can't extract points]".to_string());
    assert_eq!(unit.xp, None);
    assert_eq!(
        unit.special_rules,
        "[error: can't extract special_rules]".to_string()
    );
    assert_eq!(unit.quality, "[error: can't extract quality]".to_string());
    assert_eq!(unit.defense, "[error: can't extract defense]".to_string());
    assert_eq!(unit.weapons, vec![]);
    assert_eq!(unit.joined_to, None);
}

#[test]
fn count_prefix_digits_are_extracted() {
    let unit = build_unit("10x Spearmen [10] Q5+ D5+ | 85pts | Undead", "Spear (A1)");
    assert_eq!(unit.count, "10".to_string());
    assert_eq!(unit.name, "Spearmen".to_string());
}

#[test]
fn count_defaults_to_one_without_prefix() {
    let unit = build_unit("Spearmen [10] Q5+ D5+ | 85pts | Undead", "Spear (A1)");
    assert_eq!(unit.count, "1".to_string());
}

#[test]
fn xp_extracted_when_present() {
    let unit = build_unit(
        "Veterans [5] Q4+ D4+ 35XP | 120pts | Brave",
        "Rifle (18\", A1)",
    );
    assert_eq!(unit.xp, Some("35".to_string()));
}

#[test]
fn comment_and_header_lines_are_skipped() {
    let parsed = parse_units(
        "++ Army Header [System 1000pts] ++
# a comment between units
Spearmen [10] Q5+ D5+ | 85pts | Undead
Spear (A1)
",
    );
    assert_eq!(parsed.len(), 1);
    assert_eq!(parsed[0].name, "Spearmen".to_string());
}

#[test]
fn final_pair_without_trailing_newline_still_completes() {
    let parsed = parse_units("Spearmen [10] Q5+ D5+ | 85pts | Undead\nSpear (A1)");
    assert_eq!(parsed.len(), 1);
    assert_eq!(parsed[0].name, "Spearmen".to_string());
}
