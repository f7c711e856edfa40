use text2tabletop::parse_weapons;
use text2tabletop::Weapon;

#[test]
fn simple_weapon() {
    let parsed = parse_weapons("Hand Weapon (A3)");
    let expected = vec![Weapon::Melee("Hand Weapon (A3)".to_string())];
    assert_eq!(parsed, expected)
}

#[test]
fn weapon_with_armor_piercing() {
    let parsed = parse_weapons("Hand Weapon (A3, AP(1))");
    let expected = vec![Weapon::Melee("Hand Weapon (A3, AP(1))".to_string())];
    assert_eq!(parsed, expected)
}

#[test]
fn weapon_with_ap_and_rule() {
    let parsed = parse_weapons("Hand Weapon (A3, AP(1), Rending)");
    let expected = vec![Weapon::Melee(
        "Hand Weapon (A3, AP(1), Rending)".to_string(),
    )];
    assert_eq!(parsed, expected)
}

#[test]
fn multiple_weapons() {
    let parsed = parse_weapons("Gatling-Fists (18\", A3, AP(1)), Stomp (A2)");
    let expected = vec![
        Weapon::Ranged("Gatling-Fists (18\", A3, AP(1))".to_string()),
        Weapon::Melee("Stomp (A2)".to_string()),
    ];
    assert_eq!(parsed, expected)
}

#[test]
fn multiple_models() {
    let parsed = parse_weapons("2x Hand Weapon (A1)");
    let expected = vec![Weapon::Melee("2x Hand Weapon (A1)".to_string())];
    assert_eq!(parsed, expected)
}

#[test]
fn muliple_rules() {
    let parsed = parse_weapons("Power Staff (A3, Warp, Rending)");
    let expected = vec![Weapon::Melee("Power Staff (A3, Warp, Rending)".to_string())];
    assert_eq!(parsed, expected)
}

#[test]
fn rules_with_brackets() {
    let parsed = parse_weapons("CCW (A1), Fusion Rifle (12\", A1, AP(4), Deadly(3))");
    let expected = vec![
        Weapon::Melee("CCW (A1)".to_string()),
        Weapon::Ranged("Fusion Rifle (12\", A1, AP(4), Deadly(3))".to_string()),
    ];
    assert_eq!(parsed, expected)
}

#[test]
fn rules_with_hyphens() {
    let parsed = parse_weapons("Bash (A2), Bludgeon (A1, Impact(1)), Missile Pod (18\", A1, AP(2), Lock-On), Power Claw (A1, AP(1), Rending)");
    let expected = vec![
        Weapon::Melee("Bash (A2)".to_string()),
        Weapon::Melee("Bludgeon (A1, Impact(1))".to_string()),
        Weapon::Ranged("Missile Pod (18\", A1, AP(2), Lock-On)".to_string()),
        Weapon::Melee("Power Claw (A1, AP(1), Rending)".to_string()),
    ];
    assert_eq!(parsed, expected)
}

#[test]
fn clause_without_attack_token_is_omitted() {
    let parsed = parse_weapons("Shield (Defense +1)");
    assert_eq!(parsed, vec![]);
}

#[test]
fn empty_weapon_line_yields_no_clauses() {
    let parsed = parse_weapons("");
    assert_eq!(parsed, vec![]);
}

#[test]
fn ranged_iff_quote_in_clause() {
    let parsed = parse_weapons("Bow (24\", A1), Sword (A2)");
    assert_eq!(
        parsed,
        vec![
            Weapon::Ranged("Bow (24\", A1)".to_string()),
            Weapon::Melee("Sword (A2)".to_string()),
        ]
    );
}

#[test]
fn marked_text_shows_kind() {
    let melee = Weapon::Melee("Hand Weapon (A3)".to_string());
    let ranged = Weapon::Ranged("Bow (24\", A1)".to_string());
    assert_eq!(melee.marked_text(), "\u{2694} Hand Weapon (A3)".to_string());
    assert_eq!(ranged.marked_text(), "\u{27b6} Bow (24\", A1)".to_string());
}
