use text2tabletop::parse_definitions;
use text2tabletop::parse_spells;
use text2tabletop::Definition;

#[test]
fn empty_definitions_are_absent() {
    assert!(parse_definitions("").is_none());
}

#[test]
fn whitespace_only_definitions_are_absent() {
    assert!(parse_definitions(" \t\n  \n").is_none());
}

#[test]
fn unicode_whitespace_only_definitions_are_absent() {
    assert!(parse_definitions("\u{00A0}\u{2003}\n").is_none());
    assert!(parse_spells("\u{3000} \u{2028}").is_none());
}

#[test]
fn single_definition_splits_on_separator() {
    let parsed = parse_definitions("Fireball: 3+ to cast").unwrap();
    assert_eq!(
        parsed,
        vec![Definition {
            name: "Fireball".to_string(),
            value: "3+ to cast".to_string(),
        }]
    );
}

#[test]
fn line_without_separator_is_dropped() {
    let parsed = parse_definitions("no separator here\nFireball: 3+ to cast\n").unwrap();
    assert_eq!(
        parsed,
        vec![Definition {
            name: "Fireball".to_string(),
            value: "3+ to cast".to_string(),
        }]
    );
}

#[test]
fn definitions_keep_source_order_and_duplicates() {
    let parsed = parse_definitions("Fireball: 3+\n\nShield: 4+\nFireball: 5+\n").unwrap();
    assert_eq!(parsed.len(), 3);
    assert_eq!(parsed[0].name, "Fireball".to_string());
    assert_eq!(parsed[0].value, "3+".to_string());
    assert_eq!(parsed[1].name, "Shield".to_string());
    assert_eq!(parsed[2].name, "Fireball".to_string());
    assert_eq!(parsed[2].value, "5+".to_string());
}

#[test]
fn definition_splits_on_first_separator() {
    let parsed = parse_definitions("Caster: knows: one spell").unwrap();
    assert_eq!(parsed[0].name, "Caster".to_string());
    assert_eq!(parsed[0].value, "knows: one spell".to_string());
}

#[test]
fn parsing_definitions_twice_yields_equal_results() {
    let input = "Fireball: 3+ to cast\nShield: 4+ to cast\n";
    assert_eq!(parse_definitions(input), parse_definitions(input));
}

#[test]
fn empty_spells_are_absent() {
    assert!(parse_spells("").is_none());
    assert!(parse_spells("  \n \t\n").is_none());
}

#[test]
fn spells_keep_nonblank_lines() {
    let parsed = parse_spells("Fireball\n\nShield\n").unwrap();
    assert_eq!(parsed, vec!["Fireball".to_string(), "Shield".to_string()]);
}
