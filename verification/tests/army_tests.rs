use text2tabletop::parse_army;

#[test]
fn army_header_fields_are_extracted() {
    let input = "++ Undead Legion [Age 2000pts] ++

Champion [1] Q4+ D4+ | 95pts | Hero
Hand Weapon (A3)
"
    .to_string();
    let army = parse_army(&input);
    assert_eq!(army.name, "Undead Legion".to_string());
    assert_eq!(army.points, "2000".to_string());
    assert_eq!(army.system, "Age".to_string());
    assert_eq!(army.units.len(), 1);
    assert_eq!(army.units[0].name, "Champion".to_string());
}

#[test]
fn missing_header_degrades_to_sentinels() {
    let input = "".to_string();
    let army = parse_army(&input);
    assert_eq!(army.name, "[error: can't extract name]".to_string());
    assert_eq!(army.points, "[error: can't extract points]".to_string());
    assert_eq!(army.system, "[error: can't extract system]".to_string());
    assert_eq!(army.units.len(), 0);
}

#[test]
fn parsing_twice_yields_equal_results() {
    let input = "++ Undead Legion [Age 2000pts] ++

2x Drained Soldiers [10] Q5+ D5+ | 85pts | Undead
10x Spear (A1, Counter)

Champion [1] Q4+ D4+ | 95pts | Hero
Hand Weapon (A3)
| Joined to:
Drained Archers [10] Q5+ D5+ | 135pts | Undead
10x Bow (24\", A1)
"
    .to_string();
    let first = parse_army(&input);
    let second = parse_army(&input);
    assert_eq!(first.name, second.name);
    assert_eq!(first.points, second.points);
    assert_eq!(first.system, second.system);
    assert_eq!(first.units, second.units);
}
