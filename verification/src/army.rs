//! Unit and army parsing: the army-level header fields, and the grouping of
//! the body's lines into stat-line/weapon-line unit blocks, with joined
//! units related by a one-way name reference.

use vstd::prelude::*;
use vstd::string::StrSliceExecFns;

use crate::chars::{spec_lines, split_lines, strs_view, to_chars};
use crate::extract::{extract_optional_single, extract_single, extract_single_or, opt_str_view,
    spec_capture, spec_extract_single, spec_extract_single_or, Pattern};
use crate::weapons::{parse_weapons, spec_parse_weapons, weapons_view, Weapon, WeaponView};

verus! {

/// One roster entry: its stats, weapons and optional join reference. Every
/// required text field is either the extracted substring or the extraction
/// sentinel; `xp` and `joined_to` are absent when not found.
#[derive(Debug, PartialEq)]
pub struct Unit {
    pub name: String,
    pub count: String,
    pub models: String,
    pub points: String,
    pub xp: Option<String>,
    pub special_rules: String,
    pub quality: String,
    pub defense: String,
    pub weapons: Vec<Weapon>,
    pub joined_to: Option<String>,
}

/// The spec-level form of a unit.
#[verifier::ext_equal]
pub struct UnitView {
    pub name: Seq<char>,
    pub count: Seq<char>,
    pub models: Seq<char>,
    pub points: Seq<char>,
    pub xp: Option<Seq<char>>,
    pub special_rules: Seq<char>,
    pub quality: Seq<char>,
    pub defense: Seq<char>,
    pub weapons: Seq<WeaponView>,
    pub joined_to: Option<Seq<char>>,
}

impl View for Unit {
    type V = UnitView;

    open spec fn view(&self) -> UnitView {
        UnitView {
            name: self.name@,
            count: self.count@,
            models: self.models@,
            points: self.points@,
            xp: opt_str_view(self.xp),
            special_rules: self.special_rules@,
            quality: self.quality@,
            defense: self.defense@,
            weapons: weapons_view(self.weapons@),
            joined_to: opt_str_view(self.joined_to),
        }
    }
}

/// The views of a sequence of units.
pub open spec fn units_view(us: Seq<Unit>) -> Seq<UnitView> {
    us.map_values(|u: Unit| u@)
}

/// The unit that a stat line and a weapon line describe, before any join
/// is recorded.
pub open spec fn spec_unit(stat: Seq<char>, weapon: Seq<char>) -> UnitView {
    UnitView {
        name: spec_extract_single("name"@, Pattern::UnitName, stat),
        count: spec_extract_single_or("1"@, Pattern::UnitCount, stat),
        models: spec_extract_single("models"@, Pattern::UnitModels, stat),
        points: spec_extract_single("points"@, Pattern::UnitPoints, stat),
        xp: spec_capture(Pattern::UnitXp, stat),
        special_rules: spec_extract_single("special_rules"@, Pattern::UnitSpecialRules, stat),
        quality: spec_extract_single("quality"@, Pattern::UnitQuality, stat),
        defense: spec_extract_single("defense"@, Pattern::UnitDefense, stat),
        weapons: spec_parse_weapons(weapon),
        joined_to: None,
    }
}

/// Builds one unit from its stat line and weapon line. Each field degrades
/// independently: a required field that cannot be found becomes a sentinel,
/// an optional one becomes absent or its default.
pub fn build_unit(stat: &str, weapon: &str) -> (u: Unit)
    ensures
        u@ == spec_unit(stat@, weapon@),
{
    Unit {
        name: extract_single("name", Pattern::UnitName, stat),
        count: extract_single_or("1", Pattern::UnitCount, stat),
        models: extract_single("models", Pattern::UnitModels, stat),
        points: extract_single("points", Pattern::UnitPoints, stat),
        xp: extract_optional_single(Pattern::UnitXp, stat),
        special_rules: extract_single("special_rules", Pattern::UnitSpecialRules, stat),
        quality: extract_single("quality", Pattern::UnitQuality, stat),
        defense: extract_single("defense", Pattern::UnitDefense, stat),
        weapons: parse_weapons(weapon),
        joined_to: None,
    }
}

/// A line the grouper skips in any state: an army-header line (`++`), a
/// comment (`#`) or an empty line.
pub open spec fn is_skipped(l: Seq<char>) -> bool {
    l.len() == 0 || (l.len() >= 2 && l[0] == '+' && l[1] == '+') || (l.len() >= 1 && l[0] == '#')
}

/// The join marker: a line opening with `| Joined to:`.
pub open spec fn is_join_marker(l: Seq<char>) -> bool {
    l.len() >= 12 && l[0] == '|' && l[1] == ' ' && l[2] == 'J' && l[3] == 'o' && l[4] == 'i'
        && l[5] == 'n' && l[6] == 'e' && l[7] == 'd' && l[8] == ' ' && l[9] == 't' && l[10] == 'o'
        && l[11] == ':'
}

/// The fold state of the unit grouper: the buffered stat line, the units
/// completed so far, and whether the next completed unit's name is owed to
/// the last completed one as a join reference.
#[verifier::ext_equal]
pub struct GroupState {
    pub partial: Option<Seq<char>>,
    pub units: Seq<UnitView>,
    pub join_pending: bool,
}

pub open spec fn initial_state() -> GroupState {
    GroupState { partial: None, units: Seq::empty(), join_pending: false }
}

/// A unit with its join reference set.
pub open spec fn set_join(w: UnitView, name: Seq<char>) -> UnitView {
    UnitView { joined_to: Some(name), ..w }
}

/// One step of the grouper over one line: skipped lines change nothing, a
/// join marker records the pending join, any other line is buffered as a
/// stat line or — when one is buffered — completes a unit as its weapon
/// line. Completing a unit resolves a pending join: the previous unit's
/// `joined_to` becomes the new unit's name.
pub open spec fn step_line(st: GroupState, l: Seq<char>) -> GroupState {
    if is_skipped(l) {
        st
    } else if is_join_marker(l) {
        if st.units.len() > 0 {
            GroupState { join_pending: true, ..st }
        } else {
            st
        }
    } else {
        match st.partial {
            None => GroupState { partial: Some(l), ..st },
            Some(stat) => {
                let u = spec_unit(stat, l);
                let units2 = if st.join_pending && st.units.len() > 0 {
                    st.units.update(
                        st.units.len() - 1,
                        set_join(st.units.last(), u.name),
                    ).push(u)
                } else {
                    st.units.push(u)
                };
                GroupState { partial: None, units: units2, join_pending: false }
            },
        }
    }
}

/// The grouper folded over a sequence of lines.
pub open spec fn fold_lines(ls: Seq<Seq<char>>) -> GroupState
    decreases ls.len(),
{
    if ls.len() == 0 {
        initial_state()
    } else {
        step_line(fold_lines(ls.drop_last()), ls.last())
    }
}

/// The units of an army body: its lines grouped into stat/weapon pairs. A
/// stat line still buffered when the input ends has no weapon line and
/// yields no unit.
pub open spec fn spec_parse_units(s: Seq<char>) -> Seq<UnitView> {
    fold_lines(spec_lines(s)).units
}

fn is_skipped_line(lv: &Vec<char>) -> (r: bool)
    ensures
        r == is_skipped(lv@),
{
    lv.len() == 0 || (lv.len() >= 2 && lv[0] == '+' && lv[1] == '+') || (lv.len() >= 1 && lv[0]
        == '#')
}

fn is_join_marker_line(lv: &Vec<char>) -> (r: bool)
    ensures
        r == is_join_marker(lv@),
{
    lv.len() >= 12 && lv[0] == '|' && lv[1] == ' ' && lv[2] == 'J' && lv[3] == 'o' && lv[4] == 'i'
        && lv[5] == 'n' && lv[6] == 'e' && lv[7] == 'd' && lv[8] == ' ' && lv[9] == 't' && lv[10]
        == 'o' && lv[11] == ':'
}

pub open spec fn opt_line_view(o: Option<&str>) -> Option<Seq<char>> {
    match o {
        Some(l) => Some(l@),
        None => None,
    }
}

/// Groups the input's lines into units. A non-skipped line is buffered as
/// a stat line; the next non-skipped line is its weapon line and completes
/// the unit. A `| Joined to:` marker makes the unit before it reference
/// the unit after it by name. Header (`++`), comment (`#`) and empty lines
/// are skipped; a trailing stat line without a weapon line yields no unit.
pub fn parse_units(input: &str) -> (units: Vec<Unit>)
    ensures
        units_view(units@) == spec_parse_units(input@),
{
    let v = to_chars(input);
    let lines = split_lines(input, &v);
    let mut units: Vec<Unit> = Vec::new();
    let mut partial: Option<&str> = None;
    let mut join_pending: bool = false;
    let mut li: usize = 0;
    proof {
        assert(units_view(units@) =~= Seq::<UnitView>::empty());
        assert(strs_view(lines@).take(0) =~= Seq::<Seq<char>>::empty());
    }
    while li < lines.len()
        invariant
            strs_view(lines@) == spec_lines(input@),
            li <= lines.len(),
            fold_lines(strs_view(lines@).take(li as int)) == (GroupState {
                partial: opt_line_view(partial),
                units: units_view(units@),
                join_pending: join_pending,
            }),
            join_pending ==> units.len() > 0,
        decreases lines.len() - li,
    {
        let ghost pre = GroupState {
            partial: opt_line_view(partial),
            units: units_view(units@),
            join_pending: join_pending,
        };
        let line = lines[li];
        proof {
            assert(line@ == strs_view(lines@)[li as int]);
        }
        let lv = to_chars(line);
        if is_skipped_line(&lv) {
        } else if is_join_marker_line(&lv) {
            if units.len() > 0 {
                join_pending = true;
            }
        } else {
            match partial {
                None => {
                    partial = Some(line);
                },
                Some(stat) => {
                    let u = build_unit(stat, line);
                    let ghost uv = u@;
                    if join_pending {
                        let name_copy = u.name.clone();
                        let mut prev = units.pop().unwrap();
                        let ghost prev_view = prev@;
                        prev.joined_to = Some(name_copy);
                        proof {
                            assert(prev@ =~= set_join(prev_view, uv.name));
                        }
                        units.push(prev);
                        units.push(u);
                        proof {
                            assert(units_view(units@) =~= pre.units.update(
                                pre.units.len() - 1,
                                set_join(pre.units.last(), uv.name),
                            ).push(uv));
                        }
                    } else {
                        units.push(u);
                        proof {
                            assert(units_view(units@) =~= pre.units.push(uv));
                        }
                    }
                    partial = None;
                    join_pending = false;
                },
            }
        }
        li = li + 1;
        proof {
            let ls = strs_view(lines@);
            assert(ls.take(li as int).drop_last() =~= ls.take(li as int - 1));
            assert(ls.take(li as int).last() == line@);
            assert(fold_lines(ls.take(li as int)) == step_line(pre, line@));
            assert(step_line(pre, line@) =~= GroupState {
                partial: opt_line_view(partial),
                units: units_view(units@),
                join_pending: join_pending,
            });
        }
    }
    proof {
        assert(strs_view(lines@).take(lines@.len() as int) =~= strs_view(lines@));
    }
    units
}

/// The parsed roster: the header fields and the units. A header field that
/// cannot be found holds the extraction sentinel.
#[derive(Debug)]
pub struct Army {
    pub name: String,
    pub points: String,
    pub system: String,
    pub units: Vec<Unit>,
}

/// The spec-level form of an army.
#[verifier::ext_equal]
pub struct ArmyView {
    pub name: Seq<char>,
    pub points: Seq<char>,
    pub system: Seq<char>,
    pub units: Seq<UnitView>,
}

impl View for Army {
    type V = ArmyView;

    open spec fn view(&self) -> ArmyView {
        ArmyView {
            name: self.name@,
            points: self.points@,
            system: self.system@,
            units: units_view(self.units@),
        }
    }
}

/// The army a roster text describes: header fields extracted from the full
/// text, units grouped from its lines.
pub open spec fn spec_parse_army(s: Seq<char>) -> ArmyView {
    ArmyView {
        name: spec_extract_single("name"@, Pattern::ArmyName, s),
        points: spec_extract_single("points"@, Pattern::ArmyPoints, s),
        system: spec_extract_single("system"@, Pattern::ArmySystem, s),
        units: spec_parse_units(s),
    }
}

/// Parses a full roster. Nothing fails: a missing header field surfaces as
/// a sentinel string and malformed body lines are skipped, so a partially
/// parsed army is always returned.
pub fn parse_army(input: &String) -> (army: Army)
    ensures
        army@ == spec_parse_army(input@),
{
    Army {
        name: extract_single("name", Pattern::ArmyName, input.as_str()),
        points: extract_single("points", Pattern::ArmyPoints, input.as_str()),
        system: extract_single("system", Pattern::ArmySystem, input.as_str()),
        units: parse_units(input.as_str()),
    }
}

/// Joined-unit law: a stat/weapon pair, a `| Joined to:` marker and a
/// second stat/weapon pair yield exactly two units; the first references
/// the second by its extracted name, the second references nothing.
pub proof fn lemma_joined_pair(
    stat1: Seq<char>,
    weap1: Seq<char>,
    marker: Seq<char>,
    stat2: Seq<char>,
    weap2: Seq<char>,
)
    requires
        !is_skipped(stat1) && !is_join_marker(stat1),
        !is_skipped(weap1) && !is_join_marker(weap1),
        is_join_marker(marker),
        !is_skipped(stat2) && !is_join_marker(stat2),
        !is_skipped(weap2) && !is_join_marker(weap2),
    ensures
        ({
            let us = fold_lines(seq![stat1, weap1, marker, stat2, weap2]).units;
            &&& us.len() == 2
            &&& us[0] == set_join(spec_unit(stat1, weap1), spec_unit(stat2, weap2).name)
            &&& us[1] == spec_unit(stat2, weap2)
            &&& us[1].joined_to is None
        }),
{
    let ls = seq![stat1, weap1, marker, stat2, weap2];
    let u1 = spec_unit(stat1, weap1);
    let u2 = spec_unit(stat2, weap2);
    assert(!is_skipped(marker));

    let l1 = seq![stat1];
    assert(l1.drop_last() =~= Seq::<Seq<char>>::empty());
    assert(l1.last() == stat1);
    assert(fold_lines(Seq::<Seq<char>>::empty()) == initial_state());
    let st1 = fold_lines(l1);
    assert(st1 == step_line(initial_state(), stat1));
    assert(st1.partial == Some(stat1) && st1.units.len() == 0 && !st1.join_pending);

    let l2 = seq![stat1, weap1];
    assert(l2.drop_last() =~= l1);
    assert(l2.last() == weap1);
    let st2 = fold_lines(l2);
    assert(st2 == step_line(st1, weap1));
    assert(st2.partial is None && st2.units =~= seq![u1] && !st2.join_pending);

    let l3 = seq![stat1, weap1, marker];
    assert(l3.drop_last() =~= l2);
    assert(l3.last() == marker);
    let st3 = fold_lines(l3);
    assert(st3 == step_line(st2, marker));
    assert(st3.partial is None && st3.units == st2.units && st3.join_pending);

    let l4 = seq![stat1, weap1, marker, stat2];
    assert(l4.drop_last() =~= l3);
    assert(l4.last() == stat2);
    let st4 = fold_lines(l4);
    assert(st4 == step_line(st3, stat2));
    assert(st4.partial == Some(stat2) && st4.units == st3.units && st4.join_pending);

    assert(ls.drop_last() =~= l4);
    assert(ls.last() == weap2);
    let st5 = fold_lines(ls);
    assert(st5 == step_line(st4, weap2));
    assert(st5.units == st4.units.update(0, set_join(st4.units.last(), u2.name)).push(u2));
    assert(st5.units =~= seq![set_join(u1, u2.name), u2]);
}

/// Determinism law: a parse result is a function of the input text alone,
/// so parsing the same input twice yields structurally equal armies.
pub proof fn lemma_parse_army_deterministic(s: Seq<char>, a1: ArmyView, a2: ArmyView)
    requires
        a1 == spec_parse_army(s),
        a2 == spec_parse_army(s),
    ensures
        a1 == a2,
{
}

} // verus!
