//! The weapon classifier: splits a unit's weapon line into clauses and tags
//! each one as melee or ranged. A clause is an optional `<n>x ` multiplier,
//! a name of letters, spaces and hyphens ending in a space, then `(`, an
//! optional `<digits>", ` range token, a mandatory `A<digits>` attack token,
//! comma-separated modifiers, and `)`. Text that forms no clause is skipped.

use vstd::prelude::*;
use vstd::string::StrSliceExecFns;
use vstd::string::StringExecFns;

use crate::chars::{char_in_class, class_holds, run_end, scan_run, to_chars, CharClass};

verus! {

/// One weapon clause. The text is the full matched clause, name and
/// parenthesized attack profile included.
#[derive(Debug, PartialEq)]
pub enum Weapon {
    Melee(String),
    Ranged(String),
}

/// The spec-level form of a weapon clause.
pub enum WeaponView {
    Melee(Seq<char>),
    Ranged(Seq<char>),
}

impl View for Weapon {
    type V = WeaponView;

    open spec fn view(&self) -> WeaponView {
        match self {
            Weapon::Melee(t) => WeaponView::Melee(t@),
            Weapon::Ranged(t) => WeaponView::Ranged(t@),
        }
    }
}

/// The views of a sequence of weapons.
pub open spec fn weapons_view(ws: Seq<Weapon>) -> Seq<WeaponView> {
    ws.map_values(|w: Weapon| w@)
}

/// The clause text of a weapon, whichever kind it is.
pub open spec fn weapon_text(w: WeaponView) -> Seq<char> {
    match w {
        WeaponView::Melee(t) => t,
        WeaponView::Ranged(t) => t,
    }
}

pub open spec fn contains_quote(t: Seq<char>) -> bool {
    exists|k: int| 0 <= k < t.len() && t[k] == '"'
}

/// The classification rule: a clause is ranged exactly when its text holds
/// a double quote (a range such as `24"`); otherwise it is melee.
pub open spec fn classify(t: Seq<char>) -> WeaponView {
    if contains_quote(t) {
        WeaponView::Ranged(t)
    } else {
        WeaponView::Melee(t)
    }
}

/// After the attack token: zero or more `, <modifier>` groups and then the
/// closing parenthesis; yields the index just past the parenthesis. A
/// modifier is a nonempty run of name characters, optionally followed by a
/// well-formed `(<digits>)` argument.
pub open spec fn after_mods(s: Seq<char>, i: int) -> Option<int>
    decreases s.len() - i when 0 <= i <= s.len()
{
    if i >= s.len() {
        None
    } else if s[i] == ')' {
        Some(i + 1)
    } else if s[i] == ',' && i + 1 < s.len() && s[i + 1] == ' ' {
        let r = run_end(s, i + 2, CharClass::NameChar);
        if !(i + 2 < r && r <= s.len()) {
            None
        } else {
            let r2 = if r < s.len() && s[r] == '(' {
                let d = run_end(s, r + 1, CharClass::Digit);
                if d > r + 1 && d < s.len() && s[d] == ')' {
                    d + 1
                } else {
                    r
                }
            } else {
                r
            };
            after_mods(s, r2)
        }
    } else {
        None
    }
}

/// The mandatory `A<digits>` attack token at `m`, then the modifier groups
/// and the closing parenthesis.
pub open spec fn attack_token(s: Seq<char>, m: int) -> Option<int>
    recommends
        0 <= m <= s.len(),
{
    if m < s.len() && s[m] == 'A' {
        let d = run_end(s, m + 1, CharClass::Digit);
        if d > m + 1 && d <= s.len() {
            after_mods(s, d)
        } else {
            None
        }
    } else {
        None
    }
}

/// Whether a weapon clause matches at `i`, and if so where it ends.
pub open spec fn clause_end(s: Seq<char>, i: int) -> Option<int>
    recommends
        0 <= i < s.len(),
{
    let e0 = run_end(s, i, CharClass::Digit);
    let j = if e0 > i && e0 + 1 < s.len() && s[e0] == 'x' && s[e0 + 1] == ' ' {
        e0 + 2
    } else {
        i
    };
    let k = run_end(s, j, CharClass::NameChar);
    if !(j <= k && k <= s.len()) {
        None
    } else if !(k - j >= 2 && k < s.len() && s[k] == '(' && s[k - 1] == ' ') {
        None
    } else {
        let m0 = k + 1;
        if m0 < s.len() && class_holds(CharClass::Digit, s[m0]) {
            let r = run_end(s, m0, CharClass::Digit);
            if r + 2 < s.len() && s[r] == '"' && s[r + 1] == ',' && s[r + 2] == ' ' {
                attack_token(s, r + 3)
            } else {
                None
            }
        } else {
            attack_token(s, m0)
        }
    }
}

/// The text of the clause spanning `[i, e)`: the matched characters with
/// leading spaces removed. A clause ends with `)` and its first character
/// is a digit or a name character, so spaces are the only whitespace that
/// can lead a match and nothing trails it.
pub open spec fn clause_text(s: Seq<char>, i: int, e: int) -> Seq<char>
    recommends
        0 <= i <= e <= s.len(),
{
    let a = run_end(s, i, CharClass::SpaceChar);
    if i <= a && a < e {
        s.subrange(a, e)
    } else {
        s.subrange(i, e)
    }
}

/// The weapon clauses of `s` from `i` on: a clause match is consumed whole
/// and classified; any other character is skipped.
pub open spec fn scan_weapons(s: Seq<char>, i: int) -> Seq<WeaponView>
    decreases s.len() - i when 0 <= i <= s.len()
{
    if i >= s.len() {
        Seq::empty()
    } else {
        match clause_end(s, i) {
            Some(e) => if i < e && e <= s.len() {
                seq![classify(clause_text(s, i, e))] + scan_weapons(s, e)
            } else {
                Seq::empty()
            },
            None => scan_weapons(s, i + 1),
        }
    }
}

pub open spec fn spec_parse_weapons(s: Seq<char>) -> Seq<WeaponView> {
    scan_weapons(s, 0)
}

#[verifier::loop_isolation(false)]
fn clause_end_at(v: &Vec<char>, i: usize) -> (r: Option<usize>)
    requires
        i < v.len(),
    ensures
        match r {
            Some(e) => Some(e as int) == clause_end(v@, i as int) && i < e <= v.len(),
            None => clause_end(v@, i as int) is None,
        },
{
    let e0 = scan_run(v, i, CharClass::Digit);
    let j: usize = if e0 > i && e0 < v.len() && v[e0] == 'x' && e0 + 1 < v.len() && v[e0 + 1]
        == ' ' {
        e0 + 2
    } else {
        i
    };
    let k = scan_run(v, j, CharClass::NameChar);
    if !(k - j >= 2 && k < v.len() && v[k] == '(' && v[k - 1] == ' ') {
        return None;
    }
    let m0 = k + 1;
    let m: usize;
    if m0 < v.len() && char_in_class(CharClass::Digit, v[m0]) {
        let r = scan_run(v, m0, CharClass::Digit);
        if r < v.len() && v[r] == '"' && r + 1 < v.len() && v[r + 1] == ',' && r + 2 < v.len()
            && v[r + 2] == ' ' {
            m = r + 3;
        } else {
            return None;
        }
    } else {
        m = m0;
    }
    if !(m < v.len() && v[m] == 'A') {
        return None;
    }
    let d = scan_run(v, m + 1, CharClass::Digit);
    if d == m + 1 {
        return None;
    }
    let mut cur: usize = d;
    loop
        invariant
            i < cur <= v.len(),
            after_mods(v@, d as int) == after_mods(v@, cur as int),
        decreases v.len() - cur,
    {
        if cur >= v.len() {
            return None;
        }
        if v[cur] == ')' {
            return Some(cur + 1);
        }
        if v[cur] == ',' && cur + 1 < v.len() && v[cur + 1] == ' ' {
            let r = scan_run(v, cur + 2, CharClass::NameChar);
            if r == cur + 2 {
                return None;
            }
            let r2: usize;
            if r < v.len() && v[r] == '(' {
                let dd = scan_run(v, r + 1, CharClass::Digit);
                if dd > r + 1 && dd < v.len() && v[dd] == ')' {
                    r2 = dd + 1;
                } else {
                    r2 = r;
                }
            } else {
                r2 = r;
            }
            cur = r2;
        } else {
            return None;
        }
    }
}

fn has_quote(v: &Vec<char>) -> (r: bool)
    ensures
        r == contains_quote(v@),
{
    let mut i: usize = 0;
    while i < v.len()
        invariant
            i <= v.len(),
            forall|j: int| 0 <= j < i ==> (#[trigger] v@[j]) != '"',
        decreases v.len() - i,
    {
        if v[i] == '"' {
            return true;
        }
        i = i + 1;
    }
    false
}

fn make_weapon(t: String) -> (w: Weapon)
    ensures
        w@ == classify(t@),
{
    let v = to_chars(t.as_str());
    if has_quote(&v) {
        Weapon::Ranged(t)
    } else {
        Weapon::Melee(t)
    }
}

/// Splits a weapon line into its clauses, each classified as melee or
/// ranged; text that matches no clause is silently skipped.
pub fn parse_weapons(line: &str) -> (r: Vec<Weapon>)
    ensures
        weapons_view(r@) == spec_parse_weapons(line@),
{
    let v = to_chars(line);
    let mut r: Vec<Weapon> = Vec::new();
    let mut i: usize = 0;
    proof {
        assert(weapons_view(r@) =~= Seq::<WeaponView>::empty());
    }
    while i < v.len()
        invariant
            v@ == line@,
            i <= v.len(),
            spec_parse_weapons(line@) == weapons_view(r@) + scan_weapons(v@, i as int),
        decreases v.len() - i,
    {
        let ghost old_i = i as int;
        let ghost old_views = weapons_view(r@);
        match clause_end_at(&v, i) {
            Some(e) => {
                let a = scan_run(&v, i, CharClass::SpaceChar);
                let start: usize = if a < e {
                    a
                } else {
                    i
                };
                let text = line.substring_char(start, e);
                proof {
                    assert(text@ =~= clause_text(v@, old_i, e as int));
                }
                let w = make_weapon(text.to_owned());
                r.push(w);
                i = e;
                proof {
                    assert(weapons_view(r@) =~= old_views + seq![w@]);
                    assert(scan_weapons(v@, old_i) =~= seq![w@] + scan_weapons(v@, i as int));
                    assert(spec_parse_weapons(line@) == weapons_view(r@) + scan_weapons(
                        v@,
                        i as int,
                    ));
                }
            },
            None => {
                i = i + 1;
            },
        }
    }
    proof {
        assert(weapons_view(r@) + scan_weapons(v@, i as int) =~= weapons_view(r@));
    }
    r
}

impl Weapon {
    /// The clause text preceded by its kind's marker, as the roster display
    /// shows a weapon.
    pub fn marked_text(&self) -> (r: String)
        ensures
            r@ == spec_marked_text(self@),
    {
        match self {
            Weapon::Melee(t) => String::from_str("\u{2694} ").concat(t.as_str()),
            Weapon::Ranged(t) => String::from_str("\u{27b6} ").concat(t.as_str()),
        }
    }
}

/// A weapon's display text: the clause preceded by a marker for its kind.
pub open spec fn spec_marked_text(w: WeaponView) -> Seq<char> {
    match w {
        WeaponView::Melee(t) => "\u{2694} "@ + t,
        WeaponView::Ranged(t) => "\u{27b6} "@ + t,
    }
}

proof fn lemma_scan_classified(s: Seq<char>, i: int, k: int)
    requires
        0 <= i <= s.len(),
        0 <= k < scan_weapons(s, i).len(),
    ensures
        scan_weapons(s, i)[k] is Ranged <==> contains_quote(weapon_text(scan_weapons(s, i)[k])),
    decreases s.len() - i,
{
    if i >= s.len() {
    } else {
        match clause_end(s, i) {
            Some(e) => {
                if i < e && e <= s.len() {
                    if k > 0 {
                        lemma_scan_classified(s, e, k - 1);
                    }
                }
            },
            None => {
                lemma_scan_classified(s, i + 1, k);
            },
        }
    }
}

/// Classification law: every clause the classifier yields is tagged ranged
/// exactly when its text holds a double quote, and melee otherwise.
pub proof fn lemma_weapon_classification(s: Seq<char>, k: int)
    requires
        0 <= k < spec_parse_weapons(s).len(),
    ensures
        spec_parse_weapons(s)[k] is Ranged <==> contains_quote(
            weapon_text(spec_parse_weapons(s)[k]),
        ),
{
    lemma_scan_classified(s, 0, k);
}

} // verus!
