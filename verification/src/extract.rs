//! The field extractor: every roster field is located by a fixed pattern
//! with one capture. A required field that cannot be found degrades to an
//! in-band sentinel string naming the field; optional fields degrade to a
//! caller-supplied default or to an absent value.

use vstd::prelude::*;
use vstd::string::StrSliceExecFns;
use vstd::string::StringExecFns;

use crate::chars::{char_in_class, class_holds, run_end, scan_run, to_chars,
    CharClass};

verus! {

/// The fixed extraction patterns, one per roster field.
#[derive(Clone, Copy)]
pub enum Pattern {
    /// Army name: the text between a leading `++ ` marker and the next ` [`
    /// on the first line.
    ArmyName,
    /// Army points: digits immediately before `pts] ++`.
    ArmyPoints,
    /// Game system: the alphabetic token opening a `[...]` group.
    ArmySystem,
    /// Unit name: the text before the first `[`, after an optional leading
    /// `<n>x ` multiplier, without the space that precedes the bracket.
    UnitName,
    /// Unit count: the digits of a leading `<n>x ` multiplier.
    UnitCount,
    /// Model count: the digits of the first `[<digits>]` group.
    UnitModels,
    /// Unit points: digits immediately before `pts`.
    UnitPoints,
    /// Experience: digits immediately before `XP`.
    UnitXp,
    /// Quality: the digit of the first `Q<digit>+` marker.
    UnitQuality,
    /// Defense: the digits of the first `D<digits>+` marker.
    UnitDefense,
    /// Special rules: the text after the second `|` separator and its
    /// following space.
    UnitSpecialRules,
}

/// Where the unit name begins on a stat line: after a leading `<n>x `
/// multiplier when one is present, else at the start.
pub open spec fn name_start(s: Seq<char>) -> int {
    let e = run_end(s, 0, CharClass::Digit);
    if e > 0 && e + 1 < s.len() && s[e] == 'x' && s[e + 1] == ' ' {
        e + 2
    } else {
        0
    }
}

/// Whether pattern `p` matches at position `i` of `s`. Anchored patterns
/// match only at position zero.
pub open spec fn match_at(p: Pattern, s: Seq<char>, i: int) -> bool
    recommends
        0 <= i < s.len(),
{
    match p {
        Pattern::ArmyName => i == 0 && s.len() >= 3 && s[0] == '+' && s[1] == '+' && s[2] == ' '
            && {
            let b = run_end(s, 3, CharClass::NotLBracketNorNewline);
            b < s.len() && s[b] == '[' && b >= 4 && s[b - 1] == ' '
        },
        Pattern::ArmyPoints => class_holds(CharClass::Digit, s[i]) && {
            let e = run_end(s, i, CharClass::Digit);
            e + 7 <= s.len() && s[e] == 'p' && s[e + 1] == 't' && s[e + 2] == 's' && s[e + 3]
                == ']' && s[e + 4] == ' ' && s[e + 5] == '+' && s[e + 6] == '+'
        },
        Pattern::ArmySystem => s[i] == '[' && {
            let e = run_end(s, i + 1, CharClass::Alpha);
            e > i + 1 && e < s.len() && s[e] == ' '
        },
        Pattern::UnitName => i == 0 && {
            let st = name_start(s);
            let b = run_end(s, st, CharClass::NotLBracket);
            b < s.len() && b >= st + 2 && s[b - 1] == ' '
        },
        Pattern::UnitCount => i == 0 && {
            let e = run_end(s, 0, CharClass::Digit);
            e > 0 && e + 1 < s.len() && s[e] == 'x' && s[e + 1] == ' '
        },
        Pattern::UnitModels => s[i] == '[' && {
            let e = run_end(s, i + 1, CharClass::Digit);
            e > i + 1 && e < s.len() && s[e] == ']'
        },
        Pattern::UnitPoints => class_holds(CharClass::Digit, s[i]) && {
            let e = run_end(s, i, CharClass::Digit);
            e + 3 <= s.len() && s[e] == 'p' && s[e + 1] == 't' && s[e + 2] == 's'
        },
        Pattern::UnitXp => class_holds(CharClass::Digit, s[i]) && {
            let e = run_end(s, i, CharClass::Digit);
            e + 2 <= s.len() && s[e] == 'X' && s[e + 1] == 'P'
        },
        Pattern::UnitQuality => s[i] == 'Q' && i + 2 < s.len() && class_holds(
            CharClass::Digit,
            s[i + 1],
        ) && s[i + 2] == '+',
        Pattern::UnitDefense => s[i] == 'D' && {
            let e = run_end(s, i + 1, CharClass::Digit);
            e > i + 1 && e < s.len() && s[e] == '+'
        },
        Pattern::UnitSpecialRules => i == 0 && {
            let p1 = run_end(s, 0, CharClass::NotPipe);
            p1 < s.len() && {
                let p2 = run_end(s, p1 + 1, CharClass::NotPipe);
                p2 < s.len() && p2 + 1 < s.len() && s[p2 + 1] == ' '
            }
        },
    }
}

/// The captured text of a match of `p` at position `i`.
pub open spec fn capture_at(p: Pattern, s: Seq<char>, i: int) -> Seq<char>
    recommends
        0 <= i < s.len(),
        match_at(p, s, i),
{
    match p {
        Pattern::ArmyName => {
            let b = run_end(s, 3, CharClass::NotLBracketNorNewline);
            s.subrange(3, b - 1)
        },
        Pattern::ArmyPoints => s.subrange(i, run_end(s, i, CharClass::Digit)),
        Pattern::ArmySystem => s.subrange(i + 1, run_end(s, i + 1, CharClass::Alpha)),
        Pattern::UnitName => {
            let st = name_start(s);
            let b = run_end(s, st, CharClass::NotLBracket);
            s.subrange(st, b - 1)
        },
        Pattern::UnitCount => s.subrange(0, run_end(s, 0, CharClass::Digit)),
        Pattern::UnitModels => s.subrange(i + 1, run_end(s, i + 1, CharClass::Digit)),
        Pattern::UnitPoints => s.subrange(i, run_end(s, i, CharClass::Digit)),
        Pattern::UnitXp => s.subrange(i, run_end(s, i, CharClass::Digit)),
        Pattern::UnitQuality => s.subrange(i + 1, i + 2),
        Pattern::UnitDefense => s.subrange(i + 1, run_end(s, i + 1, CharClass::Digit)),
        Pattern::UnitSpecialRules => {
            let p1 = run_end(s, 0, CharClass::NotPipe);
            let p2 = run_end(s, p1 + 1, CharClass::NotPipe);
            s.subrange(p2 + 2, s.len() as int)
        },
    }
}

/// The position of the leftmost match of `p` at or after `i`.
pub open spec fn find_pos(p: Pattern, s: Seq<char>, i: int) -> Option<int>
    decreases s.len() - i when 0 <= i <= s.len()
{
    if i >= s.len() {
        None
    } else if match_at(p, s, i) {
        Some(i)
    } else {
        find_pos(p, s, i + 1)
    }
}

pub proof fn lemma_find_pos_some(p: Pattern, s: Seq<char>, i: int, j: int)
    requires
        0 <= i <= j < s.len(),
        match_at(p, s, j),
        forall|k: int| i <= k < j ==> !(#[trigger] match_at(p, s, k)),
    ensures
        find_pos(p, s, i) == Some(j),
    decreases j - i,
{
    if i < j {
        lemma_find_pos_some(p, s, i + 1, j);
    }
}

pub proof fn lemma_find_pos_none(p: Pattern, s: Seq<char>, i: int)
    requires
        0 <= i <= s.len(),
        forall|k: int| i <= k < s.len() ==> !(#[trigger] match_at(p, s, k)),
    ensures
        find_pos(p, s, i) is None,
    decreases s.len() - i,
{
    if i < s.len() {
        lemma_find_pos_none(p, s, i + 1);
    }
}

/// The capture of the leftmost match of `p` in `s`, when one exists.
pub open spec fn spec_capture(p: Pattern, s: Seq<char>) -> Option<Seq<char>> {
    match find_pos(p, s, 0) {
        Some(i) => Some(capture_at(p, s, i)),
        None => None,
    }
}

fn check_match_at(p: Pattern, v: &Vec<char>, i: usize) -> (b: bool)
    requires
        i < v.len(),
    ensures
        b == match_at(p, v@, i as int),
{
    match p {
        Pattern::ArmyName => i == 0 && v.len() >= 3 && v[0] == '+' && v[1] == '+' && v[2] == ' '
            && {
            let b = scan_run(v, 3, CharClass::NotLBracketNorNewline);
            b < v.len() && v[b] == '[' && b >= 4 && v[b - 1] == ' '
        },
        Pattern::ArmyPoints => char_in_class(CharClass::Digit, v[i]) && {
            let e = scan_run(v, i, CharClass::Digit);
            v.len() - e >= 7 && v[e] == 'p' && v[e + 1] == 't' && v[e + 2] == 's' && v[e + 3]
                == ']' && v[e + 4] == ' ' && v[e + 5] == '+' && v[e + 6] == '+'
        },
        Pattern::ArmySystem => v[i] == '[' && {
            let e = scan_run(v, i + 1, CharClass::Alpha);
            e > i + 1 && e < v.len() && v[e] == ' '
        },
        Pattern::UnitName => i == 0 && {
            let e = scan_run(v, 0, CharClass::Digit);
            let st: usize = if e > 0 && e < v.len() && v[e] == 'x' && e + 1 < v.len() && v[e + 1] == ' ' {
                e + 2
            } else {
                0
            };
            let b = scan_run(v, st, CharClass::NotLBracket);
            b < v.len() && b - st >= 2 && v[b - 1] == ' '
        },
        Pattern::UnitCount => i == 0 && {
            let e = scan_run(v, 0, CharClass::Digit);
            e > 0 && e < v.len() && v[e] == 'x' && e + 1 < v.len() && v[e + 1] == ' '
        },
        Pattern::UnitModels => v[i] == '[' && {
            let e = scan_run(v, i + 1, CharClass::Digit);
            e > i + 1 && e < v.len() && v[e] == ']'
        },
        Pattern::UnitPoints => char_in_class(CharClass::Digit, v[i]) && {
            let e = scan_run(v, i, CharClass::Digit);
            v.len() - e >= 3 && v[e] == 'p' && v[e + 1] == 't' && v[e + 2] == 's'
        },
        Pattern::UnitXp => char_in_class(CharClass::Digit, v[i]) && {
            let e = scan_run(v, i, CharClass::Digit);
            v.len() - e >= 2 && v[e] == 'X' && v[e + 1] == 'P'
        },
        Pattern::UnitQuality => v[i] == 'Q' && v.len() - i > 2 && char_in_class(
            CharClass::Digit,
            v[i + 1],
        ) && v[i + 2] == '+',
        Pattern::UnitDefense => v[i] == 'D' && {
            let e = scan_run(v, i + 1, CharClass::Digit);
            e > i + 1 && e < v.len() && v[e] == '+'
        },
        Pattern::UnitSpecialRules => i == 0 && {
            let p1 = scan_run(v, 0, CharClass::NotPipe);
            p1 < v.len() && {
                let p2 = scan_run(v, p1 + 1, CharClass::NotPipe);
                p2 < v.len() && p2 + 1 < v.len() && v[p2 + 1] == ' '
            }
        },
    }
}

fn find_match(p: Pattern, v: &Vec<char>) -> (r: Option<usize>)
    ensures
        match r {
            Some(i) => i < v.len() && match_at(p, v@, i as int) && find_pos(p, v@, 0) == Some(
                i as int,
            ),
            None => find_pos(p, v@, 0) is None,
        },
{
    let mut i: usize = 0;
    while i < v.len()
        invariant
            i <= v.len(),
            forall|k: int| 0 <= k < i ==> !(#[trigger] match_at(p, v@, k)),
        decreases v.len() - i,
    {
        if check_match_at(p, v, i) {
            proof {
                lemma_find_pos_some(p, v@, 0, i as int);
            }
            return Some(i);
        }
        i = i + 1;
    }
    proof {
        lemma_find_pos_none(p, v@, 0);
    }
    None
}

fn capture_bounds(p: Pattern, v: &Vec<char>, i: usize) -> (b: (usize, usize))
    requires
        i < v.len(),
        match_at(p, v@, i as int),
    ensures
        b.0 <= b.1 <= v.len(),
        v@.subrange(b.0 as int, b.1 as int) == capture_at(p, v@, i as int),
{
    match p {
        Pattern::ArmyName => {
            let b = scan_run(v, 3, CharClass::NotLBracketNorNewline);
            (3, b - 1)
        },
        Pattern::ArmyPoints => (i, scan_run(v, i, CharClass::Digit)),
        Pattern::ArmySystem => (i + 1, scan_run(v, i + 1, CharClass::Alpha)),
        Pattern::UnitName => {
            let e = scan_run(v, 0, CharClass::Digit);
            let st: usize = if e > 0 && e < v.len() && v[e] == 'x' && e + 1 < v.len() && v[e + 1] == ' ' {
                e + 2
            } else {
                0
            };
            let b = scan_run(v, st, CharClass::NotLBracket);
            (st, b - 1)
        },
        Pattern::UnitCount => (0, scan_run(v, 0, CharClass::Digit)),
        Pattern::UnitModels => (i + 1, scan_run(v, i + 1, CharClass::Digit)),
        Pattern::UnitPoints => (i, scan_run(v, i, CharClass::Digit)),
        Pattern::UnitXp => (i, scan_run(v, i, CharClass::Digit)),
        Pattern::UnitQuality => (i + 1, i + 2),
        Pattern::UnitDefense => (i + 1, scan_run(v, i + 1, CharClass::Digit)),
        Pattern::UnitSpecialRules => {
            let p1 = scan_run(v, 0, CharClass::NotPipe);
            let p2 = scan_run(v, p1 + 1, CharClass::NotPipe);
            (p2 + 2, v.len())
        },
    }
}

pub open spec fn opt_str_view(r: Option<String>) -> Option<Seq<char>> {
    match r {
        Some(t) => Some(t@),
        None => None,
    }
}

/// Extracts an optional field: the captured text, or nothing when the
/// pattern does not match.
pub fn extract_optional_single(p: Pattern, input: &str) -> (r: Option<String>)
    ensures
        opt_str_view(r) == spec_capture(p, input@),
{
    let v = to_chars(input);
    match find_match(p, &v) {
        Some(i) => {
            let (a, b) = capture_bounds(p, &v, i);
            Some(input.substring_char(a, b).to_owned())
        },
        None => None,
    }
}

/// The in-band marker for a required field that could not be extracted.
pub open spec fn spec_sentinel(name: Seq<char>) -> Seq<char> {
    "[error: can't extract "@ + name + "]"@
}

fn sentinel_string(name: &str) -> (r: String)
    ensures
        r@ == spec_sentinel(name@),
{
    let mut r = String::from_str("[error: can't extract ");
    r.append(name);
    r.append("]");
    proof {
        assert(r@ =~= spec_sentinel(name@));
    }
    r
}

/// What extracting the required field `name` by pattern `p` yields: the
/// capture, or the sentinel naming the field.
pub open spec fn spec_extract_single(name: Seq<char>, p: Pattern, s: Seq<char>) -> Seq<char> {
    match spec_capture(p, s) {
        Some(c) => c,
        None => spec_sentinel(name),
    }
}

/// Extracts a required field: the captured text, or the sentinel string
/// naming the field when the pattern does not match.
pub fn extract_single(name: &str, p: Pattern, input: &str) -> (r: String)
    ensures
        r@ == spec_extract_single(name@, p, input@),
{
    match extract_optional_single(p, input) {
        Some(c) => c,
        None => sentinel_string(name),
    }
}

/// What extracting an optional-with-default field yields: the capture, or
/// the default.
pub open spec fn spec_extract_single_or(default: Seq<char>, p: Pattern, s: Seq<char>) -> Seq<
    char,
> {
    match spec_capture(p, s) {
        Some(c) => c,
        None => default,
    }
}

/// Extracts an optional-with-default field: the captured text, or the
/// caller's default when the pattern does not match.
pub fn extract_single_or(default: &str, p: Pattern, input: &str) -> (r: String)
    ensures
        r@ == spec_extract_single_or(default@, p, input@),
{
    match extract_optional_single(p, input) {
        Some(c) => c,
        None => default.to_owned(),
    }
}

/// A required field whose pattern finds no match yields exactly the
/// sentinel string naming the field.
pub proof fn lemma_missing_field_sentinel(name: Seq<char>, p: Pattern, s: Seq<char>)
    requires
        spec_capture(p, s) is None,
    ensures
        spec_extract_single(name, p, s) == spec_sentinel(name),
{
}

/// The count field: with no leading `<n>x ` multiplier the default is
/// returned unchanged; with one, its literal digits are captured.
pub proof fn lemma_count_extraction(default: Seq<char>, s: Seq<char>)
    ensures
        !match_at(Pattern::UnitCount, s, 0) ==> spec_extract_single_or(
            default,
            Pattern::UnitCount,
            s,
        ) == default,
        match_at(Pattern::UnitCount, s, 0) ==> spec_extract_single_or(
            default,
            Pattern::UnitCount,
            s,
        ) == s.subrange(0, run_end(s, 0, CharClass::Digit)),
{
    if s.len() == 0 {
    } else if match_at(Pattern::UnitCount, s, 0) {
        lemma_find_pos_some(Pattern::UnitCount, s, 0, 0);
    } else {
        assert(forall|k: int| 0 <= k < s.len() ==> !(#[trigger] match_at(
            Pattern::UnitCount,
            s,
            k,
        )));
        lemma_find_pos_none(Pattern::UnitCount, s, 0);
    }
}

} // verus!
