//! The definition-list parser: independent `Name: Value` line lists (spells,
//! special rules), tolerant of blank lines. Blank input yields nothing at
//! all; a line that does not split on `": "` is dropped silently.

use vstd::prelude::*;
use vstd::string::StrSliceExecFns;

use crate::chars::{check_blank, is_blank, spec_lines, split_lines, strs_view, to_chars};

verus! {

/// One `name: value` pair from a definition list.
#[derive(Debug, PartialEq)]
pub struct Definition {
    pub name: String,
    pub value: String,
}

/// The spec-level form of a definition.
#[verifier::ext_equal]
pub struct DefinitionView {
    pub name: Seq<char>,
    pub value: Seq<char>,
}

impl View for Definition {
    type V = DefinitionView;

    open spec fn view(&self) -> DefinitionView {
        DefinitionView { name: self.name@, value: self.value@ }
    }
}

/// The views of a sequence of definitions.
pub open spec fn defs_view(ds: Seq<Definition>) -> Seq<DefinitionView> {
    ds.map_values(|d: Definition| d@)
}

/// The position of the first `": "` separator at or after `i`.
pub open spec fn find_sep(l: Seq<char>, i: int) -> Option<int>
    decreases l.len() - i when 0 <= i <= l.len()
{
    if i + 1 >= l.len() {
        None
    } else if l[i] == ':' && l[i + 1] == ' ' {
        Some(i)
    } else {
        find_sep(l, i + 1)
    }
}

/// The definition a line holds: the text before the first `": "` separator
/// and the text after it, provided the name part is nonempty. A line with
/// no separator, or with nothing before it, holds none.
pub open spec fn spec_parse_definition(l: Seq<char>) -> Option<DefinitionView> {
    match find_sep(l, 0) {
        Some(i) => if i >= 1 {
            Some(
                DefinitionView {
                    name: l.subrange(0, i),
                    value: l.subrange(i + 2, l.len() as int),
                },
            )
        } else {
            None
        },
        None => None,
    }
}

/// The definitions of a sequence of lines: one per non-blank line whose
/// shape matches, in source order; every other line is dropped.
pub open spec fn defs_of_lines(ls: Seq<Seq<char>>) -> Seq<DefinitionView>
    decreases ls.len(),
{
    if ls.len() == 0 {
        Seq::empty()
    } else {
        defs_of_lines(ls.drop_last()) + (if !is_blank(ls.last()) {
            match spec_parse_definition(ls.last()) {
                Some(d) => seq![d],
                None => Seq::empty(),
            }
        } else {
            Seq::empty()
        })
    }
}

/// What parsing a definition list yields: nothing at all for blank input —
/// distinct from a supplied but empty list — else one definition per
/// matching non-blank line.
pub open spec fn spec_parse_definitions(s: Seq<char>) -> Option<Seq<DefinitionView>> {
    if is_blank(s) {
        None
    } else {
        Some(defs_of_lines(spec_lines(s)))
    }
}

pub open spec fn opt_defs_view(r: Option<Vec<Definition>>) -> Option<Seq<DefinitionView>> {
    match r {
        Some(ds) => Some(defs_view(ds@)),
        None => None,
    }
}

#[verifier::loop_isolation(false)]
fn find_sep_at(lv: &Vec<char>) -> (r: Option<usize>)
    ensures
        match r {
            Some(i) => find_sep(lv@, 0) == Some(i as int) && i + 2 <= lv.len(),
            None => find_sep(lv@, 0) is None,
        },
{
    let mut i: usize = 0;
    loop
        invariant
            i <= lv.len(),
            find_sep(lv@, 0) == find_sep(lv@, i as int),
        decreases lv.len() - i,
    {
        if lv.len() - i < 2 {
            return None;
        }
        if lv[i] == ':' && lv[i + 1] == ' ' {
            return Some(i);
        }
        i = i + 1;
    }
}

fn parse_definition(line: &str, lv: &Vec<char>) -> (r: Option<Definition>)
    requires
        lv@ == line@,
    ensures
        match r {
            Some(d) => spec_parse_definition(line@) == Some(d@),
            None => spec_parse_definition(line@) is None,
        },
{
    match find_sep_at(lv) {
        Some(i) => {
            if i >= 1 {
                let name = line.substring_char(0, i).to_owned();
                let value = line.substring_char(i + 2, lv.len()).to_owned();
                Some(Definition { name, value })
            } else {
                None
            }
        },
        None => None,
    }
}

/// Parses a `Name: Value` definition list. Blank (empty or whitespace-only)
/// input yields nothing at all; otherwise each non-blank line that splits
/// on its first `": "` becomes one definition, in source order — duplicate
/// names included — and every other line is dropped.
pub fn parse_definitions(input: &str) -> (r: Option<Vec<Definition>>)
    ensures
        opt_defs_view(r) == spec_parse_definitions(input@),
        r is None <==> is_blank(input@),
{
    let v = to_chars(input);
    if check_blank(&v) {
        return None;
    }
    let lines = split_lines(input, &v);
    let mut ds: Vec<Definition> = Vec::new();
    let mut li: usize = 0;
    proof {
        assert(defs_view(ds@) =~= Seq::<DefinitionView>::empty());
        assert(strs_view(lines@).take(0) =~= Seq::<Seq<char>>::empty());
    }
    while li < lines.len()
        invariant
            strs_view(lines@) == spec_lines(input@),
            li <= lines.len(),
            defs_view(ds@) == defs_of_lines(strs_view(lines@).take(li as int)),
        decreases lines.len() - li,
    {
        let ghost old_views = defs_view(ds@);
        let line = lines[li];
        proof {
            assert(line@ == strs_view(lines@)[li as int]);
        }
        let lv = to_chars(line);
        if !check_blank(&lv) {
            match parse_definition(line, &lv) {
                Some(d) => {
                    let ghost dv = d@;
                    ds.push(d);
                    proof {
                        assert(defs_view(ds@) =~= old_views.push(dv));
                    }
                },
                None => {},
            }
        }
        li = li + 1;
        proof {
            let ls = strs_view(lines@);
            assert(ls.take(li as int).drop_last() =~= ls.take(li as int - 1));
            assert(ls.take(li as int).last() == line@);
            assert(defs_view(ds@) =~= defs_of_lines(ls.take(li as int)));
        }
    }
    proof {
        assert(strs_view(lines@).take(lines@.len() as int) =~= strs_view(lines@));
    }
    Some(ds)
}

/// Dropped-line law: a blank line, or one that does not split into a named
/// `name: value` pair, contributes no definition.
pub proof fn lemma_unmatched_line_dropped(ls: Seq<Seq<char>>, l: Seq<char>)
    requires
        is_blank(l) || spec_parse_definition(l) is None,
    ensures
        defs_of_lines(ls.push(l)) == defs_of_lines(ls),
{
    assert(ls.push(l).drop_last() =~= ls);
    assert(ls.push(l).last() == l);
}

/// Determinism law: the definition list parsed from a text is a function of
/// the text alone, so parsing the same input twice yields equal results.
pub proof fn lemma_parse_definitions_deterministic(
    s: Seq<char>,
    r1: Option<Seq<DefinitionView>>,
    r2: Option<Seq<DefinitionView>>,
)
    requires
        r1 == spec_parse_definitions(s),
        r2 == spec_parse_definitions(s),
    ensures
        r1 == r2,
{
}

} // verus!
