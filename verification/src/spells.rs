//! The spell-list parser: a plain list kept line by line. Blank input
//! yields nothing at all; otherwise every non-blank line is one entry.

use vstd::prelude::*;

use crate::chars::{check_blank, is_blank, spec_lines, split_lines, strs_view, to_chars};

verus! {

/// The non-blank lines of a sequence of lines, in order.
pub open spec fn nonblank_lines(ls: Seq<Seq<char>>) -> Seq<Seq<char>>
    decreases ls.len(),
{
    if ls.len() == 0 {
        Seq::empty()
    } else {
        nonblank_lines(ls.drop_last()) + (if !is_blank(ls.last()) {
            seq![ls.last()]
        } else {
            Seq::empty()
        })
    }
}

/// The views of a sequence of strings.
pub open spec fn strings_view(xs: Seq<String>) -> Seq<Seq<char>> {
    xs.map_values(|x: String| x@)
}

pub open spec fn opt_strings_view(r: Option<Vec<String>>) -> Option<Seq<Seq<char>>> {
    match r {
        Some(xs) => Some(strings_view(xs@)),
        None => None,
    }
}

/// What parsing a spell list yields: nothing at all for blank input, else
/// the non-blank lines in source order.
pub open spec fn spec_parse_spells(s: Seq<char>) -> Option<Seq<Seq<char>>> {
    if is_blank(s) {
        None
    } else {
        Some(nonblank_lines(spec_lines(s)))
    }
}

/// Parses a spell list: blank (empty or whitespace-only) input yields
/// nothing at all; otherwise every non-blank line is kept as one entry.
pub fn parse_spells(input: &str) -> (r: Option<Vec<String>>)
    ensures
        opt_strings_view(r) == spec_parse_spells(input@),
        r is None <==> is_blank(input@),
{
    let v = to_chars(input);
    if check_blank(&v) {
        return None;
    }
    let lines = split_lines(input, &v);
    let mut xs: Vec<String> = Vec::new();
    let mut li: usize = 0;
    proof {
        assert(strings_view(xs@) =~= Seq::<Seq<char>>::empty());
        assert(strs_view(lines@).take(0) =~= Seq::<Seq<char>>::empty());
    }
    while li < lines.len()
        invariant
            strs_view(lines@) == spec_lines(input@),
            li <= lines.len(),
            strings_view(xs@) == nonblank_lines(strs_view(lines@).take(li as int)),
        decreases lines.len() - li,
    {
        let ghost old_views = strings_view(xs@);
        let line = lines[li];
        proof {
            assert(line@ == strs_view(lines@)[li as int]);
        }
        let lv = to_chars(line);
        if !check_blank(&lv) {
            let entry = line.to_owned();
            let ghost ev = entry@;
            xs.push(entry);
            proof {
                assert(strings_view(xs@) =~= old_views.push(ev));
            }
        }
        li = li + 1;
        proof {
            let ls = strs_view(lines@);
            assert(ls.take(li as int).drop_last() =~= ls.take(li as int - 1));
            assert(ls.take(li as int).last() == line@);
            assert(strings_view(xs@) =~= nonblank_lines(ls.take(li as int)));
        }
    }
    proof {
        assert(strs_view(lines@).take(lines@.len() as int) =~= strs_view(lines@));
    }
    Some(xs)
}

} // verus!
