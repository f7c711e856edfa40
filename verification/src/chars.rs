//! Character-level scanning primitives shared by the roster parsers:
//! character classes, maximal-run scanning, conversion of a string to its
//! characters, blank-line detection, and splitting text into lines.

use vstd::prelude::*;
use vstd::string::StrSliceExecFns;

verus! {

/// The character classes that the roster grammar distinguishes.
#[derive(Clone, Copy)]
pub enum CharClass {
    /// A decimal digit.
    Digit,
    /// An ASCII letter.
    Alpha,
    /// A character of a weapon or rule name: letter, space or hyphen.
    NameChar,
    /// A space.
    SpaceChar,
    /// Whitespace: any character with the Unicode white-space property.
    Whitespace,
    /// Any character but a line feed.
    NotNewline,
    /// Any character but a pipe.
    NotPipe,
    /// Any character but an opening bracket.
    NotLBracket,
    /// Any character but an opening bracket or a line feed.
    NotLBracketNorNewline,
}

pub open spec fn class_holds(k: CharClass, c: char) -> bool {
    match k {
        CharClass::Digit => '0' <= c && c <= '9',
        CharClass::Alpha => ('a' <= c && c <= 'z') || ('A' <= c && c <= 'Z'),
        CharClass::NameChar => ('a' <= c && c <= 'z') || ('A' <= c && c <= 'Z') || c == '-'
            || c == ' ',
        CharClass::SpaceChar => c == ' ',
        CharClass::Whitespace => c == ' ' || ('\t' <= c && c <= '\r') || c == '\u{0085}'
            || c == '\u{00A0}' || c == '\u{1680}' || ('\u{2000}' <= c && c <= '\u{200A}')
            || c == '\u{2028}' || c == '\u{2029}' || c == '\u{202F}' || c == '\u{205F}'
            || c == '\u{3000}',
        CharClass::NotNewline => c != '\n',
        CharClass::NotPipe => c != '|',
        CharClass::NotLBracket => c != '[',
        CharClass::NotLBracketNorNewline => c != '[' && c != '\n',
    }
}

pub fn char_in_class(k: CharClass, c: char) -> (r: bool)
    ensures
        r == class_holds(k, c),
{
    match k {
        CharClass::Digit => '0' <= c && c <= '9',
        CharClass::Alpha => ('a' <= c && c <= 'z') || ('A' <= c && c <= 'Z'),
        CharClass::NameChar => ('a' <= c && c <= 'z') || ('A' <= c && c <= 'Z') || c == '-'
            || c == ' ',
        CharClass::SpaceChar => c == ' ',
        CharClass::Whitespace => c == ' ' || ('\t' <= c && c <= '\r') || c == '\u{0085}'
            || c == '\u{00A0}' || c == '\u{1680}' || ('\u{2000}' <= c && c <= '\u{200A}')
            || c == '\u{2028}' || c == '\u{2029}' || c == '\u{202F}' || c == '\u{205F}'
            || c == '\u{3000}',
        CharClass::NotNewline => c != '\n',
        CharClass::NotPipe => c != '|',
        CharClass::NotLBracket => c != '[',
        CharClass::NotLBracketNorNewline => c != '[' && c != '\n',
    }
}

/// The end of the maximal run of characters of class `k` beginning at `i`:
/// the first index at or after `i` whose character falls outside the class,
/// or the length of `s` when the run reaches the end.
pub open spec fn run_end(s: Seq<char>, i: int, k: CharClass) -> int
    decreases s.len() - i when 0 <= i <= s.len()
{
    if i >= s.len() {
        i
    } else if class_holds(k, s[i]) {
        run_end(s, i + 1, k)
    } else {
        i
    }
}

pub proof fn lemma_run_end(s: Seq<char>, i: int, k: CharClass)
    requires
        0 <= i <= s.len(),
    ensures
        i <= run_end(s, i, k) <= s.len(),
        forall|j: int| i <= j < run_end(s, i, k) ==> #[trigger] class_holds(k, s[j]),
        run_end(s, i, k) < s.len() ==> !class_holds(k, s[run_end(s, i, k)]),
    decreases s.len() - i,
{
    if i < s.len() && class_holds(k, s[i]) {
        lemma_run_end(s, i + 1, k);
    }
}

/// Scans the maximal run of characters of class `k` starting at `i`.
pub fn scan_run(v: &Vec<char>, i: usize, k: CharClass) -> (j: usize)
    requires
        i <= v.len(),
    ensures
        j as int == run_end(v@, i as int, k),
        i <= j <= v.len(),
{
    let mut j: usize = i;
    while j < v.len() && char_in_class(k, v[j])
        invariant
            i <= j <= v.len(),
            run_end(v@, i as int, k) == run_end(v@, j as int, k),
        decreases v.len() - j,
    {
        j = j + 1;
    }
    proof {
        lemma_run_end(v@, i as int, k);
    }
    j
}

/// The characters of a string, in order.
pub fn to_chars(s: &str) -> (v: Vec<char>)
    ensures
        v@ == s@,
{
    let n: usize = s.unicode_len();
    let mut v: Vec<char> = Vec::new();
    let mut i: usize = 0;
    while i < n
        invariant
            n == s@.len(),
            i <= n,
            v@ == s@.subrange(0, i as int),
        decreases n - i,
    {
        let c = s.get_char(i);
        v.push(c);
        i = i + 1;
        proof {
            assert(v@ =~= s@.subrange(0, i as int));
        }
    }
    proof {
        assert(v@ =~= s@);
    }
    v
}

/// A blank text: every character is whitespace (so the empty text is blank).
pub open spec fn is_blank(s: Seq<char>) -> bool {
    forall|i: int| 0 <= i < s.len() ==> class_holds(CharClass::Whitespace, #[trigger] s[i])
}

pub fn check_blank(v: &Vec<char>) -> (r: bool)
    ensures
        r == is_blank(v@),
{
    let mut i: usize = 0;
    while i < v.len()
        invariant
            i <= v.len(),
            forall|j: int| 0 <= j < i ==> class_holds(CharClass::Whitespace, #[trigger] v@[j]),
        decreases v.len() - i,
    {
        if !char_in_class(CharClass::Whitespace, v[i]) {
            return false;
        }
        i = i + 1;
    }
    true
}

/// Whether a text is empty or consists of whitespace only.
pub fn is_blank_text(s: &str) -> (r: bool)
    ensures
        r == is_blank(s@),
{
    let v = to_chars(s);
    check_blank(&v)
}

/// A line with a final carriage return (from a `\r\n` line break) removed.
pub open spec fn strip_cr(l: Seq<char>) -> Seq<char> {
    if l.len() > 0 && l[l.len() - 1] == '\r' {
        l.drop_last()
    } else {
        l
    }
}

/// The lines of `s` from index `i` on: line breaks are line feeds, each
/// optionally preceded by a carriage return, and a final line break ends
/// the last line rather than opening an empty one.
pub open spec fn lines_from(s: Seq<char>, i: int) -> Seq<Seq<char>>
    decreases s.len() - i when 0 <= i <= s.len()
{
    if i >= s.len() {
        Seq::empty()
    } else {
        let e = run_end(s, i, CharClass::NotNewline);
        if !(i <= e <= s.len()) {
            Seq::empty()
        } else if e >= s.len() {
            seq![strip_cr(s.subrange(i, e))]
        } else {
            seq![strip_cr(s.subrange(i, e))] + lines_from(s, e + 1)
        }
    }
}

pub open spec fn spec_lines(s: Seq<char>) -> Seq<Seq<char>> {
    lines_from(s, 0)
}

/// The views of a sequence of string slices.
pub open spec fn strs_view(ls: Seq<&str>) -> Seq<Seq<char>> {
    ls.map_values(|l: &str| l@)
}

/// Splits a string into its lines.
pub fn split_lines<'a>(s: &'a str, v: &Vec<char>) -> (ls: Vec<&'a str>)
    requires
        v@ == s@,
    ensures
        strs_view(ls@) == spec_lines(s@),
{
    let n: usize = v.len();
    let mut ls: Vec<&'a str> = Vec::new();
    let mut pos: usize = 0;
    while pos < n
        invariant
            v@ == s@,
            n == v.len(),
            pos <= n,
            spec_lines(s@) == strs_view(ls@) + lines_from(s@, pos as int),
        decreases n - pos,
    {
        let ghost old_pos = pos as int;
        let ghost old_views = strs_view(ls@);
        let e = scan_run(v, pos, CharClass::NotNewline);
        let end2: usize = if e > pos && v[e - 1] == '\r' {
            e - 1
        } else {
            e
        };
        let line = s.substring_char(pos, end2);
        proof {
            assert(line@ =~= strip_cr(s@.subrange(old_pos, e as int)));
        }
        ls.push(line);
        if e < n {
            pos = e + 1;
        } else {
            pos = n;
        }
        proof {
            assert(strs_view(ls@) =~= old_views + seq![line@]);
            assert(lines_from(s@, old_pos) =~= seq![line@] + lines_from(s@, pos as int));
            assert(spec_lines(s@) =~= strs_view(ls@) + lines_from(s@, pos as int));
        }
    }
    proof {
        assert(spec_lines(s@) =~= strs_view(ls@));
    }
    ls
}

} // verus!
