//! Plain-text tokenizing for the `"role: content"` line format: finding the
//! first `": "` separator, ASCII case folding for role matching, blank-line
//! detection, and splitting a batch into lines.

use vstd::prelude::*;

verus! {

/// ASCII lowercasing of one character; every other character stays as it is.
pub open spec fn lower_char(c: char) -> char {
    if 'A' <= c && c <= 'Z' {
        (((c as u8) + 32) as char)
    } else {
        c
    }
}

/// ASCII lowercasing of a character sequence.
pub open spec fn lower(s: Seq<char>) -> Seq<char> {
    s.map_values(|c: char| lower_char(c))
}

/// The position of the first `": "` separator, if any.
pub open spec fn find_sep(s: Seq<char>) -> Option<int>
    decreases s.len(),
{
    if s.len() < 2 {
        None
    } else if s[0] == ':' && s[1] == ' ' {
        Some(0)
    } else {
        match find_sep(s.drop_first()) {
            Some(i) => Some(i + 1),
            None => None,
        }
    }
}

/// The two sides of `s` around the first `": "` separator, if it occurs.
pub open spec fn split_sep(s: Seq<char>) -> Option<(Seq<char>, Seq<char>)> {
    match find_sep(s) {
        Some(i) => Some((s.subrange(0, i), s.subrange(i + 2, s.len() as int))),
        None => None,
    }
}

/// The characters `str::trim` removes at a line's ends.
pub open spec fn is_space(c: char) -> bool {
    c == ' ' || c == '\t' || c == '\n' || c == '\r' || c == '\u{b}' || c == '\u{c}'
}

/// A line of whitespace alone (or of nothing).
pub open spec fn is_blank(s: Seq<char>) -> bool {
    forall|i: int| 0 <= i < s.len() ==> is_space(#[trigger] s[i])
}

/// The position of the first newline, if any.
pub open spec fn find_nl(s: Seq<char>) -> Option<int>
    decreases s.len(),
{
    if s.len() == 0 {
        None
    } else if s[0] == '\n' {
        Some(0)
    } else {
        match find_nl(s.drop_first()) {
            Some(i) => Some(i + 1),
            None => None,
        }
    }
}

/// A line without its trailing carriage return, if it carries one.
pub open spec fn strip_cr(s: Seq<char>) -> Seq<char> {
    if s.len() > 0 && s[s.len() - 1] == '\r' {
        s.drop_last()
    } else {
        s
    }
}

/// A found newline position lies inside the sequence.
pub proof fn lemma_find_nl_bounds(s: Seq<char>)
    ensures
        find_nl(s) matches Some(i) ==> 0 <= i < s.len(),
    decreases s.len(),
{
    if s.len() > 0 {
        lemma_find_nl_bounds(s.drop_first());
    }
}

/// The lines of `s`: split at each newline, each line without a trailing
/// carriage return, with no empty line after a final newline.
pub open spec fn split_lines(s: Seq<char>) -> Seq<Seq<char>>
    decreases s.len(),
    via split_lines_decreases
{
    if s.len() == 0 {
        Seq::empty()
    } else {
        match find_nl(s) {
            None => seq![strip_cr(s)],
            Some(i) => seq![strip_cr(s.subrange(0, i))] + split_lines(
                s.subrange(i + 1, s.len() as int),
            ),
        }
    }
}

#[via_fn]
proof fn split_lines_decreases(s: Seq<char>) {
    lemma_find_nl_bounds(s);
}

proof fn lemma_find_sep_at(s: Seq<char>, i: int)
    requires
        0 <= i,
        i + 2 <= s.len(),
        s[i] == ':',
        s[i + 1] == ' ',
        forall|j: int| 0 <= j < i ==> !(#[trigger] s[j] == ':' && s[j + 1] == ' '),
    ensures
        find_sep(s) == Some(i),
    decreases s.len(),
{
    if i > 0 {
        lemma_find_sep_at(s.drop_first(), i - 1);
    }
}

proof fn lemma_find_sep_none(s: Seq<char>)
    requires
        forall|j: int| 0 <= j && j + 2 <= s.len() ==> !(#[trigger] s[j] == ':' && s[j + 1] == ' '),
    ensures
        find_sep(s) is None,
    decreases s.len(),
{
    if s.len() >= 2 {
        lemma_find_sep_none(s.drop_first());
    }
}

proof fn lemma_find_nl_at(s: Seq<char>, i: int)
    requires
        0 <= i < s.len(),
        s[i] == '\n',
        forall|j: int| 0 <= j < i ==> s[j] != '\n',
    ensures
        find_nl(s) == Some(i),
    decreases s.len(),
{
    if i > 0 {
        lemma_find_nl_at(s.drop_first(), i - 1);
    }
}

proof fn lemma_find_nl_none(s: Seq<char>)
    requires
        forall|j: int| 0 <= j < s.len() ==> s[j] != '\n',
    ensures
        find_nl(s) is None,
    decreases s.len(),
{
    if s.len() > 0 {
        lemma_find_nl_none(s.drop_first());
    }
}

/// Splits `s` at the first `": "`, handing back the text before and after it.
pub fn split_once_sep<'a>(s: &'a str) -> (r: Option<(&'a str, &'a str)>)
    ensures
        r matches Some(p) ==> split_sep(s@) == Some((p.0@, p.1@)),
        r is None ==> split_sep(s@) is None,
{
    let n = s.unicode_len();
    if n < 2 {
        proof {
            lemma_find_sep_none(s@);
        }
        return None;
    }
    let mut i: usize = 0;
    while i <= n - 2
        invariant
            n == s@.len(),
            2 <= n,
            0 <= i <= n - 1,
            forall|j: int| 0 <= j < i ==> !(#[trigger] s@[j] == ':' && s@[j + 1] == ' '),
        decreases n - i,
    {
        if s.get_char(i) == ':' && s.get_char(i + 1) == ' ' {
            proof {
                lemma_find_sep_at(s@, i as int);
            }
            return Some((s.substring_char(0, i), s.substring_char(i + 2, n)));
        }
        i += 1;
    }
    proof {
        lemma_find_sep_none(s@);
    }
    None
}

/// ASCII lowercasing of one character.
fn lower_char_exec(c: char) -> (r: char)
    ensures
        r == lower_char(c),
{
    if 'A' <= c && c <= 'Z' {
        (((c as u8) + 32) as char)
    } else {
        c
    }
}

/// Whether `s`, ASCII-lowercased, equals `t`.
pub fn lower_eq(s: &str, t: &str) -> (r: bool)
    ensures
        r == (lower(s@) == t@),
{
    let ns = s.unicode_len();
    let nt = t.unicode_len();
    if ns != nt {
        proof {
            assert(lower(s@).len() == s@.len());
        }
        return false;
    }
    let mut i: usize = 0;
    while i < ns
        invariant
            ns == s@.len() == t@.len(),
            0 <= i <= ns,
            forall|j: int| 0 <= j < i ==> lower(s@)[j] == t@[j],
        decreases ns - i,
    {
        let c = lower_char_exec(s.get_char(i));
        if c != t.get_char(i) {
            proof {
                assert(lower(s@)[i as int] != t@[i as int]);
            }
            return false;
        }
        i += 1;
    }
    proof {
        assert(lower(s@) =~= t@);
    }
    true
}

/// Whether the line holds whitespace alone.
pub fn blank_line(s: &str) -> (r: bool)
    ensures
        r == is_blank(s@),
{
    let n = s.unicode_len();
    let mut i: usize = 0;
    while i < n
        invariant
            n == s@.len(),
            0 <= i <= n,
            forall|j: int| 0 <= j < i ==> is_space(#[trigger] s@[j]),
        decreases n - i,
    {
        let c = s.get_char(i);
        if !(c == ' ' || c == '\t' || c == '\n' || c == '\r' || c == '\u{b}' || c == '\u{c}') {
            return false;
        }
        i += 1;
    }
    true
}

/// The view of a vector of lines.
pub open spec fn lines_view(v: Seq<String>) -> Seq<Seq<char>> {
    v.map_values(|l: String| l@)
}

/// Splits a batch into lines, as `split_lines` describes.
pub fn split_into_lines(s: &str) -> (r: Vec<String>)
    ensures
        lines_view(r@) == split_lines(s@),
{
    let mut out: Vec<String> = Vec::new();
    let mut rest: &str = s;
    loop
        invariant
            lines_view(out@) + split_lines(rest@) =~= split_lines(s@),
        decreases rest@.len(),
    {
        let n = rest.unicode_len();
        if n == 0 {
            proof {
                assert(lines_view(out@) =~= lines_view(out@) + split_lines(rest@));
            }
            return out;
        }
        let mut i: usize = 0;
        let mut nl: Option<usize> = None;
        while i < n && nl.is_none()
            invariant
                n == rest@.len(),
                0 <= i <= n,
                match nl {
                    Some(p) => p < n && rest@[p as int] == '\n' && (forall|j: int|
                        0 <= j < p ==> rest@[j] != '\n') && i == p + 1,
                    None => forall|j: int| 0 <= j < i ==> rest@[j] != '\n',
                },
            decreases n - i,
        {
            if rest.get_char(i) == '\n' {
                nl = Some(i);
            }
            i += 1;
        }
        match nl {
            Some(p) => {
                proof {
                    lemma_find_nl_at(rest@, p as int);
                }
                let end = if p > 0 && rest.get_char(p - 1) == '\r' {
                    p - 1
                } else {
                    p
                };
                let line = rest.substring_char(0, end);
                proof {
                    assert(line@ =~= strip_cr(rest@.subrange(0, p as int)));
                }
                let ghost out0 = out@;
                let ghost prev = rest@;
                out.push(String::from_str(line));
                rest = rest.substring_char(p + 1, n);
                proof {
                    assert(lines_view(out@) =~= lines_view(out0).push(
                        strip_cr(prev.subrange(0, p as int)),
                    ));
                    assert(split_lines(prev) == seq![strip_cr(prev.subrange(0, p as int))]
                        + split_lines(rest@));
                    assert(lines_view(out@) + split_lines(rest@) =~= lines_view(out0)
                        + split_lines(prev));
                }
            },
            None => {
                proof {
                    lemma_find_nl_none(rest@);
                }
                let end = if rest.get_char(n - 1) == '\r' {
                    n - 1
                } else {
                    n
                };
                let line = rest.substring_char(0, end);
                proof {
                    assert(line@ =~= strip_cr(rest@));
                }
                let ghost out0 = out@;
                out.push(String::from_str(line));
                proof {
                    assert(split_lines(rest@) == seq![strip_cr(rest@)]);
                    assert(lines_view(out@) =~= lines_view(out0).push(strip_cr(rest@)));
                    assert(lines_view(out@) =~= lines_view(out0) + split_lines(rest@));
                }
                return out;
            },
        }
    }
}

} // verus!
