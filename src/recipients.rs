//! Who receives the report: the addresses given, or else the email address
//! that the version-control configuration holds.
use vstd::prelude::*;
use crate::params::opt_string_view;

verus! {

/// Whether `c` has the Unicode `White_Space` property.
pub open spec fn is_white_space(c: char) -> bool {
    ('\u{9}' <= c <= '\u{d}') || c == ' ' || c == '\u{85}' || c == '\u{a0}' || c == '\u{1680}'
        || ('\u{2000}' <= c <= '\u{200a}') || c == '\u{2028}' || c == '\u{2029}' || c
        == '\u{202f}' || c == '\u{205f}' || c == '\u{3000}'
}

/// `s` without its leading white space.
pub open spec fn trim_start(s: Seq<char>) -> Seq<char>
    decreases s.len(),
{
    if s.len() > 0 && is_white_space(s[0]) {
        trim_start(s.drop_first())
    } else {
        s
    }
}

/// `s` without its trailing white space.
pub open spec fn trim_end(s: Seq<char>) -> Seq<char>
    decreases s.len(),
{
    if s.len() > 0 && is_white_space(s.last()) {
        trim_end(s.drop_last())
    } else {
        s
    }
}

/// `s` without its leading and trailing white space.
pub open spec fn trimmed(s: Seq<char>) -> Seq<char> {
    trim_end(trim_start(s))
}

/// The recipients of a launch: those given, else the trimmed output of
/// the email lookup, else none.
pub open spec fn resolved_recipients(given: Option<Seq<char>>, looked_up: Option<Seq<char>>) -> Seq<
    char,
> {
    match given {
        Some(g) => g,
        None => match looked_up {
            Some(l) => trimmed(l),
            None => Seq::empty(),
        },
    }
}

fn is_white_space_char(c: char) -> (r: bool)
    ensures
        r == is_white_space(c),
{
    ('\u{9}' <= c && c <= '\u{d}') || c == ' ' || c == '\u{85}' || c == '\u{a0}' || c
        == '\u{1680}' || ('\u{2000}' <= c && c <= '\u{200a}') || c == '\u{2028}' || c
        == '\u{2029}' || c == '\u{202f}' || c == '\u{205f}' || c == '\u{3000}'
}

/// `s` without its leading and trailing white space.
pub fn trim_text(s: &str) -> (r: String)
    ensures
        r@ == trimmed(s@),
{
    let n = s.unicode_len();
    let mut i: usize = 0;
    assert(s@.subrange(0, n as int) =~= s@);
    while i < n && is_white_space_char(s.get_char(i))
        invariant
            n == s@.len(),
            i <= n,
            trim_start(s@) == trim_start(s@.subrange(i as int, n as int)),
        decreases n - i,
    {
        proof {
            let sub = s@.subrange(i as int, n as int);
            assert(sub.drop_first() =~= s@.subrange(i + 1, n as int));
        }
        i += 1;
    }
    assert(trim_start(s@) == s@.subrange(i as int, n as int));
    let mut j: usize = n;
    while j > i && is_white_space_char(s.get_char(j - 1))
        invariant
            n == s@.len(),
            i <= j <= n,
            trim_start(s@) == s@.subrange(i as int, n as int),
            trim_end(s@.subrange(i as int, n as int)) == trim_end(
                s@.subrange(i as int, j as int),
            ),
        decreases j,
    {
        proof {
            let sub = s@.subrange(i as int, j as int);
            assert(sub.drop_last() =~= s@.subrange(i as int, j - 1));
        }
        j -= 1;
    }
    String::from_str(s.substring_char(i, j))
}

/// The recipients of a launch: those given where any were, else the
/// trimmed output of the email lookup, else the empty string.
pub fn resolve_recipients(given: Option<String>, looked_up: Option<String>) -> (r: String)
    ensures
        r@ == resolved_recipients(opt_string_view(given), opt_string_view(looked_up)),
{
    match given {
        Some(g) => g,
        None => match looked_up {
            Some(l) => trim_text(l.as_str()),
            None => String::new(),
        },
    }
}

} // verus!
