//! Toolchain identification parsing: a banner of the shape
//! `name version (hash yyyy-mm-dd)` is re-emitted in the canonical
//! `yyyymmdd-name-hash` form used to tag builds.

use vstd::prelude::*;

verus! {

/// A character a commit hash may hold: a letter, a digit or an underscore.
pub open spec fn is_word_char(c: char) -> bool {
    ('a' <= c && c <= 'z') || ('A' <= c && c <= 'Z') || ('0' <= c && c <= '9') || c == '_'
}

/// A character a version token may hold.
pub open spec fn is_version_char(c: char) -> bool {
    is_word_char(c) || c == '-' || c == '.'
}

/// A decimal digit.
pub open spec fn is_digit(c: char) -> bool {
    '0' <= c && c <= '9'
}

/// Every character of `s` in `[i, j)` is a version character.
pub open spec fn all_version_chars(s: Seq<char>, i: int, j: int) -> bool {
    forall|k: int| i <= k < j ==> is_version_char(#[trigger] s[k])
}

/// Every character of `s` in `[i, j)` is a word character.
pub open spec fn all_word_chars(s: Seq<char>, i: int, j: int) -> bool {
    forall|k: int| i <= k < j ==> is_word_char(#[trigger] s[k])
}

/// Every character of `s` in `[i, j)` is a digit.
pub open spec fn all_digits(s: Seq<char>, i: int, j: int) -> bool {
    forall|k: int| i <= k < j ==> is_digit(#[trigger] s[k])
}

/// The position of the first occurrence of `c` in `s` at or after `from`.
pub open spec fn first_at(s: Seq<char>, c: char, from: int) -> Option<int>
    decreases s.len() - from,
{
    if from < 0 || from >= s.len() {
        None
    } else if s[from] == c {
        Some(from)
    } else {
        first_at(s, c, from + 1)
    }
}

/// What a `first_at` answer means position by position.
pub proof fn lemma_first_at(s: Seq<char>, c: char, from: int)
    requires
        0 <= from <= s.len(),
    ensures
        match first_at(s, c, from) {
            Some(j) => from <= j < s.len() && s[j] == c && (forall|k: int|
                from <= k < j ==> s[k] != c),
            None => forall|k: int| from <= k < s.len() ==> s[k] != c,
        },
    decreases s.len() - from,
{
    if from < s.len() && s[from] != c {
        lemma_first_at(s, c, from + 1);
    }
}

/// The canonical tag of a toolchain banner, when the banner has the expected
/// shape: a non-empty name token without spaces, one space, a non-empty
/// version token, one space, and a parenthesized suffix of a non-empty
/// word-character hash, one space, and a digits-only `y-m-d` date closing the
/// string. The tag is the date's digit groups run together, then the name
/// token, then the hash, joined by dashes. Any other shape has no tag.
pub open spec fn spec_parse_rustc_version(s: Seq<char>) -> Option<Seq<char>> {
    let n = s.len() as int;
    match first_at(s, ' ', 0) {
        None => None,
        Some(i1) => if i1 == 0 {
            None
        } else {
            match first_at(s, ' ', i1 + 1) {
                None => None,
                Some(i2) => if !(i2 > i1 + 1 && all_version_chars(s, i1 + 1, i2)) {
                    None
                } else if !(i2 + 1 < n && s[i2 + 1] == '(') {
                    None
                } else {
                    match first_at(s, ' ', i2 + 2) {
                        None => None,
                        Some(i3) => if !(i3 > i2 + 2 && all_word_chars(s, i2 + 2, i3)) {
                            None
                        } else {
                            match first_at(s, '-', i3 + 1) {
                                None => None,
                                Some(h1) => match first_at(s, '-', h1 + 1) {
                                    None => None,
                                    Some(h2) => if h1 > i3 + 1 && h2 > h1 + 1 && h2 + 1 < n - 1
                                        && s[n - 1] == ')'
                                        && all_digits(s, i3 + 1, h1) && all_digits(s, h1 + 1, h2)
                                        && all_digits(s, h2 + 1, n - 1) {
                                        Some(
                                            s.subrange(i3 + 1, h1) + s.subrange(h1 + 1, h2)
                                                + s.subrange(h2 + 1, n - 1) + seq!['-']
                                                + s.subrange(0, i1) + seq!['-'] + s.subrange(
                                                i2 + 2,
                                                i3,
                                            ),
                                        )
                                    } else {
                                        None
                                    },
                                },
                            }
                        },
                    }
                },
            }
        },
    }
}

/// A toolchain banner that does not have the expected shape.
#[derive(Debug, PartialEq, Eq, Structural)]
pub struct VersionParseError;

/// The first occurrence of `c` in `s` at or after `start`, exactly
/// [`first_at`].
fn find_char(s: &str, n: usize, c: char, start: usize) -> (r: Option<usize>)
    requires
        n == s@.len(),
        start <= n,
    ensures
        match r {
            Some(j) => start <= j < n && first_at(s@, c, start as int) == Some(j as int),
            None => first_at(s@, c, start as int) is None,
        },
{
    let mut i: usize = start;
    while i < n
        invariant
            start <= i <= n,
            n == s@.len(),
            first_at(s@, c, start as int) == first_at(s@, c, i as int),
        decreases n - i,
    {
        if s.get_char(i) == c {
            return Some(i);
        }
        i = i + 1;
    }
    None
}

/// Whether every character of `s` in `[i, j)` is a digit.
fn range_is_digits(s: &str, n: usize, i: usize, j: usize) -> (r: bool)
    requires
        n == s@.len(),
        i <= j <= n,
    ensures
        r == all_digits(s@, i as int, j as int),
{
    let mut k: usize = i;
    while k < j
        invariant
            i <= k <= j <= n,
            n == s@.len(),
            all_digits(s@, i as int, k as int),
        decreases j - k,
    {
        let c = s.get_char(k);
        if !('0' <= c && c <= '9') {
            return false;
        }
        k = k + 1;
    }
    true
}

/// Whether every character of `s` in `[i, j)` is a word character.
fn range_is_word_chars(s: &str, n: usize, i: usize, j: usize) -> (r: bool)
    requires
        n == s@.len(),
        i <= j <= n,
    ensures
        r == all_word_chars(s@, i as int, j as int),
{
    let mut k: usize = i;
    while k < j
        invariant
            i <= k <= j <= n,
            n == s@.len(),
            all_word_chars(s@, i as int, k as int),
        decreases j - k,
    {
        let c = s.get_char(k);
        if !(('a' <= c && c <= 'z') || ('A' <= c && c <= 'Z') || ('0' <= c && c <= '9') || c
            == '_') {
            return false;
        }
        k = k + 1;
    }
    true
}

/// Whether every character of `s` in `[i, j)` is a version character.
fn range_is_version_chars(s: &str, n: usize, i: usize, j: usize) -> (r: bool)
    requires
        n == s@.len(),
        i <= j <= n,
    ensures
        r == all_version_chars(s@, i as int, j as int),
{
    let mut k: usize = i;
    while k < j
        invariant
            i <= k <= j <= n,
            n == s@.len(),
            all_version_chars(s@, i as int, k as int),
        decreases j - k,
    {
        let c = s.get_char(k);
        if !(('a' <= c && c <= 'z') || ('A' <= c && c <= 'Z') || ('0' <= c && c <= '9') || c == '_'
            || c == '-' || c == '.') {
            return false;
        }
        k = k + 1;
    }
    true
}

/// Extracts the canonical `yyyymmdd-name-hash` tag from a toolchain
/// banner, exactly [`spec_parse_rustc_version`]; a banner of any other shape
/// is a [`VersionParseError`].
pub fn parse_rustc_version(version: &str) -> (r: Result<String, VersionParseError>)
    ensures
        match r {
            Ok(v) => spec_parse_rustc_version(version@) == Some(v@),
            Err(_) => spec_parse_rustc_version(version@) is None,
        },
{
    let s = version;
    let n = s.unicode_len();
    let i1 = match find_char(s, n, ' ', 0) {
        Some(i1) => i1,
        None => {
            return Err(VersionParseError);
        },
    };
    proof {
        lemma_first_at(s@, ' ', 0);
    }
    if i1 == 0 {
        return Err(VersionParseError);
    }
    let i2 = match find_char(s, n, ' ', i1 + 1) {
        Some(i2) => i2,
        None => {
            return Err(VersionParseError);
        },
    };
    proof {
        lemma_first_at(s@, ' ', i1 as int + 1);
    }
    if !(i2 > i1 + 1 && range_is_version_chars(s, n, i1 + 1, i2)) {
        return Err(VersionParseError);
    }
    if !(i2 + 1 < n && s.get_char(i2 + 1) == '(') {
        return Err(VersionParseError);
    }
    let i3 = match find_char(s, n, ' ', i2 + 2) {
        Some(i3) => i3,
        None => {
            return Err(VersionParseError);
        },
    };
    proof {
        lemma_first_at(s@, ' ', i2 as int + 2);
    }
    if !(i3 > i2 + 2 && range_is_word_chars(s, n, i2 + 2, i3)) {
        return Err(VersionParseError);
    }
    let h1 = match find_char(s, n, '-', i3 + 1) {
        Some(h1) => h1,
        None => {
            return Err(VersionParseError);
        },
    };
    proof {
        lemma_first_at(s@, '-', i3 as int + 1);
    }
    let h2 = match find_char(s, n, '-', h1 + 1) {
        Some(h2) => h2,
        None => {
            return Err(VersionParseError);
        },
    };
    proof {
        lemma_first_at(s@, '-', h1 as int + 1);
    }
    if !(h1 > i3 + 1 && h2 > h1 + 1 && h2 < n - 2 && s.get_char(n - 1) == ')' && range_is_digits(
        s,
        n,
        i3 + 1,
        h1,
    )
        && range_is_digits(s, n, h1 + 1, h2) && range_is_digits(s, n, h2 + 1, n - 1)) {
        return Err(VersionParseError);
    }
    let mut out = String::new();
    out.append(s.substring_char(i3 + 1, h1));
    out.append(s.substring_char(h1 + 1, h2));
    out.append(s.substring_char(h2 + 1, n - 1));
    out.append("-");
    out.append(s.substring_char(0, i1));
    out.append("-");
    out.append(s.substring_char(i2 + 2, i3));
    proof {
        reveal_strlit("-");
        assert(out@ =~= s@.subrange(i3 as int + 1, h1 as int) + s@.subrange(
            h1 as int + 1,
            h2 as int,
        ) + s@.subrange(h2 as int + 1, n as int - 1) + seq!['-'] + s@.subrange(0, i1 as int)
            + seq!['-'] + s@.subrange(i2 as int + 2, i3 as int));
    }
    Ok(out)
}

} // verus!
