//! Character-level helpers: equality and prefixes of strings, and the
//! mangling that build environments apply to feature names.

use vstd::prelude::*;
use vstd::string::*;

verus! {

/// The ASCII upper-case form of a character; other characters stay as they are.
pub open spec fn upper(c: char) -> char {
    if 'a' <= c && c <= 'z' {
        ((c as u32) - 32) as char
    } else {
        c
    }
}

/// How one character of a feature name is surfaced to a build script.
pub open spec fn mangle_char(c: char) -> char {
    if c == '-' {
        '_'
    } else {
        upper(c)
    }
}

/// How a feature name is surfaced to a build script: upper-cased, with `-` turned into `_`.
pub open spec fn mangle(s: Seq<char>) -> Seq<char> {
    s.map_values(|c: char| mangle_char(c))
}

/// The ASCII upper-case form of `c`.
fn ascii_upper(c: char) -> (r: char)
    ensures
        r == upper(c),
{
    if 'a' <= c && c <= 'z' {
        ((c as u8) - 32) as char
    } else {
        c
    }
}

/// Relies on `String::push`: the character is appended at the end.
#[verifier::external_body]
fn push_char(s: &mut String, c: char)
    ensures
        final(s)@ == old(s)@.push(c),
{
    s.push(c)
}

/// The mangled form of a feature name.
pub fn mangle_name(name: &str) -> (r: String)
    ensures
        r@ == mangle(name@),
{
    let n = name.unicode_len();
    let mut out = String::new();
    let mut i: usize = 0;
    while i < n
        invariant
            n == name@.len(),
            i <= n,
            out@ == mangle(name@.subrange(0, i as int)),
        decreases n - i,
    {
        let c = name.get_char(i);
        let m = if c == '-' {
            '_'
        } else {
            ascii_upper(c)
        };
        push_char(&mut out, m);
        i = i + 1;
        assert(mangle(name@.subrange(0, i as int)) =~= mangle(name@.subrange(0, i - 1)).push(m));
    }
    assert(name@.subrange(0, n as int) =~= name@);
    out
}

/// Whether `s` begins with `p`, starting at character `start` of `s`.
pub fn has_at(s: &str, start: usize, p: &str) -> (r: bool)
    requires
        start <= s@.len(),
    ensures
        r == (start + p@.len() <= s@.len() && s@.subrange(start as int, start + p@.len()) == p@),
{
    let n = s.unicode_len();
    let m = p.unicode_len();
    if m > n - start {
        return false;
    }
    let mut j: usize = 0;
    while j < m
        invariant
            n == s@.len(),
            m == p@.len(),
            start + m <= n,
            j <= m,
            forall|k: int| 0 <= k < j ==> s@[start + k] == p@[k],
        decreases m - j,
    {
        if s.get_char(start + j) != p.get_char(j) {
            assert(s@.subrange(start as int, start + m)[j as int] != p@[j as int]);
            return false;
        }
        j = j + 1;
    }
    assert(s@.subrange(start as int, start + m) =~= p@);
    true
}

/// Whether two strings hold the same characters.
pub fn same_text(a: &str, b: &str) -> (r: bool)
    ensures
        r == (a@ == b@),
{
    assert(a@.subrange(0, a@.len() as int) =~= a@);
    a.unicode_len() == b.unicode_len() && has_at(a, 0, b)
}

} // verus!
