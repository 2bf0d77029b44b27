//! ASCII case-insensitive keyword matching, the way CSS compares identifiers.

use vstd::prelude::*;

verus! {

/// The ASCII lowercase form of a character; every other character is unchanged.
pub open spec fn ascii_lower(c: char) -> char {
    if 'A' <= c && c <= 'Z' {
        ((c as u32) + 32) as char
    } else {
        c
    }
}

/// Two identifiers are equal ignoring ASCII case.
pub open spec fn ci_eq(a: Seq<char>, b: Seq<char>) -> bool {
    &&& a.len() == b.len()
    &&& forall|i: int| 0 <= i < a.len() ==> ascii_lower(#[trigger] a[i]) == ascii_lower(b[i])
}

/// Lowercases one ASCII letter.
pub fn to_ascii_lower(c: char) -> (r: char)
    ensures
        r == ascii_lower(c),
{
    if 'A' <= c && c <= 'Z' {
        ((c as u8) + 32) as char
    } else {
        c
    }
}

/// Whether the identifier `ident` is the keyword `keyword`, ignoring ASCII case.
pub fn matches_keyword(ident: &Vec<char>, keyword: &str) -> (b: bool)
    ensures
        b == ci_eq(ident@, keyword@),
{
    let n = keyword.unicode_len();
    if ident.len() != n {
        return false;
    }
    let mut i: usize = 0;
    while i < n
        invariant
            n == keyword@.len(),
            ident@.len() == n,
            i <= n,
            forall|j: int| 0 <= j < i ==> ascii_lower(#[trigger] ident@[j]) == ascii_lower(keyword@[j]),
        decreases n - i,
    {
        if to_ascii_lower(ident[i]) != to_ascii_lower(keyword.get_char(i)) {
            return false;
        }
        i = i + 1;
    }
    true
}

/// The characters of a string, in order.
pub fn chars_of(s: &str) -> (v: Vec<char>)
    ensures
        v@ == s@,
{
    let n = s.unicode_len();
    let mut v: Vec<char> = Vec::new();
    let mut i: usize = 0;
    while i < n
        invariant
            n == s@.len(),
            i <= n,
            v@ == s@.subrange(0, i as int),
        decreases n - i,
    {
        v.push(s.get_char(i));
        i = i + 1;
        assert(v@ =~= s@.subrange(0, i as int));
    }
    assert(s@.subrange(0, n as int) =~= s@);
    v
}

/// A copy of a sequence of characters.
pub fn copy_chars(s: &Vec<char>) -> (v: Vec<char>)
    ensures
        v@ == s@,
{
    let mut v: Vec<char> = Vec::new();
    let mut i: usize = 0;
    while i < s.len()
        invariant
            i <= s.len(),
            v@ == s@.subrange(0, i as int),
        decreases s.len() - i,
    {
        v.push(s[i]);
        i = i + 1;
        assert(v@ =~= s@.subrange(0, i as int));
    }
    assert(s@.subrange(0, s@.len() as int) =~= s@);
    v
}

} // verus!
