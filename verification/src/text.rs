//! Text comparison that ignores ASCII case.

use vstd::prelude::*;

verus! {

/// The ASCII lower-case form of `c`: `A` to `Z` are mapped onto `a` to `z`, every
/// other character is mapped onto itself.
pub open spec fn ascii_lower_char(c: char) -> char {
    if 'A' <= c && c <= 'Z' {
        ((c as u8) + 32) as char
    } else {
        c
    }
}

/// The ASCII lower-case form of `s`, character by character.
pub open spec fn ascii_lower(s: Seq<char>) -> Seq<char> {
    Seq::new(s.len(), |i: int| ascii_lower_char(s[i]))
}

/// Computes [`ascii_lower_char`].
pub fn to_ascii_lower(c: char) -> (r: char)
    ensures
        r == ascii_lower_char(c),
{
    if 'A' <= c && c <= 'Z' {
        ((c as u8) + 32u8) as char
    } else {
        c
    }
}

/// Whether `a` and `b` hold the same characters.
pub fn same_text(a: &str, b: &str) -> (r: bool)
    ensures
        r == (a@ == b@),
{
    let n: usize = a.unicode_len();
    if n != b.unicode_len() {
        return false;
    }
    let mut i: usize = 0;
    while i < n
        invariant
            i <= n,
            n == a@.len(),
            n == b@.len(),
            forall|j: int| 0 <= j < i ==> a@[j] == b@[j],
        decreases n - i,
    {
        if a.get_char(i) != b.get_char(i) {
            return false;
        }
        i = i + 1;
    }
    assert(a@ =~= b@);
    true
}

/// Whether the ASCII lower-case form of `text` is `keyword`.
pub fn lowers_to(text: &str, keyword: &str) -> (r: bool)
    ensures
        r == (ascii_lower(text@) == keyword@),
{
    let n: usize = text.unicode_len();
    if n != keyword.unicode_len() {
        assert(ascii_lower(text@).len() != keyword@.len());
        return false;
    }
    let mut i: usize = 0;
    while i < n
        invariant
            i <= n,
            n == text@.len(),
            n == keyword@.len(),
            forall|j: int| 0 <= j < i ==> ascii_lower_char(text@[j]) == keyword@[j],
        decreases n - i,
    {
        if to_ascii_lower(text.get_char(i)) != keyword.get_char(i) {
            assert(ascii_lower(text@)[i as int] != keyword@[i as int]);
            return false;
        }
        i = i + 1;
    }
    assert(ascii_lower(text@) =~= keyword@);
    true
}

} // verus!
