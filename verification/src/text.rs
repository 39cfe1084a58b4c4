use vstd::prelude::*;
use vstd::string::StrSliceExecFns;
use vstd::string::StringExecFns;

verus! {

/// The lower-case form of an ASCII capital letter; every other character is
/// left as it is.
pub open spec fn lower(c: char) -> char {
    if 'A' <= c && c <= 'Z' {
        ((c as u8) + 32) as u8 as char
    } else {
        c
    }
}

/// A text with its ASCII capital letters lowered, position by position.
pub open spec fn folded(s: Seq<char>) -> Seq<char> {
    Seq::new(s.len(), |i: int| lower(s[i]))
}

/// Whether two texts are the same once ASCII letter case is ignored.
pub open spec fn same_ignoring_case(a: Seq<char>, b: Seq<char>) -> bool {
    folded(a) == folded(b)
}

/// Lowers one character.
pub fn lower_char(c: char) -> (r: char)
    ensures
        r == lower(c),
{
    if 'A' <= c && c <= 'Z' {
        let b: u8 = c as u8;
        (b + 32) as char
    } else {
        c
    }
}

/// Whether `s`, with its ASCII capitals lowered, reads as `lowered`.
pub fn folds_to(s: &str, lowered: &str) -> (r: bool)
    ensures
        r == (folded(s@) == lowered@),
{
    let n: usize = s.unicode_len();
    if n != lowered.unicode_len() {
        return false;
    }
    let mut i: usize = 0;
    while i < n
        invariant
            i <= n,
            n == s@.len(),
            n == lowered@.len(),
            forall|j: int| 0 <= j < i ==> lower(#[trigger] s@[j]) == lowered@[j],
        decreases n - i,
    {
        if lower_char(s.get_char(i)) != lowered.get_char(i) {
            assert(folded(s@)[i as int] != lowered@[i as int]);
            return false;
        }
        i += 1;
    }
    assert(folded(s@) =~= lowered@);
    true
}

/// Whether two texts hold the same characters.
pub fn same_text(a: &str, b: &str) -> (r: bool)
    ensures
        r == (a@ == b@),
{
    let x: String = String::from_str(a);
    let y: String = String::from_str(b);
    x == y
}

} // verus!
