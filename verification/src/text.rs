//! Character-level helpers on text: ASCII case folding.
use vstd::prelude::*;

verus! {

/// The upper-case form of an ASCII letter; every other character is itself.
pub open spec fn ascii_upper(c: char) -> char {
    if 'a' <= c && c <= 'z' {
        ((c as u8 - 32) as u8) as char
    } else {
        c
    }
}

/// A text with every ASCII lower-case letter replaced by its upper-case form.
pub open spec fn folded(s: Seq<char>) -> Seq<char> {
    s.map_values(|c: char| ascii_upper(c))
}

/// Upper-cases one ASCII letter and leaves any other character alone.
pub fn to_ascii_upper(c: char) -> (r: char)
    ensures
        r == ascii_upper(c),
{
    if 'a' <= c && c <= 'z' {
        let b: u8 = c as u8;
        (b - 32) as char
    } else {
        c
    }
}

/// Whether two texts are equal once ASCII letters are folded to upper case.
pub fn equal_ignoring_ascii_case(a: &str, b: &str) -> (r: bool)
    ensures
        r == (folded(a@) == folded(b@)),
{
    let n: usize = a.unicode_len();
    let m: usize = b.unicode_len();
    if n != m {
        assert(folded(a@).len() != folded(b@).len());
        return false;
    }
    let mut i: usize = 0;
    while i < n
        invariant
            i <= n,
            n == a@.len(),
            n == b@.len(),
            forall|j: int| 0 <= j < i ==> ascii_upper(a@[j]) == ascii_upper(b@[j]),
        decreases n - i,
    {
        let ca: char = a.get_char(i);
        let cb: char = b.get_char(i);
        if to_ascii_upper(ca) != to_ascii_upper(cb) {
            assert(folded(a@)[i as int] != folded(b@)[i as int]);
            return false;
        }
        i += 1;
    }
    assert(folded(a@) =~= folded(b@));
    true
}

/// Folding is idempotent: a folded text folds to itself.
pub proof fn folded_is_stable(s: Seq<char>)
    ensures
        folded(folded(s)) == folded(s),
{
    assert forall|i: int| 0 <= i < s.len() implies ascii_upper(ascii_upper(s[i])) == ascii_upper(
        s[i],
    ) by {
        let c = s[i];
        if 'a' <= c && c <= 'z' {
            assert(((c as u8 - 32) as u8) as char as int == c as int - 32);
        }
    }
    assert(folded(folded(s)) =~= folded(s));
}

} // verus!
