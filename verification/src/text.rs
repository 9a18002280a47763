//! Small helpers on strings.
use vstd::prelude::*;
use vstd::std_specs::iter::IteratorSpec;
use vstd::string::StringExecFns;

verus! {

/// The three texts, one after the other.
pub fn joined(before: &str, middle: &str, after: &str) -> (s: String)
    ensures
        s@ == before@ + middle@ + after@,
{
    before.to_owned().concat(middle).concat(after)
}

/// Whether two texts are the same, character by character.
pub fn str_eq(a: &str, b: &str) -> (r: bool)
    ensures
        r == (a@ == b@),
{
    let mut left = a.chars();
    let mut right = b.chars();
    let ghost mut n: int = 0;
    assert(a@.skip(0) =~= a@ && b@.skip(0) =~= b@);
    loop
        invariant
            0 <= n <= a@.len(),
            n <= b@.len(),
            left.remaining() == a@.skip(n),
            right.remaining() == b@.skip(n),
            forall|i: int| 0 <= i < n ==> a@[i] == b@[i],
        decreases a@.len() - n,
    {
        let x = left.next();
        let y = right.next();
        match (x, y) {
            (Some(x), Some(y)) => {
                assert(a@.skip(n)[0] == a@[n] && b@.skip(n)[0] == b@[n]);
                if x != y {
                    return false;
                }
                assert(a@.skip(n).drop_first() =~= a@.skip(n + 1));
                assert(b@.skip(n).drop_first() =~= b@.skip(n + 1));
                proof {
                    n = n + 1;
                }
            },
            (None, None) => {
                assert(a@ =~= b@);
                return true;
            },
            _ => {
                return false;
            },
        }
    }
}

} // verus!
