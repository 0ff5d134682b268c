//! Text comparisons used by the matcher and the command line.

use vstd::prelude::*;
use vstd::std_specs::iter::IteratorSpec;

verus! {

/// Tells whether `text` begins with `prefix`, character for character.
///
/// Nothing is normalised: case, scheme and trailing slashes all count.
pub fn starts_with(text: &str, prefix: &str) -> (found: bool)
    ensures
        found == prefix@.is_prefix_of(text@),
{
    let mut rest = text.chars();
    let mut wanted = prefix.chars();
    let ghost mut seen: int = 0;
    loop
        invariant
            rest.obeys_prophetic_iter_laws(),
            wanted.obeys_prophetic_iter_laws(),
            0 <= seen <= prefix@.len(),
            seen <= text@.len(),
            rest.remaining() == text@.skip(seen),
            wanted.remaining() == prefix@.skip(seen),
            prefix@.take(seen) == text@.take(seen),
        decreases prefix@.len() - seen,
    {
        match wanted.next() {
            None => {
                assert(prefix@.take(seen) == prefix@);
                return true;
            },
            Some(expected) => {
                match rest.next() {
                    None => {
                        return false;
                    },
                    Some(actual) => {
                        if actual != expected {
                            assert(prefix@[seen] != text@[seen]);
                            return false;
                        }
                        proof {
                            assert(prefix@.take(seen + 1) == prefix@.take(seen).push(prefix@[seen]));
                            assert(text@.take(seen + 1) == text@.take(seen).push(text@[seen]));
                            assert(prefix@.skip(seen).drop_first() == prefix@.skip(seen + 1));
                            assert(text@.skip(seen).drop_first() == text@.skip(seen + 1));
                            seen = seen + 1;
                        }
                    },
                }
            },
        }
    }
}

/// Tells whether two texts are the same, character for character.
pub fn same(left: &str, right: &str) -> (equal: bool)
    ensures
        equal == (left@ == right@),
{
    let mut ours = left.chars();
    let mut theirs = right.chars();
    let ghost mut seen: int = 0;
    loop
        invariant
            ours.obeys_prophetic_iter_laws(),
            theirs.obeys_prophetic_iter_laws(),
            0 <= seen <= left@.len(),
            seen <= right@.len(),
            ours.remaining() == left@.skip(seen),
            theirs.remaining() == right@.skip(seen),
            left@.take(seen) == right@.take(seen),
        decreases left@.len() - seen,
    {
        match ours.next() {
            None => {
                let extra = theirs.next();
                assert(left@.take(seen) == left@);
                assert(extra is None ==> right@.take(seen) == right@);
                return extra.is_none();
            },
            Some(mine) => {
                match theirs.next() {
                    None => {
                        return false;
                    },
                    Some(other) => {
                        if mine != other {
                            assert(left@[seen] != right@[seen]);
                            return false;
                        }
                        proof {
                            assert(left@.take(seen + 1) == left@.take(seen).push(left@[seen]));
                            assert(right@.take(seen + 1) == right@.take(seen).push(right@[seen]));
                            assert(left@.skip(seen).drop_first() == left@.skip(seen + 1));
                            assert(right@.skip(seen).drop_first() == right@.skip(seen + 1));
                            seen = seen + 1;
                        }
                    },
                }
            },
        }
    }
}

} // verus!
