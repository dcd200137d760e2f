//! Claims of identities by complete types across a program.
use vstd::prelude::*;

use crate::symbol::Symbol;
use crate::types::{base_name, Base, Ty};

verus! {

/// The identity that the type claims to realize: the name under which a
/// complete type was declared. Placeholders, undeclared types and pointers
/// claim none.
pub open spec fn claim(t: Ty) -> Option<Seq<char>> {
    if t.wrappers@.len() > 0 {
        None
    } else {
        match t.base {
            Base::Complete(_) => base_name(t.base),
            Base::Incomplete(_) => None,
        }
    }
}

/// Two distinct complete types at `i` and `j` claim one identity.
pub open spec fn clashes(types: Seq<Ty>, i: int, j: int) -> bool {
    &&& 0 <= i < j < types.len()
    &&& claim(types[i]) is Some
    &&& claim(types[i]) == claim(types[j])
}

fn claim_of(t: &Ty) -> (r: Option<&Symbol>)
    ensures
        r is Some == claim(*t) is Some,
        r is Some ==> r->0@ == claim(*t)->0,
{
    if t.wrappers.len() > 0 {
        return None;
    }
    match &t.base {
        Base::Complete(c) => match &c.defines {
            Some(s) => Some(s),
            None => None,
        },
        Base::Incomplete(_) => None,
    }
}

/// Finds two declarations that claim one identity, which would make their
/// types interchangeable. Returns the first such pair `(i, j)`, `i < j`,
/// in the order of `j` then `i`, or `None` when every identity is claimed at
/// most once.
pub fn find_duplicate_claim(types: &Vec<Ty>) -> (r: Option<(usize, usize)>)
    ensures
        r is None <==> (forall|i: int, j: int| !clashes(types@, i, j)),
        r matches Some((i, j)) ==> clashes(types@, i as int, j as int)
            && (forall|a: int, b: int| clashes(types@, a, b) ==> j < b || (j == b && i <= a)),
{
    let n = types.len();
    let mut j: usize = 0;
    while j < n
        invariant
            n == types@.len(),
            j <= n,
            forall|a: int, b: int| b < j ==> !clashes(types@, a, b),
        decreases n - j,
    {
        match claim_of(&types[j]) {
            Some(name_j) => {
                let mut i: usize = 0;
                while i < j
                    invariant
                        n == types@.len(),
                        j < n,
                        i <= j,
                        claim(types@[j as int]) is Some,
                        name_j@ == claim(types@[j as int])->0,
                        forall|a: int, b: int| b < j ==> !clashes(types@, a, b),
                        forall|a: int| 0 <= a < i ==> !clashes(types@, a, j as int),
                    decreases j - i,
                {
                    match claim_of(&types[i]) {
                        Some(name_i) => {
                            if name_i.same_as(name_j) {
                                assert(clashes(types@, i as int, j as int));
                                return Some((i, j));
                            }
                        },
                        None => {},
                    }
                    i = i + 1;
                }
            },
            None => {},
        }
        j = j + 1;
    }
    None
}

} // verus!
