//! The order that sorting goes by: `Ord` as far as Verus knows what it
//! does.

use core::cmp::Ordering;
use vstd::laws_cmp::{
    obeys_cmp, obeys_cmp_ord, obeys_cmp_partial_ord, obeys_partial_cmp_spec_properties,
};
use vstd::laws_eq::obeys_eq_spec_properties;
use vstd::prelude::*;
use vstd::std_specs::cmp::{OrdSpec, PartialEqSpec, PartialOrdSpec};

verus! {

/// Whether the comparisons of `T` are known to form a total order.
pub open spec fn lawful<T: Ord>() -> bool {
    obeys_cmp::<T>()
}

/// `a` comes strictly before `b`.
pub open spec fn less<T: Ord>(a: T, b: T) -> bool {
    a.partial_cmp_spec(&b) == Some(Ordering::Less)
}

/// `a` comes before `b` or ranks equal to it.
pub open spec fn at_most<T: Ord>(a: T, b: T) -> bool {
    a.partial_cmp_spec(&b) == Some(Ordering::Less) || a.partial_cmp_spec(&b) == Some(
        Ordering::Equal,
    )
}

/// The sequence ascends: no element comes strictly before an earlier one.
pub open spec fn sorted<T: Ord>(s: Seq<T>) -> bool {
    forall|i: int, j: int| 0 <= i < j < s.len() ==> at_most(s[i], s[j])
}

/// Of two elements one comes strictly before the other exactly when the
/// other is not at most the one.
pub proof fn lemma_less_or_at_most<T: Ord>(a: T, b: T)
    requires
        lawful::<T>(),
    ensures
        less(a, b) <==> !at_most(b, a),
        less(a, b) ==> at_most(a, b),
        at_most(a, a),
{
    reveal(obeys_cmp_ord);
    reveal(obeys_cmp_partial_ord);
    reveal(obeys_partial_cmp_spec_properties);
    reveal(obeys_eq_spec_properties);
    assert(a.partial_cmp_spec(&b) == Some(a.cmp_spec(&b)));
    assert(b.partial_cmp_spec(&a) == Some(b.cmp_spec(&a)));
    assert(a.partial_cmp_spec(&a) == Some(a.cmp_spec(&a)));
}

/// What is at most a second element, which is at most a third, is at most
/// the third.
pub proof fn lemma_at_most_transitive<T: Ord>(a: T, b: T, c: T)
    requires
        lawful::<T>(),
        at_most(a, b),
        at_most(b, c),
    ensures
        at_most(a, c),
{
    reveal(obeys_cmp_ord);
    reveal(obeys_cmp_partial_ord);
    reveal(obeys_partial_cmp_spec_properties);
    reveal(obeys_eq_spec_properties);
    assert(a.partial_cmp_spec(&c) == Some(a.cmp_spec(&c)));
    assert(c.partial_cmp_spec(&a) == Some(c.cmp_spec(&a)));
    assert(a.partial_cmp_spec(&b) == Some(a.cmp_spec(&b)));
    assert(b.partial_cmp_spec(&a) == Some(b.cmp_spec(&a)));
    assert(b.partial_cmp_spec(&c) == Some(b.cmp_spec(&c)));
    assert(c.partial_cmp_spec(&b) == Some(c.cmp_spec(&b)));
    if !at_most(a, c) {
        // Then c comes strictly before a.
        assert(c.partial_cmp_spec(&a) == Some(Ordering::Less));
        if a.partial_cmp_spec(&b) == Some(Ordering::Less) {
            // c < a < b, against b <= c
            assert(c.partial_cmp_spec(&b) == Some(Ordering::Less));
        } else {
            // a ranks equal to b
            assert(a.eq_spec(&b));
            if b.partial_cmp_spec(&c) == Some(Ordering::Less) {
                // b < c < a, against a equal to b
                assert(b.partial_cmp_spec(&a) == Some(Ordering::Less));
            } else {
                assert(b.eq_spec(&c));
                assert(a.eq_spec(&c));
            }
        }
    }
}

/// Whether `a` comes strictly after `b`.
pub fn is_greater<T: Ord>(a: &T, b: &T) -> (r: bool)
    ensures
        lawful::<T>() ==> r == less(*b, *a),
{
    proof {
        reveal(obeys_cmp_partial_ord);
        reveal(obeys_partial_cmp_spec_properties);
    }
    *a > *b
}

/// Whether `a` comes strictly before `b`.
pub fn is_less<T: Ord>(a: &T, b: &T) -> (r: bool)
    ensures
        lawful::<T>() ==> r == less(*a, *b),
{
    proof {
        reveal(obeys_cmp_partial_ord);
    }
    *a < *b
}

/// Whether `a` comes before `b` or ranks equal to it.
pub fn is_at_most<T: Ord>(a: &T, b: &T) -> (r: bool)
    ensures
        lawful::<T>() ==> r == at_most(*a, *b),
{
    proof {
        reveal(obeys_cmp_partial_ord);
    }
    *a <= *b
}

} // verus!
