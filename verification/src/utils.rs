use vstd::prelude::*;
use vstd::std_specs::cmp::PartialOrdSpec;
use core::cmp::Ordering;

verus! {

/// What `cmp_float` returns: the partial comparison of `a` and `b`, with
/// incomparable pairs (such as a floating-point NaN) forced to `Less` so that
/// every pair of values is ordered somehow.
pub open spec fn cmp_float_spec<F: PartialOrd>(a: F, b: F) -> Ordering {
    match a.partial_cmp_spec(&b) {
        None => Ordering::Less,
        Some(o) => o,
    }
}

/// Turns the partial order of `F` into a usable total comparison by calling
/// incomparable pairs `Less`. The scene's intersection search compares
/// candidate hit distances with this.
pub fn cmp_float<F: PartialOrd>(f1: F, f2: F) -> (r: Ordering)
    ensures
        F::obeys_partial_cmp_spec() ==> r == cmp_float_spec(f1, f2),
{
    match f1.partial_cmp(&f2) {
        None => Ordering::Less,
        Some(ord) => ord,
    }
}

} // verus!
