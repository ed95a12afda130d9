use vstd::prelude::*;
use vstd::std_specs::cmp::PartialOrdSpec;
use vstd::laws_cmp::obeys_partial_cmp_spec_properties;
use core::cmp::Ordering;
use crate::utils::cmp_float;
use crate::utils::cmp_float_spec;

verus! {

/// The hypotheses under which the selection contracts below are exact:
/// the executable comparison of `K` agrees with its specification, that
/// specification behaves like an order (antisymmetric, transitive), and
/// every pair of values is comparable. Integer distances satisfy all
/// three; floating-point distances satisfy none that the verifier knows.
pub open spec fn well_ordered<K: PartialOrd>() -> bool {
    &&& K::obeys_partial_cmp_spec()
    &&& obeys_partial_cmp_spec_properties::<K>()
    &&& forall|a: K, b: K| #[trigger] a.partial_cmp_spec(&b) is Some
}

/// Whether a shadow ray's recorded hit lies strictly nearer than `limit`.
pub open spec fn strictly_within<K: PartialOrd>(hit: Option<K>, limit: K) -> bool {
    match hit {
        None => false,
        Some(d) => d.partial_cmp_spec(&limit) == Some(Ordering::Less),
    }
}

/// The selection at the heart of the scene's intersection query: among
/// the candidate hit distances of a ray cast, pick one that no other
/// candidate strictly undercuts. `None` only when there was no hit at
/// all; equidistant candidates are tied and either may be picked.
pub fn nearest<K: PartialOrd>(keys: &Vec<K>) -> (r: Option<usize>)
    ensures
        (r is Some) <==> keys@.len() > 0,
        r matches Some(i) ==> i < keys@.len(),
        well_ordered::<K>() ==> match r {
            None => true,
            Some(i) => forall|j: int|
                0 <= j < keys@.len() ==> #[trigger] cmp_float_spec(keys@[j], keys@[i as int])
                    != Ordering::Less,
        },
{
    if keys.len() == 0 {
        return None;
    }
    proof {
        if well_ordered::<K>() {
            reveal(obeys_partial_cmp_spec_properties);
            assert(keys@[0].partial_cmp_spec(&keys@[0]) is Some);
            assert(cmp_float_spec(keys@[0], keys@[0]) != Ordering::Less);
        }
    }
    let mut best: usize = 0;
    let mut i: usize = 1;
    while i < keys.len()
        invariant
            best < i,
            i <= keys@.len(),
            well_ordered::<K>() ==> forall|j: int|
                0 <= j < i ==> #[trigger] cmp_float_spec(keys@[j], keys@[best as int])
                    != Ordering::Less,
        decreases keys@.len() - i,
    {
        let ord = cmp_float(&keys[i], &keys[best]);
        match ord {
            Ordering::Less => {
                proof {
                    if well_ordered::<K>() {
                        reveal(obeys_partial_cmp_spec_properties);
                        assert forall|j: int| 0 <= j < i + 1 implies #[trigger] cmp_float_spec(
                            keys@[j],
                            keys@[i as int],
                        ) != Ordering::Less by {
                            if j < i {
                                assert(cmp_float_spec(keys@[j], keys@[best as int])
                                    != Ordering::Less);
                            }
                        }
                    }
                }
                best = i;
            },
            _ => {
                proof {
                    if well_ordered::<K>() {
                        assert(cmp_float_spec(keys@[i as int], keys@[best as int])
                            != Ordering::Less);
                    }
                }
            },
        }
        i = i + 1;
    }
    Some(best)
}

/// The scene's shadow test, decided from the recorded outcome of each
/// object's shadow-ray cast: true when any object's hit lies strictly
/// nearer than `max_length`, so the light sample is occluded.
pub fn occluded<K: PartialOrd>(hits: &Vec<Option<K>>, max_length: &K) -> (r: bool)
    ensures
        K::obeys_partial_cmp_spec() ==> (r <==> exists|j: int|
            0 <= j < hits@.len() && strictly_within(#[trigger] hits@[j], *max_length)),
{
    let mut j: usize = 0;
    while j < hits.len()
        invariant
            j <= hits@.len(),
            K::obeys_partial_cmp_spec() ==> forall|k: int|
                0 <= k < j ==> !strictly_within(#[trigger] hits@[k], *max_length),
        decreases hits@.len() - j,
    {
        match &hits[j] {
            Some(d) => {
                if *d < *max_length {
                    return true;
                }
            },
            None => {},
        }
        j = j + 1;
    }
    false
}

} // verus!
