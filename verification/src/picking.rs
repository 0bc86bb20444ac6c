//! Choosing among candidate targets: the nearest one that is hit, the
//! earliest listed among equally near ones. Used by bullets, hitscan rays
//! and the cursor hover pick.

use vstd::prelude::*;

verus! {

/// One candidate: whether it is hit at all, and its distance along the shot
/// as an order key (a larger key is farther).
#[derive(Clone, Copy, PartialEq, Eq, Structural, Debug)]
pub struct HitCandidate {
    pub hit: bool,
    pub distance_key: u32,
}

/// `b` is the nearest hit candidate, and no earlier candidate is as near.
pub open spec fn is_closest_hit(c: Seq<HitCandidate>, b: int) -> bool {
    &&& 0 <= b < c.len()
    &&& c[b].hit
    &&& forall|i: int| 0 <= i < c.len() && (#[trigger] c[i]).hit ==> c[b].distance_key <= c[i].distance_key
    &&& forall|i: int| 0 <= i < b && (#[trigger] c[i]).hit ==> c[b].distance_key < c[i].distance_key
}

/// The position of the nearest hit candidate (the first of equally near
/// ones), or `None` when no candidate is hit.
pub fn closest_hit(candidates: &Vec<HitCandidate>) -> (best: Option<usize>)
    ensures
        best.is_none() <==> forall|i: int| 0 <= i < candidates.len() ==> !(#[trigger] candidates[i]).hit,
        best matches Some(b) ==> is_closest_hit(candidates@, b as int),
{
    let n = candidates.len();
    let mut best: Option<usize> = None;
    let mut i: usize = 0;
    while i < n
        invariant
            n == candidates.len(),
            i <= n,
            best.is_none() ==> forall|q: int| 0 <= q < i ==> !(#[trigger] candidates[q]).hit,
            best matches Some(b) ==> is_closest_hit(candidates@.take(i as int), b as int),
        decreases n - i,
    {
        let c = candidates[i];
        let ghost prefix = candidates@.take(i as int);
        if c.hit {
            match best {
                None => {
                    best = Some(i);
                },
                Some(b) => {
                    if c.distance_key < candidates[b].distance_key {
                        best = Some(i);
                    }
                },
            }
        }
        proof {
            let next = candidates@.take(i + 1);
            assert forall|q: int| 0 <= q < i implies next[q] == prefix[q] by {}
            assert(next[i as int] == c);
            if let Some(b) = best {
                assert forall|q: int| 0 <= q < next.len() && (#[trigger] next[q]).hit implies next[b as int].distance_key
                    <= next[q].distance_key by {
                    if q < i {
                        assert(next[q] == prefix[q]);
                    }
                }
            }
        }
        i = i + 1;
    }
    proof {
        assert(candidates@.take(n as int) =~= candidates@);
    }
    best
}

} // verus!
