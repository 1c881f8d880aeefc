//! Nearest-hit selection: which primitive a ray meets first.
//!
//! A ray is traced against the primitives of a scene one by one, and each
//! answers with the distance at which the ray meets it, or with nothing. The
//! answers, in the order of the primitives, are the ray's hits.

use vstd::prelude::*;
use crate::data::{Element, Scene};
use crate::number::Double;

verus! {

/// Whether no primitive was met.
pub open spec fn no_hit(hits: Seq<Option<Double>>) -> bool {
    forall|j: int| 0 <= j < hits.len() ==> (#[trigger] hits[j]) is None
}

/// Whether primitive `i` is the nearest one met: none is met at a distance of
/// lower rank, and none before it at a distance of the same rank.
pub open spec fn is_nearest(hits: Seq<Option<Double>>, i: int) -> bool {
    &&& 0 <= i < hits.len()
    &&& hits[i] is Some
    &&& forall|j: int|
        0 <= j < hits.len() && (#[trigger] hits[j]) is Some ==> hits[i].unwrap().rank()
            <= hits[j].unwrap().rank()
    &&& forall|j: int|
        0 <= j < i && (#[trigger] hits[j]) is Some ==> hits[i].unwrap().rank()
            < hits[j].unwrap().rank()
}

/// The nearest primitive met, if any is met.
pub open spec fn nearest(hits: Seq<Option<Double>>) -> Option<int> {
    if exists|i: int| is_nearest(hits, i) {
        Some(choose|i: int| is_nearest(hits, i))
    } else {
        None
    }
}

/// At most one primitive is the nearest.
pub proof fn lemma_nearest_unique(hits: Seq<Option<Double>>, i: int, j: int)
    requires
        is_nearest(hits, i),
        is_nearest(hits, j),
    ensures
        i == j,
{
    if i < j {
        assert(hits[i] is Some);
    } else if j < i {
        assert(hits[j] is Some);
    }
}

/// The primitive that is the nearest is the one that `nearest` names.
pub proof fn lemma_nearest_is(hits: Seq<Option<Double>>, i: int)
    requires
        is_nearest(hits, i),
    ensures
        nearest(hits) == Some(i),
{
    let k: int = choose|k: int| is_nearest(hits, k);
    lemma_nearest_unique(hits, i, k);
}

/// A ray that meets no primitive has no nearest one.
pub proof fn lemma_no_hit_no_nearest(hits: Seq<Option<Double>>)
    requires
        no_hit(hits),
    ensures
        nearest(hits) is None,
{
    assert forall|i: int| !is_nearest(hits, i) by {
        if 0 <= i < hits.len() {
            assert(hits[i] is None);
        }
    }
}

/// A primitive that is met strictly before every other one that is met is the
/// nearest, wherever it stands among them.
pub proof fn lemma_strictly_nearer_wins(hits: Seq<Option<Double>>, i: int)
    requires
        0 <= i < hits.len(),
        hits[i] is Some,
        forall|j: int|
            0 <= j < hits.len() && j != i && (#[trigger] hits[j]) is Some
                ==> hits[i].unwrap().spec_lt(hits[j].unwrap()),
    ensures
        nearest(hits) == Some(i),
{
    assert(is_nearest(hits, i)) by {
        assert forall|j: int| 0 <= j < hits.len() && (#[trigger] hits[j]) is Some implies hits[i].unwrap().rank()
            <= hits[j].unwrap().rank() by {
            if j != i {
                assert(hits[i].unwrap().spec_lt(hits[j].unwrap()));
            }
        }
        assert forall|j: int| 0 <= j < i && (#[trigger] hits[j]) is Some implies hits[i].unwrap().rank()
            < hits[j].unwrap().rank() by {
            assert(hits[i].unwrap().spec_lt(hits[j].unwrap()));
        }
    }
    lemma_nearest_is(hits, i);
}

/// The nearest hit is no farther than any other: no hit compares below it.
pub proof fn lemma_nothing_nearer(hits: Seq<Option<Double>>, j: int)
    requires
        nearest(hits) is Some,
        0 <= j < hits.len(),
        hits[j] is Some,
    ensures
        hits[nearest(hits).unwrap()].unwrap().rank() <= hits[j].unwrap().rank(),
        !hits[j].unwrap().spec_lt(hits[nearest(hits).unwrap()].unwrap()),
{
}

/// Finds the nearest primitive met.
pub fn nearest_hit(hits: &Vec<Option<Double>>) -> (r: Option<usize>)
    ensures
        match r {
            Some(i) => is_nearest(hits@, i as int) && nearest(hits@) == Some(i as int),
            None => no_hit(hits@) && nearest(hits@) is None,
        },
{
    let mut best: Option<usize> = None;
    let mut k: usize = 0;
    while k < hits.len()
        invariant
            k <= hits.len(),
            match best {
                Some(i) => is_nearest(hits@.take(k as int), i as int),
                None => no_hit(hits@.take(k as int)),
            },
        decreases hits.len() - k,
    {
        proof {
            lemma_take_one_more(hits@, k as int);
        }
        if let Some(d) = hits[k] {
            match best {
                Some(i) => {
                    let held: Double = hits[i].unwrap();
                    if d.nearer(&held) {
                        best = Some(k);
                    }
                },
                None => {
                    best = Some(k);
                },
            }
        }
        k = k + 1;
    }
    proof {
        assert(hits@.take(k as int) =~= hits@);
        match best {
            Some(i) => lemma_nearest_is(hits@, i as int),
            None => lemma_no_hit_no_nearest(hits@),
        }
    }
    best
}

/// The first `k + 1` hits are the first `k` and then the hit at `k`.
proof fn lemma_take_one_more(hits: Seq<Option<Double>>, k: int)
    requires
        0 <= k < hits.len(),
    ensures
        hits.take(k + 1).len() == k + 1,
        hits.take(k + 1)[k] == hits[k],
        forall|j: int| 0 <= j < k ==> (#[trigger] hits.take(k + 1)[j]) == hits.take(k)[j],
{
}

impl Scene {
    /// Traces a ray whose hits on the scene's primitives are `hits`: the
    /// distance to the nearest primitive met and that primitive, or nothing
    /// where none is met. Of two primitives met at the same distance the
    /// earlier one in the scene is returned.
    pub fn trace(&self, hits: &Vec<Option<Double>>) -> (r: Option<(Double, &Element)>)
        requires
            hits.len() == self.elements.len(),
        ensures
            match r {
                Some((distance, element)) => {
                    &&& nearest(hits@) is Some
                    &&& hits[nearest(hits@).unwrap()] == Some(distance)
                    &&& *element == self.elements[nearest(hits@).unwrap()]
                },
                None => nearest(hits@) is None,
            },
    {
        match nearest_hit(hits) {
            Some(i) => Some((hits[i].unwrap(), &self.elements[i])),
            None => None,
        }
    }
}

} // verus!
