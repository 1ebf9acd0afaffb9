//! What a ray can hit, what is known of a hit, and which of several hits is
//! the nearest.

use crate::material::Material;
use crate::ray::Ray;
use crate::scalar::{OrderedScalar, Scalar};
use crate::vec3::Vec3;
use vstd::prelude::*;

verus! {

/// A shape that a ray can hit.
pub trait Hitable<S: Scalar>: Sync + Send {
    /// The first point at which `ray` enters the shape, if there is one.
    spec fn hit(&self, ray: &Ray<S>) -> Option<HitInfos<S>>;

    /// Intersects `ray` with the shape.
    fn ray_intersect(&self, ray: &Ray<S>) -> (r: Option<HitInfos<S>>)
        ensures
            r == self.hit(ray),
    ;
}

/// A ray's hit on a shape.
#[derive(Clone, Copy, Debug, PartialEq)]
pub struct HitInfos<S> {
    /// Where the ray enters the shape.
    pub hit_point: Vec3<S>,
    /// Where the ray leaves the shape.
    pub exit_point: Vec3<S>,
    /// How far along the ray the hit point lies.
    pub hit_distance: S,
    /// The unit normal of the surface at the hit point, pointing outward.
    pub normal: Vec3<S>,
    /// The material of the shape.
    pub material: Material<S>,
}

impl<S: Scalar> HitInfos<S> {
    /// The nearest of the hits in `infos`, found by going through them in
    /// order: a later hit replaces the best so far only where its distance
    /// is strictly below.
    pub open spec fn closest(infos: Seq<Option<HitInfos<S>>>) -> Option<HitInfos<S>>
        decreases infos.len(),
    {
        if infos.len() == 0 {
            None
        } else {
            match (Self::closest(infos.drop_last()), infos.last()) {
                (None, last) => last,
                (Some(best), None) => Some(best),
                (Some(best), Some(hit)) => if hit.hit_distance.lt(best.hit_distance) {
                    Some(hit)
                } else {
                    Some(best)
                },
            }
        }
    }

    /// Whether the hit at index `k` of `infos` is the nearest one: no hit is
    /// nearer, and every hit before it is strictly farther.
    pub open spec fn is_first_nearest(infos: Seq<Option<HitInfos<S>>>, k: int) -> bool {
        &&& 0 <= k < infos.len()
        &&& infos[k] is Some
        &&& forall|j: int|
            0 <= j < infos.len() && infos[j] is Some ==> !(#[trigger] infos[j]).unwrap().hit_distance.lt(
                infos[k].unwrap().hit_distance,
            )
        &&& forall|j: int|
            0 <= j < k && infos[j] is Some ==> infos[k].unwrap().hit_distance.lt(
                (#[trigger] infos[j]).unwrap().hit_distance,
            )
    }

    /// Picks the nearest hit. Of several hits at the same distance the first
    /// one is picked; without a hit the result is `None`.
    pub fn get_closest(infos: Vec<Option<HitInfos<S>>>) -> (r: Option<HitInfos<S>>)
        ensures
            r == Self::closest(infos@),
    {
        let mut min: Option<HitInfos<S>> = None;
        let mut i: usize = 0;
        while i < infos.len()
            invariant
                i <= infos.len(),
                min == Self::closest(infos@.take(i as int)),
            decreases infos.len() - i,
        {
            proof {
                assert(infos@.take(i + 1).drop_last() == infos@.take(i as int));
            }
            let info = infos[i];
            match min {
                None => {
                    min = info;
                },
                Some(best) => {
                    if let Some(hit) = info {
                        if hit.hit_distance.lt(best.hit_distance) {
                            min = Some(hit);
                        }
                    }
                },
            }
            i += 1;
        }
        proof {
            assert(infos@.take(infos.len() as int) == infos@);
        }
        min
    }
}

impl<S: OrderedScalar> HitInfos<S> {
    /// With a well-behaved order, the hit that `closest` picks has the least
    /// distance of all, and is the first with that distance. Where `closest`
    /// picks none, there is no hit at all. The result is the index of the hit
    /// picked, or -1.
    pub proof fn lemma_closest_is_minimum(infos: Seq<Option<HitInfos<S>>>) -> (k: int)
        ensures
            HitInfos::closest(infos) is None ==> k == -1 && forall|j: int|
                0 <= j < infos.len() ==> infos[j] is None,
            HitInfos::closest(infos) is Some ==> HitInfos::is_first_nearest(infos, k) && infos[k]
                == HitInfos::closest(infos),
        decreases infos.len(),
    {
        if infos.len() == 0 {
            -1
        } else {
            let front = infos.drop_last();
            let before = Self::lemma_closest_is_minimum(front);
            let last = infos.len() - 1;
            assert forall|j: int| 0 <= j < last implies front[j] == infos[j] by {}
            match HitInfos::closest(front) {
                None => {
                    if let Some(hit) = infos.last() {
                        S::lemma_lt_irreflexive(hit.hit_distance);
                        assert(HitInfos::is_first_nearest(infos, last));
                        last
                    } else {
                        -1
                    }
                },
                Some(best) => {
                    assert(front[before] == Some(best));
                    match infos.last() {
                        Some(hit) if hit.hit_distance.lt(best.hit_distance) => {
                            S::lemma_lt_irreflexive(hit.hit_distance);
                            assert forall|j: int| 0 <= j < last && infos[j] is Some implies {
                                &&& !(#[trigger] infos[j]).unwrap().hit_distance.lt(hit.hit_distance)
                                &&& hit.hit_distance.lt(infos[j].unwrap().hit_distance)
                            } by {
                                let other = infos[j].unwrap().hit_distance;
                                assert(front[j] is Some);
                                assert(!other.lt(best.hit_distance));
                                if other.lt(hit.hit_distance) {
                                    S::lemma_lt_transitive(other, hit.hit_distance, best.hit_distance);
                                }
                                if !hit.hit_distance.lt(other) {
                                    S::lemma_lt_negatively_transitive(
                                        hit.hit_distance,
                                        other,
                                        best.hit_distance,
                                    );
                                }
                            }
                            assert(HitInfos::is_first_nearest(infos, last));
                            last
                        },
                        _ => {
                            assert(HitInfos::closest(infos) == Some(best));
                            assert forall|j: int| 0 <= j < infos.len() && infos[j] is Some implies !(
                            #[trigger] infos[j]).unwrap().hit_distance.lt(best.hit_distance) by {
                                if j < last {
                                    assert(front[j] is Some);
                                }
                            }
                            assert forall|j: int|
                                0 <= j < before && infos[j] is Some implies best.hit_distance.lt(
                                (#[trigger] infos[j]).unwrap().hit_distance,
                            ) by {
                                assert(front[j] is Some);
                            }
                            assert(HitInfos::is_first_nearest(infos, before));
                            before
                        },
                    }
                },
            }
        }
    }
}

} // verus!
