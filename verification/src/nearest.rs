//! Choosing the nearest surface along a ray.
//!
//! Every surface of a scene either meets the ray at some distance or does
//! not. The surfaces are gone through in order, and each is asked only
//! within the interval that is left, ends included: from the lower end the
//! caller gave up to the nearest distance found so far. So the smallest
//! distance wins, and of two surfaces at the same distance the later.

use vstd::prelude::*;
use crate::scalar::Scalar;

verus! {

/// The surface that was chosen, by its place among the candidates, and the
/// distance at which the ray meets it.
#[derive(Clone, Copy, PartialEq, Eq, Structural, Debug)]
pub struct Hit {
    pub object: usize,
    pub distance: Scalar,
}

/// Whether a candidate counts: the ray meets the surface, at a distance from
/// `t_min` to `t_max`, both included. A distance that is a NaN never counts.
pub open spec fn admits(t_min: Scalar, t_max: Scalar, candidate: Option<Scalar>) -> bool {
    candidate matches Some(d) && d.within(t_min, t_max)
}

/// Whether `chosen` is the nearest of the candidates: none, where no
/// candidate counts; else a candidate that counts, no farther than any other
/// that counts, and nearer than every one after it.
pub open spec fn is_nearest(
    candidates: Seq<Option<Scalar>>,
    t_min: Scalar,
    t_max: Scalar,
    chosen: Option<Hit>,
) -> bool {
    match chosen {
        None => forall|j: int|
            0 <= j < candidates.len() ==> !admits(t_min, t_max, #[trigger] candidates[j]),
        Some(hit) => {
            &&& hit.object < candidates.len()
            &&& candidates[hit.object as int] == Some(hit.distance)
            &&& hit.distance.within(t_min, t_max)
            &&& forall|j: int|
                0 <= j < candidates.len() && admits(t_min, t_max, #[trigger] candidates[j])
                    ==> hit.distance.at_most(candidates[j]->Some_0)
            &&& forall|j: int|
                hit.object < j < candidates.len() && admits(t_min, t_max, #[trigger] candidates[j])
                    ==> hit.distance.less(candidates[j]->Some_0)
        },
    }
}

/// The nearest candidate seen so far, while the surfaces are gone through
/// one by one.
pub struct Nearest {
    t_min: Scalar,
    t_max: Scalar,
    best: Option<Hit>,
    seen: usize,
    offered: Ghost<Seq<Option<Scalar>>>,
}

impl Nearest {
    /// The candidates offered so far, in order.
    pub closed spec fn offered(&self) -> Seq<Option<Scalar>> {
        self.offered@
    }

    /// The nearest of the candidates offered so far.
    pub closed spec fn best(&self) -> Option<Hit> {
        self.best
    }

    /// The lower end of the interval.
    pub closed spec fn t_min(&self) -> Scalar {
        self.t_min
    }

    /// The upper end of the interval, as the caller gave it.
    pub closed spec fn t_max(&self) -> Scalar {
        self.t_max
    }

    /// The upper end that is left: the distance of the best candidate, or
    /// `t_max` while there is none.
    pub open spec fn bound(&self) -> Scalar {
        match self.best() {
            Some(hit) => hit.distance,
            None => self.t_max(),
        }
    }

    /// What holds of every tracker: its choice is the nearest of what it was
    /// offered.
    pub closed spec fn wf(&self) -> bool {
        &&& self.seen == self.offered@.len()
        &&& is_nearest(self.offered@, self.t_min, self.t_max, self.best)
    }

    /// A tracker that has been offered nothing.
    pub fn new(t_min: Scalar, t_max: Scalar) -> (r: Nearest)
        ensures
            r.wf(),
            r.offered() == Seq::<Option<Scalar>>::empty(),
            r.best() == None::<Hit>,
            r.t_min() == t_min,
            r.t_max() == t_max,
    {
        Nearest { t_min, t_max, best: None, seen: 0, offered: Ghost(Seq::empty()) }
    }

    /// The upper end of the interval in which a further candidate can still
    /// win.
    pub fn upper_bound(&self) -> (r: Scalar)
        ensures
            r == self.bound(),
    {
        match self.best {
            Some(hit) => hit.distance,
            None => self.t_max,
        }
    }

    /// How many candidates have been offered.
    pub fn count(&self) -> (r: usize)
        requires
            self.wf(),
        ensures
            r == self.offered().len(),
    {
        self.seen
    }

    /// Offers the next candidate: the distance at which the ray meets the
    /// next surface, or `None` where it misses. The candidate becomes the
    /// choice if it lies within the interval that is left, and changes
    /// nothing if it does not.
    pub fn offer(&mut self, candidate: Option<Scalar>)
        requires
            old(self).wf(),
            old(self).offered().len() < usize::MAX,
        ensures
            final(self).wf(),
            final(self).offered() == old(self).offered().push(candidate),
            final(self).t_min() == old(self).t_min(),
            final(self).t_max() == old(self).t_max(),
            final(self).best() == (if admits(old(self).t_min(), old(self).bound(), candidate) {
                Some(Hit { object: old(self).offered().len() as usize, distance: candidate->Some_0 })
            } else {
                old(self).best()
            }),
    {
        let ghost before = self.offered@;
        let ghost after = before.push(candidate);
        let place = self.seen;
        let bound = self.upper_bound();
        let wins = match candidate {
            None => false,
            Some(d) => self.t_min.le(d) && d.le(bound),
        };
        if wins {
            let d = candidate.unwrap();
            self.best = Some(Hit { object: place, distance: d });
        }
        self.seen = place + 1;
        self.offered = Ghost(after);
        proof {
            assert forall|j: int| 0 <= j < before.len() implies after[j] == before[j] by {}
            assert(after[before.len() as int] == candidate);
            assert(is_nearest(after, self.t_min, self.t_max, self.best));
        }
    }

    /// The nearest of all the candidates that were offered.
    pub fn finish(self) -> (r: Option<Hit>)
        requires
            self.wf(),
        ensures
            r == self.best(),
            is_nearest(self.offered(), self.t_min(), self.t_max(), r),
    {
        self.best
    }
}

/// The nearest of the candidates, each the distance at which the ray meets
/// one surface, within the interval from `t_min` to `t_max`.
pub fn nearest(candidates: &Vec<Option<Scalar>>, t_min: Scalar, t_max: Scalar) -> (r: Option<Hit>)
    ensures
        is_nearest(candidates@, t_min, t_max, r),
{
    let mut tracker = Nearest::new(t_min, t_max);
    let mut i: usize = 0;
    while i < candidates.len()
        invariant
            0 <= i <= candidates@.len(),
            tracker.wf(),
            tracker.offered() == candidates@.take(i as int),
            tracker.t_min() == t_min,
            tracker.t_max() == t_max,
        decreases candidates@.len() - i,
    {
        tracker.offer(candidates[i]);
        proof {
            assert(candidates@.take(i as int).push(candidates@[i as int]) == candidates@.take(
                i + 1,
            ));
        }
        i += 1;
    }
    proof {
        assert(candidates@.take(i as int) == candidates@);
    }
    tracker.finish()
}

/// There is one nearest candidate and no other.
pub proof fn nearest_is_unique(
    candidates: Seq<Option<Scalar>>,
    t_min: Scalar,
    t_max: Scalar,
    a: Option<Hit>,
    b: Option<Hit>,
)
    requires
        is_nearest(candidates, t_min, t_max, a),
        is_nearest(candidates, t_min, t_max, b),
    ensures
        a == b,
{
    match (a, b) {
        (Some(x), Some(y)) => {
            assert(admits(t_min, t_max, candidates[x.object as int]));
            assert(admits(t_min, t_max, candidates[y.object as int]));
            if x.object < y.object {
                assert(x.distance.less(y.distance));
                assert(y.distance.at_most(x.distance));
            } else if y.object < x.object {
                assert(y.distance.less(x.distance));
                assert(x.distance.at_most(y.distance));
            }
        },
        (Some(x), None) => {
            assert(admits(t_min, t_max, candidates[x.object as int]));
        },
        (None, Some(y)) => {
            assert(admits(t_min, t_max, candidates[y.object as int]));
        },
        (None, None) => {},
    }
}

/// The distance of the chosen surface lies in the interval that was asked
/// for, ends included, whatever the candidates were.
pub proof fn chosen_lies_within(
    candidates: Seq<Option<Scalar>>,
    t_min: Scalar,
    t_max: Scalar,
    chosen: Option<Hit>,
)
    requires
        is_nearest(candidates, t_min, t_max, chosen),
    ensures
        chosen matches Some(hit) ==> t_min.at_most(hit.distance) && hit.distance.at_most(t_max)
            && !hit.distance.less(t_min) && !t_max.less(hit.distance),
{
}

/// Of two surfaces that the ray meets within the interval, the one that is
/// strictly farther is never chosen, and something is chosen.
pub proof fn farther_is_never_chosen(
    candidates: Seq<Option<Scalar>>,
    t_min: Scalar,
    t_max: Scalar,
    chosen: Option<Hit>,
    near: int,
    far: int,
)
    requires
        is_nearest(candidates, t_min, t_max, chosen),
        0 <= near < candidates.len(),
        0 <= far < candidates.len(),
        admits(t_min, t_max, candidates[near]),
        admits(t_min, t_max, candidates[far]),
        candidates[near]->Some_0.less(candidates[far]->Some_0),
    ensures
        chosen is Some,
        chosen->Some_0.object != far,
        chosen->Some_0.distance.less(candidates[far]->Some_0),
{
}

} // verus!
