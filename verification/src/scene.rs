//! The scene: shapes with their materials, and the nearest of them along a
//! ray.

use vstd::prelude::*;
use crate::geom::{root_chosen, Shape};
use crate::material::Material;
use crate::nearest::{admits, is_nearest, nearest, Hit};
use crate::scalar::Scalar;

verus! {

/// A shape and the material of its surface.
#[derive(Clone, Copy, PartialEq, Eq, Structural, Debug)]
pub struct Object {
    pub shape: Shape,
    pub material: Material,
}

impl Object {
    pub fn new(shape: Shape, material: Material) -> (r: Object)
        ensures
            r == (Object { shape, material }),
    {
        Object { shape, material }
    }
}

/// The nearest surface along a ray: where the ray meets it, and its material,
/// borrowed from the scene.
#[derive(Debug)]
pub struct HitResult<'a> {
    pub hit: Hit,
    pub material: &'a Material,
}

/// The objects of a scene, in the order in which they were added.
pub struct Scene {
    objects: Vec<Object>,
}

impl Scene {
    /// The objects, in the order in which they were added.
    pub closed spec fn view(&self) -> Seq<Object> {
        self.objects@
    }

    /// What holds of every scene: each material is valid.
    pub open spec fn wf(&self) -> bool {
        forall|i: int| 0 <= i < self@.len() ==> (#[trigger] self@[i]).material.valid()
    }

    /// The empty scene.
    pub fn new() -> (r: Scene)
        ensures
            r@ == Seq::<Object>::empty(),
            r.wf(),
    {
        Scene { objects: Vec::new() }
    }

    /// Adds an object after those that the scene holds.
    pub fn add(&mut self, object: Object)
        requires
            old(self).wf(),
            object.material.valid(),
        ensures
            final(self)@ == old(self)@.push(object),
            final(self).wf(),
    {
        self.objects.push(object);
    }

    pub fn len(&self) -> (r: usize)
        ensures
            r == self@.len(),
    {
        self.objects.len()
    }

    /// The object at place `i`.
    pub fn object(&self, i: usize) -> (r: &Object)
        requires
            i < self@.len(),
        ensures
            *r == self@[i as int],
    {
        &self.objects[i]
    }

    /// The nearest object along a ray. `candidates` holds, for each object
    /// in order, the distance at which the ray meets it, if it does; the
    /// object chosen is the nearest of those within `t_min` and `t_max`, and
    /// comes with its material.
    pub fn trace(&self, candidates: &Vec<Option<Scalar>>, t_min: Scalar, t_max: Scalar) -> (r:
        Option<HitResult<'_>>)
        requires
            candidates@.len() == self@.len(),
        ensures
            match r {
                None => is_nearest(candidates@, t_min, t_max, None),
                Some(found) => is_nearest(candidates@, t_min, t_max, Some(found.hit))
                    && *found.material == self@[found.hit.object as int].material,
            },
    {
        match nearest(candidates, t_min, t_max) {
            None => None,
            Some(hit) => Some(HitResult { hit, material: &self.objects[hit.object].material }),
        }
    }
}

/// A sphere and a second surface along one ray. `near` and `far` are the two
/// roots of the sphere, the smaller first, and `other` is the distance of the
/// second surface, all three within the interval. The sphere is met at its
/// nearer root, so it is chosen where that root lies before the second
/// surface, also where the second surface lies between the two roots; and
/// the second surface is chosen where it lies before the nearer root. This
/// holds whichever of the two was added to the scene first.
pub proof fn sphere_hides_what_lies_behind(
    near: Scalar,
    far: Scalar,
    other: Scalar,
    t_min: Scalar,
    t_max: Scalar,
    sphere_first: Option<Hit>,
    sphere_second: Option<Hit>,
)
    requires
        near.within(t_min, t_max),
        far.within(t_min, t_max),
        other.within(t_min, t_max),
        near.at_most(far),
        is_nearest(
            seq![root_chosen(near, far, t_min, t_max), Some(other)],
            t_min,
            t_max,
            sphere_first,
        ),
        is_nearest(
            seq![Some(other), root_chosen(near, far, t_min, t_max)],
            t_min,
            t_max,
            sphere_second,
        ),
    ensures
        near.less(other) ==> sphere_first == Some(Hit { object: 0, distance: near })
            && sphere_second == Some(Hit { object: 1, distance: near }),
        other.less(near) ==> sphere_first == Some(Hit { object: 1, distance: other })
            && sphere_second == Some(Hit { object: 0, distance: other }),
{
    let a = seq![root_chosen(near, far, t_min, t_max), Some(other)];
    let b = seq![Some(other), root_chosen(near, far, t_min, t_max)];
    assert(a[0] == Some(near) && a[1] == Some(other));
    assert(b[0] == Some(other) && b[1] == Some(near));
    assert(admits(t_min, t_max, a[0]) && admits(t_min, t_max, a[1]));
    assert(admits(t_min, t_max, b[0]) && admits(t_min, t_max, b[1]));
}

} // verus!
