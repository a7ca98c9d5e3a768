//! The shapes of a scene, as plain data.

use vstd::prelude::*;
use crate::obj::{Face, FaceVertex};
use crate::scalar::Scalar;
use crate::vector::{Vec2, Vec3};

verus! {

/// A corner of a triangle.
#[derive(Clone, Copy, PartialEq, Eq, Structural, Debug)]
pub struct Vertex {
    pub pos: Vec3,
    pub uv: Vec2,
    pub normal: Vec3,
}

/// A triangle: its three corners, and its flat normal.
#[derive(Clone, Copy, PartialEq, Eq, Structural, Debug)]
pub struct Triangle {
    pub a: Vertex,
    pub b: Vertex,
    pub c: Vertex,
    pub normal: Vec3,
}

/// A sphere.
#[derive(Clone, Copy, PartialEq, Eq, Structural, Debug)]
pub struct Sphere {
    pub center: Vec3,
    pub radius: Scalar,
}

/// A shape: one of the two that a scene can hold.
#[derive(Clone, Copy, PartialEq, Eq, Structural, Debug)]
pub enum Shape {
    Sphere(Sphere),
    Triangle(Triangle),
}

/// The corner of a triangle that a corner of a face becomes: where the face
/// gives it no normal, it takes the triangle's flat normal.
pub open spec fn vertex_with(corner: FaceVertex, flat: Vec3) -> Vertex {
    Vertex {
        pos: corner.pos,
        uv: corner.uv,
        normal: match corner.normal {
            Some(n) => n,
            None => flat,
        },
    }
}

/// The triangle that a face becomes, given its flat normal.
pub open spec fn triangle_with(face: Face, flat: Vec3) -> Triangle {
    Triangle {
        a: vertex_with(face.a, flat),
        b: vertex_with(face.b, flat),
        c: vertex_with(face.c, flat),
        normal: flat,
    }
}

/// Makes a corner of a triangle from a corner of a face.
pub fn make_vertex(corner: FaceVertex, flat: Vec3) -> (r: Vertex)
    ensures
        r == vertex_with(corner, flat),
{
    let normal = match corner.normal {
        Some(n) => n,
        None => flat,
    };
    Vertex { pos: corner.pos, uv: corner.uv, normal }
}

impl Sphere {
    pub fn new(center: Vec3, radius: Scalar) -> (r: Sphere)
        ensures
            r == (Sphere { center, radius }),
    {
        Sphere { center, radius }
    }
}

impl Triangle {
    /// A triangle of three corners and the flat normal of their plane.
    pub fn new(a: Vertex, b: Vertex, c: Vertex, normal: Vec3) -> (r: Triangle)
        ensures
            r == (Triangle { a, b, c, normal }),
    {
        Triangle { a, b, c, normal }
    }

    /// The triangle of a face. `flat` is the flat normal of the face; every
    /// corner to which the face gives no normal takes it.
    pub fn from_face(face: Face, flat: Vec3) -> (r: Triangle)
        ensures
            r == triangle_with(face, flat),
    {
        Triangle {
            a: make_vertex(face.a, flat),
            b: make_vertex(face.b, flat),
            c: make_vertex(face.c, flat),
            normal: flat,
        }
    }
}

/// A triangle made of a face that gives none of its corners a normal has its
/// flat normal at all three corners; its positions and texture coordinates
/// are those of the face.
pub proof fn corners_take_the_flat_normal(face: Face, flat: Vec3)
    requires
        face.a.normal is None,
        face.b.normal is None,
        face.c.normal is None,
    ensures
        triangle_with(face, flat).a.normal == flat,
        triangle_with(face, flat).b.normal == flat,
        triangle_with(face, flat).c.normal == flat,
        triangle_with(face, flat).normal == flat,
        triangle_with(face, flat).a.pos == face.a.pos,
        triangle_with(face, flat).b.pos == face.b.pos,
        triangle_with(face, flat).c.pos == face.c.pos,
{
}

/// The root of a sphere's quadratic that counts as the hit. `near` and `far`
/// are its two roots, the smaller first: the smaller is taken if it lies from
/// `t_min` to `t_max`, else the larger if that does, else none. Where the
/// quadratic has no real root both are NaN, and none is taken.
pub open spec fn root_chosen(near: Scalar, far: Scalar, t_min: Scalar, t_max: Scalar) -> Option<
    Scalar,
> {
    if near.within(t_min, t_max) {
        Some(near)
    } else if far.within(t_min, t_max) {
        Some(far)
    } else {
        None
    }
}

/// Chooses between the two roots of a sphere's quadratic.
pub fn pick_root(near: Scalar, far: Scalar, t_min: Scalar, t_max: Scalar) -> (r: Option<Scalar>)
    ensures
        r == root_chosen(near, far, t_min, t_max),
{
    if t_min.le(near) && near.le(t_max) {
        Some(near)
    } else if t_min.le(far) && far.le(t_max) {
        Some(far)
    } else {
        None
    }
}

/// Whether a point of a triangle's plane lies in the triangle, by its
/// barycentric weights: `u` and `v` are the weights of the second and third
/// corner and `sum` is `u + v`. The point is inside where neither weight is
/// below zero and their sum is not above one.
pub open spec fn inside(u: Scalar, v: Scalar, sum: Scalar) -> bool {
    let zero = Scalar { bits: 0 };
    let one = Scalar { bits: crate::scalar::ONE_BITS };
    zero.at_most(u) && zero.at_most(v) && sum.at_most(one)
}

/// Tests the barycentric weights of a point against its triangle.
pub fn covers(u: Scalar, v: Scalar, sum: Scalar) -> (r: bool)
    ensures
        r == inside(u, v, sum),
{
    let zero = Scalar::zero();
    let one = Scalar::one();
    zero.le(u) && zero.le(v) && sum.le(one)
}

/// A root that is chosen is one of the two and lies within the interval.
/// Where both roots lie within it, the nearer is the one chosen; where the
/// nearer lies before the interval, as for a ray that starts inside the
/// sphere, the farther is.
pub proof fn nearer_root_is_chosen(near: Scalar, far: Scalar, t_min: Scalar, t_max: Scalar)
    ensures
        root_chosen(near, far, t_min, t_max) matches Some(d) ==> d.within(t_min, t_max) && (d
            == near || d == far),
        near.within(t_min, t_max) ==> root_chosen(near, far, t_min, t_max) == Some(near),
        !near.within(t_min, t_max) && far.within(t_min, t_max) ==> root_chosen(
            near,
            far,
            t_min,
            t_max,
        ) == Some(far),
        near.nan() && far.nan() ==> root_chosen(near, far, t_min, t_max) == None::<Scalar>,
{
}

} // verus!
