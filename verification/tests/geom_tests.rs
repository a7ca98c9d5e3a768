use pathtracer::geom::{covers, make_vertex, pick_root, Sphere, Triangle, Vertex};
use pathtracer::obj::{Face, FaceVertex};
use pathtracer::scalar::Scalar;
use pathtracer::vector::{Vec2, Vec3};

fn s(x: f32) -> Scalar {
    Scalar::from_bits(x.to_bits())
}

fn v(x: f32, y: f32, z: f32) -> Vec3 {
    Vec3::new(s(x), s(y), s(z))
}

#[test]
fn pick_root_reports_the_nearer_root() {
    // centre at distance 5, radius 1: roots 4 and 6
    assert_eq!(pick_root(s(4.0), s(6.0), s(0.001), s(f32::MAX)), Some(s(4.0)));
    // centre at distance 10, radius 2.5
    assert_eq!(pick_root(s(7.5), s(12.5), s(0.001), s(f32::MAX)), Some(s(7.5)));
}

#[test]
fn pick_root_takes_the_farther_root_from_inside() {
    assert_eq!(pick_root(s(-1.0), s(1.0), s(0.001), s(f32::MAX)), Some(s(1.0)));
    assert_eq!(pick_root(s(0.0), s(2.0), s(0.001), s(f32::MAX)), Some(s(2.0)));
}

#[test]
fn pick_root_discards_roots_out_of_range() {
    assert_eq!(pick_root(s(-6.0), s(-4.0), s(0.001), s(f32::MAX)), None);
    assert_eq!(pick_root(s(4.0), s(6.0), s(0.001), s(3.0)), None);
    assert_eq!(pick_root(s(4.0), s(6.0), s(5.0), s(5.5)), None);
    assert_eq!(pick_root(s(4.0), s(6.0), s(5.0), s(6.0)), Some(s(6.0)));
}

#[test]
fn pick_root_discards_complex_roots() {
    assert_eq!(pick_root(s(f32::NAN), s(f32::NAN), s(0.001), s(f32::MAX)), None);
}

#[test]
fn covers_tests_the_weights() {
    assert!(covers(s(0.25), s(0.25), s(0.5)));
    assert!(covers(s(0.0), s(0.0), s(0.0)));
    assert!(covers(s(1.0), s(0.0), s(1.0)));
    assert!(covers(s(1.0 / 3.0), s(1.0 / 3.0), s(2.0 / 3.0)));
    assert!(!covers(s(-0.1), s(0.5), s(0.4)));
    assert!(!covers(s(0.5), s(-0.1), s(0.4)));
    assert!(!covers(s(0.6), s(0.6), s(1.2)));
    assert!(!covers(s(f32::NAN), s(0.1), s(f32::NAN)));
}

#[test]
fn make_vertex_takes_the_flat_normal_where_none_is_given() {
    let flat = v(0.0, 0.0, 1.0);
    let bare = FaceVertex { pos: v(1.0, 2.0, 3.0), uv: Vec2::new(s(0.5), s(0.5)), normal: None };
    assert_eq!(
        make_vertex(bare, flat),
        Vertex { pos: v(1.0, 2.0, 3.0), uv: Vec2::new(s(0.5), s(0.5)), normal: flat }
    );
    let own = FaceVertex { normal: Some(v(0.0, 1.0, 0.0)), ..bare };
    assert_eq!(make_vertex(own, flat).normal, v(0.0, 1.0, 0.0));
}

#[test]
fn triangle_without_normals_has_its_flat_normal_at_every_corner() {
    let corner = |x, y| FaceVertex { pos: v(x, y, 0.0), uv: Vec2::zero(), normal: None };
    let face = Face { a: corner(0.0, 0.0), b: corner(1.0, 0.0), c: corner(0.0, 1.0) };
    let flat = v(0.0, 0.0, 1.0);
    let t = Triangle::from_face(face, flat);
    assert_eq!(t.normal, flat);
    assert_eq!(t.a.normal, flat);
    assert_eq!(t.b.normal, flat);
    assert_eq!(t.c.normal, flat);
    assert_eq!(t.a.pos, v(0.0, 0.0, 0.0));
    assert_eq!(t.b.pos, v(1.0, 0.0, 0.0));
    assert_eq!(t.c.pos, v(0.0, 1.0, 0.0));
    assert_eq!(t, Triangle::new(t.a, t.b, t.c, flat));
}

#[test]
fn triangle_keeps_the_normals_it_is_given() {
    let n = v(0.0, 1.0, 0.0);
    let corner = |x, normal| FaceVertex { pos: v(x, 0.0, 0.0), uv: Vec2::zero(), normal };
    let face = Face { a: corner(0.0, Some(n)), b: corner(1.0, None), c: corner(2.0, Some(n)) };
    let flat = v(0.0, 0.0, 1.0);
    let t = Triangle::from_face(face, flat);
    assert_eq!(t.a.normal, n);
    assert_eq!(t.b.normal, flat);
    assert_eq!(t.c.normal, n);
}

#[test]
fn sphere_keeps_its_parameters() {
    let sphere = Sphere::new(v(0.0, 4.0, 0.0), s(1.5));
    assert_eq!(sphere.center, v(0.0, 4.0, 0.0));
    assert_eq!(sphere.radius, s(1.5));
}

#[test]
fn zero_vectors_are_positive_zero() {
    assert_eq!(Vec3::zero(), v(0.0, 0.0, 0.0));
    assert_eq!(Vec2::zero(), Vec2::new(s(0.0), s(0.0)));
}
