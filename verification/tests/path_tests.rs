use pathtracer::nearest::Hit;
use pathtracer::path::{Path, Step};
use pathtracer::scalar::Scalar;

fn hit(object: usize) -> Hit {
    Hit { object, distance: Scalar::from_bits(1.0f32.to_bits()) }
}

#[test]
fn a_path_without_depth_is_black() {
    let mut p = Path::begin(0);
    assert!(p.is_spent());
    assert_eq!(p.advance(Some(hit(0))), Step::Black);
    assert_eq!(p.advance(None), Step::Black);
    assert!(p.is_spent());
}

#[test]
fn a_path_that_misses_ends_in_the_sky() {
    let mut p = Path::begin(3);
    assert!(!p.is_spent());
    assert_eq!(p.advance(None), Step::Sky);
    assert!(p.is_spent());
    assert_eq!(p.advance(None), Step::Black);
}

#[test]
fn a_path_of_depth_one_bounces_once() {
    let mut p = Path::begin(1);
    assert_eq!(p.advance(Some(hit(2))), Step::Bounce { hit: hit(2), depth: 0 });
    assert!(p.is_spent());
    assert_eq!(p.advance(Some(hit(2))), Step::Black);
}

#[test]
fn a_path_bounces_no_more_often_than_its_depth() {
    let mut p = Path::begin(3);
    assert_eq!(p.advance(Some(hit(0))), Step::Bounce { hit: hit(0), depth: 2 });
    assert_eq!(p.advance(Some(hit(1))), Step::Bounce { hit: hit(1), depth: 1 });
    assert_eq!(p.advance(Some(hit(2))), Step::Bounce { hit: hit(2), depth: 0 });
    assert_eq!(p.advance(Some(hit(3))), Step::Black);
}

#[test]
fn a_path_may_end_in_the_sky_after_a_bounce() {
    let mut p = Path::begin(3);
    assert_eq!(p.advance(Some(hit(0))), Step::Bounce { hit: hit(0), depth: 2 });
    assert_eq!(p.advance(None), Step::Sky);
    assert_eq!(p.advance(Some(hit(1))), Step::Black);
}
