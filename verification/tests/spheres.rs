use tracer::coord::Coord;
use tracer::intersection::{IntersectionTracker, SingleIntersection};
use tracer::ray::Ray;
use tracer::shapes::Shapes;
use tracer::sphere::{Quadratic, Sphere};
use tracer::square4::Matrix4x4;
use tracer::transformations::TransformationMatrix;
use tracer::vector::Vector;

fn ray(origin: (i64, i64, i64), dir: (i64, i64, i64)) -> Ray {
    Ray::new(Coord::new(origin.0, origin.1, origin.2), Vector::new(dir.0, dir.1, dir.2))
}

/// The roots of the returned quadratic are the hit times; a root `t`
/// satisfies the quadratic exactly.
fn hits_at(q: &Quadratic, t: i64) -> bool {
    q.eval_at(t) == 0
}

#[test]
fn basic_intersection() {
    let q = Sphere::default().hit_quadratic(&ray((0, 0, -5), (0, 0, 1))).unwrap();
    assert!(q.discriminant() > 0);
    assert!(hits_at(&q, 4) && hits_at(&q, 6));
    assert_eq!(q, Quadratic { a: 1, b: -10, c: 24 });
}

#[test]
fn tangent_intersection() {
    let q = Sphere::default().hit_quadratic(&ray((0, 1, -5), (0, 0, 1))).unwrap();
    // A tangent hit: the discriminant vanishes and the double root is 5.
    assert_eq!(q.discriminant(), 0);
    assert!(hits_at(&q, 5));
}

#[test]
fn no_intersection() {
    let q = Sphere::default().hit_quadratic(&ray((0, 2, -5), (0, 0, 1))).unwrap();
    assert!(q.discriminant() < 0);
}

#[test]
fn inside_intersection() {
    let q = Sphere::default().hit_quadratic(&ray((0, 0, 0), (0, 0, 1))).unwrap();
    assert!(hits_at(&q, -1) && hits_at(&q, 1));
}

#[test]
fn behind_intersection() {
    let q = Sphere::default().hit_quadratic(&ray((0, 0, 5), (0, 0, 1))).unwrap();
    assert!(hits_at(&q, -6) && hits_at(&q, -4));
}

#[test]
fn transform_translate() {
    let mut sphere = Sphere::default();
    sphere.transformation.translate(Coord::new(2, 3, 4));
    assert_eq!(
        sphere.transformation.matrix,
        TransformationMatrix::translation(Coord::new(2, 3, 4))
    );
}

#[test]
fn intersect_scaled_sphere() {
    let mut sphere = Sphere::default();
    sphere.transformation.scale(Coord::new(2, 2, 2));
    let q = sphere.hit_quadratic(&ray((0, 0, -5), (0, 0, 1))).unwrap();
    assert!(q.discriminant() > 0);
    assert!(hits_at(&q, 3) && hits_at(&q, 7));
}

#[test]
fn intersect_translated_sphere() {
    let mut sphere = Sphere::default();
    sphere.transformation.translate(Coord::new(5, 0, 0));
    let q = sphere.hit_quadratic(&ray((0, 0, -5), (0, 0, 1))).unwrap();
    assert!(q.discriminant() < 0);
}

#[test]
fn degenerate_sphere_reports_no_frame() {
    let mut sphere = Sphere::default();
    sphere.transformation.scale(Coord::new(0, 1, 1));
    assert_eq!(sphere.hit_quadratic(&ray((0, 0, -5), (0, 0, 1))), None);
}

#[test]
fn shapes_dispatch_to_sphere() {
    let shape = Shapes::Sphere(Sphere::default());
    let q = shape.hit_quadratic(&ray((0, 0, -5), (0, 0, 1))).unwrap();
    assert!(hits_at(&q, 4) && hits_at(&q, 6));
}

#[test]
fn translation_matrix() {
    let p = Coord::new(-3, 4, 5);
    let t = TransformationMatrix::translation(p);
    let m = Matrix4x4::from([[1, 0, 0, -3], [0, 1, 0, 4], [0, 0, 1, 5], [0, 0, 0, 1]]);
    assert_eq!(t, m);
}

#[test]
fn translate() {
    let p = Coord::new(-3, 4, 5);
    let exp = Coord::new(2, 1, 7);
    let acc = p.translate(Coord::new(5, -3, 2));
    assert_eq!(exp, acc);

    let v = Vector::new(-3, 4, 5);
    let acc = v.translate(Coord::new(5, -3, 2));
    assert_eq!(v, acc);
}

#[test]
fn scale() {
    let p = Coord::new(-4, 6, 8);
    let v = Vector::new(-4, 6, 8);

    let exp_p = Coord::new(-8, 18, 32);
    let exp_v = Vector::new(-8, 18, 32);

    assert_eq!(exp_p, p.scale(Coord::new(2, 3, 4)));
    assert_eq!(exp_v, v.scale(Coord::new(2, 3, 4)));
}

#[test]
fn build_translations() {
    let p = Coord::new(0, 1, 0);
    let np = p.scale(Coord::new(2, 1, 2)).translate(Coord::new(0, 0, 1));
    let mut transformation_matrix = TransformationMatrix::identity();
    transformation_matrix.scale(Coord::new(2, 1, 2));
    transformation_matrix.translate(Coord::new(0, 0, 1));
    let op = transformation_matrix.apply(p);
    assert_eq!(op, np);
}

#[test]
fn composition_order_matters() {
    // Scaling after translating multiplies the offset too; translating
    // after scaling does not.
    let p = Coord::new(1, 1, 1);
    let scaled_then_translated = p.scale(Coord::new(3, 3, 3)).translate(Coord::new(5, 0, 0));
    let translated_then_scaled = p.translate(Coord::new(5, 0, 0)).scale(Coord::new(3, 3, 3));
    assert_eq!(scaled_then_translated, Coord::new(8, 3, 3));
    assert_eq!(translated_then_scaled, Coord::new(18, 3, 3));
    assert_ne!(scaled_then_translated, translated_then_scaled);
}

#[test]
fn change_position() {
    let o = Coord::new(2, 3, 4);
    let d = Vector::new(1, 0, 0);
    let r = Ray::new(o, d);
    for i in 0..10 {
        let exp = Coord::new(i + 2, 3, 4);
        assert_eq!(r.position_at(i), exp);
    }
}

#[test]
fn ray_transform_translate() {
    let r = Ray::new(Coord::new(1, 2, 3), Vector::new(0, 1, 0));
    let new_ray = r.translate(Coord::new(3, 4, 5));
    assert_eq!(new_ray, Ray::new(Coord::new(4, 6, 8), Vector::new(0, 1, 0)));
}

#[test]
fn transform_scale() {
    let r = Ray::new(Coord::new(1, 2, 3), Vector::new(0, 1, 0));
    let new_ray = r.scale(Coord::new(2, 3, 4));
    assert_eq!(new_ray, Ray::new(Coord::new(2, 6, 12), Vector::new(0, 3, 0)));
}

#[test]
fn nearest_positive_hit() {
    let mut tracker = IntersectionTracker::new(vec![
        SingleIntersection::new(7, 0),
        SingleIntersection::new(-3, 0),
        SingleIntersection::new(4, 1),
        SingleIntersection::new(6, 2),
    ]);
    assert_eq!(tracker.hit(), Some(SingleIntersection::new(4, 1)));
    tracker.push(SingleIntersection::new(2, 3));
    assert_eq!(tracker.hit(), Some(SingleIntersection::new(2, 3)));
}

#[test]
fn hits_behind_origin_are_ignored() {
    let tracker = IntersectionTracker::new(vec![
        SingleIntersection::new(-6, 0),
        SingleIntersection::new(-4, 0),
    ]);
    assert_eq!(tracker.hit(), None);
    assert_eq!(IntersectionTracker::new(vec![]).hit(), None);
}

#[test]
fn tied_hits_keep_the_first_seen() {
    let tracker = IntersectionTracker::new(vec![
        SingleIntersection::new(5, 0),
        SingleIntersection::new(5, 1),
    ]);
    assert_eq!(tracker.hit(), Some(SingleIntersection::new(5, 0)));
}
