use geometric::circle_circle::circles_intersect;
use geometric::cohen_sutherland::cohen_sutherland_line_clip;
use geometric::cohen_sutherland::compute_outcode;
use geometric::contain2d::is_circle_contain_pt;
use geometric::contain2d::is_rect_contain_pt;
use geometric::contain_common::is_circular_contain_pt;
use geometric::distance2d::line2line_sqrd;
use geometric::distance2d::line2seg_sqrd;
use geometric::distance2d::pt2line_sqrd;
use geometric::distance2d::pt2polygon_sqrd;
use geometric::distance2d::pt2polyline_sqrd;
use geometric::distance2d::pt2pt_sqrd;
use geometric::distance2d::pt2ray_sqrd;
use geometric::distance2d::pt2seg_sqrd;
use geometric::distance2d::ray2line_sqrd;
use geometric::geom2d::AABB;
use geometric::geom3d::Cube;
use geometric::geom3d::Frustum;
use geometric::geom3d::Plane;
use geometric::geom_common::Circular;
use geometric::geom_common::Line;
use geometric::geom_common::Ray;
use geometric::geom_common::Segment;
use geometric::geom_common::Triangle;
use geometric::intersect2d::is_circles_intersect;
use geometric::intersect2d::is_line_circle_intersect;
use geometric::intersect2d::is_line_intersect;
use geometric::intersect2d::is_ray_aabb_intersect;
use geometric::intersect2d::is_ray_circle_intersect;
use geometric::intersect2d::is_ray_seg_intersect;
use geometric::intersect2d::is_rect_intersect;
use geometric::intersect2d::is_seg_circle_intersect;
use geometric::intersect2d::line_circle_intersect;
use geometric::intersect2d::line_circle_intersect_param;
use geometric::intersect2d::line_intersect;
use geometric::intersect2d::line_intersect_param;
use geometric::intersect2d::line_ray_intersect_param;
use geometric::intersect2d::line_seg_intersect_param;
use geometric::intersect2d::ray_circle_intersect_param;
use geometric::intersect2d::ray_seg_intersect;
use geometric::intersect2d::rays_intersect;
use geometric::intersect2d::seg_circle_intersect_param;
use geometric::intersect2d::seg_intersect;
use geometric::intersect3d::line_sphere_intersect_param;
use geometric::intersect3d::planes_intersect;
use geometric::intersect3d::ray_sphere_intersect_param;
use geometric::intersect_common::clip_roots_to_ray;
use geometric::intersect_common::clip_roots_to_segment;
use geometric::intersect_common::is_circular_intersect;
use geometric::matrix::Vector2;
use geometric::matrix::Vector3;
use geometric::nearest2d::pt2rect;
use geometric::nearest_common::pt2line;
use geometric::nearest_common::pt2line_param;
use geometric::nearest_common::pt2ray;
use geometric::nearest_common::pt2ray_param;
use geometric::nearest_common::pt2segment;
use geometric::nearest_common::pt2segment_param;
use geometric::utility::approx_equal;
use geometric::utility::pow10;

type V2 = Vector2<f32>;
type V3 = Vector3<f32>;

fn root(x: f32) -> f32 {
    x.sqrt()
}

fn cut(x: f32) -> f32 {
    x.trunc()
}

fn v2(x: f32, y: f32) -> V2 {
    V2::from_xy(x, y)
}

fn close(a: f32, b: f32) -> bool {
    (a - b).abs() < 1e-4
}

fn close2(a: V2, x: f32, y: f32) -> bool {
    close(a.x(), x) && close(a.y(), y)
}

#[test]
fn segment_nearest_point_clamps_to_the_ends() {
    let s = Segment::new(v2(0.0, 0.0), v2(10.0, 0.0), &root);
    assert_eq!(pt2segment(&v2(-5.0, 3.0), &s), v2(0.0, 0.0));
    assert_eq!(pt2segment(&v2(15.0, -3.0), &s), v2(10.0, 0.0));
    assert_eq!(pt2segment(&v2(5.0, 7.0), &s), v2(5.0, 0.0));
    assert_eq!(pt2segment_param(&v2(-5.0, 3.0), &s), 0.0);
    assert_eq!(pt2segment_param(&v2(15.0, -3.0), &s), 10.0);
    assert_eq!(pt2segment_param(&v2(5.0, 7.0), &s), 5.0);
}

#[test]
fn projecting_a_projection_changes_nothing() {
    let s = Segment::new(v2(1.0, 1.0), v2(1.0, 9.0), &root);
    for p in [v2(4.0, 3.0), v2(-2.0, -7.0), v2(0.0, 20.0), v2(1.0, 5.0)] {
        let once = pt2segment(&p, &s);
        let twice = pt2segment(&once, &s);
        assert_eq!(once, twice);
    }
}

#[test]
fn squared_distance_is_the_squared_length_to_the_nearest_point() {
    let s = Segment::new(v2(0.0, 0.0), v2(3.0, 4.0), &root);
    for p in [v2(4.0, 3.0), v2(-2.0, -7.0), v2(10.0, 20.0)] {
        let near = pt2segment(&p, &s);
        assert_eq!(pt2seg_sqrd(&p, &s), (p - near).length_sqrd());
    }
    let s = Segment::new(v2(0.0, 0.0), v2(10.0, 0.0), &root);
    assert_eq!(pt2seg_sqrd(&v2(5.0, 7.0), &s), 49.0);
    assert_eq!(pt2seg_sqrd(&v2(-3.0, 4.0), &s), 25.0);
}

#[test]
fn segment_construction_round_trip() {
    let a = v2(1.0, 2.0);
    let b = v2(4.0, 6.0);
    let s = Segment::new(a, b, &root);
    assert_eq!(s.0.len, (b - a).length(&root));
    assert_eq!(s.0.len, 5.0);
    assert!(close(s.0.dir.length(&root), 1.0));
    assert!(close2(s.0.dir, 0.6, 0.8));
    assert_eq!(s.0.start, a);
}

#[test]
fn line_and_ray_store_a_unit_direction_and_length_one() {
    let l = Line::new(v2(1.0, 1.0), v2(0.0, 5.0), &root);
    assert_eq!(l.0.dir, v2(0.0, 1.0));
    assert_eq!(l.0.len, 1.0);
    let r = Ray::new(V3::from_xyz(0.0, 0.0, 0.0), V3::from_xyz(0.0, 0.0, -2.0), &root);
    assert_eq!(r.0.dir, V3::from_xyz(0.0, 0.0, -1.0));
    assert_eq!(r.0.len, 1.0);
}

#[test]
fn line_and_ray_nearest_points() {
    let start = v2(0.0, 0.0);
    let dir = v2(1.0, 0.0);
    assert_eq!(pt2line_param(&v2(-5.0, 3.0), &start, &dir), -5.0);
    assert_eq!(pt2line(&v2(-5.0, 3.0), &start, &dir), v2(-5.0, 0.0));
    let r = Ray::new(start, dir, &root);
    assert_eq!(pt2ray_param(&v2(-5.0, 3.0), &r), 0.0);
    assert_eq!(pt2ray_param(&v2(7.0, 3.0), &r), 7.0);
    assert_eq!(pt2ray(&v2(-5.0, 3.0), &r), v2(0.0, 0.0));
    assert_eq!(pt2ray(&v2(7.0, 3.0), &r), v2(7.0, 0.0));
    assert_eq!(pt2ray_sqrd(&v2(-3.0, 4.0), &r), 25.0);
    let l = Line::new(start, dir, &root);
    assert_eq!(pt2line_sqrd(&v2(-3.0, 4.0), &l), 16.0);
    assert_eq!(pt2pt_sqrd(&v2(1.0, 1.0), &v2(4.0, 5.0)), 25.0);
}

#[test]
fn tangent_circles_touch_in_one_point() {
    let c1 = Circular::new(v2(0.0, 0.0), 3.0);
    let c2 = Circular::new(v2(6.0, 0.0), 3.0);
    assert!(is_circles_intersect(&c1, &c2));
    let (p, q) = circles_intersect(&c1, &c2, &root, &cut);
    assert_eq!(p, v2(3.0, 0.0));
    assert!(q.is_none());
}

#[test]
fn inner_tangent_circles_touch_in_one_point() {
    let small = Circular::new(v2(1.0, 0.0), 1.0);
    let big = Circular::new(v2(2.0, 0.0), 2.0);
    let (p, q) = circles_intersect(&small, &big, &root, &cut);
    assert_eq!(p, v2(0.0, 0.0));
    assert!(q.is_none());
    let (p, q) = circles_intersect(&big, &small, &root, &cut);
    assert_eq!(p, v2(0.0, 0.0));
    assert!(q.is_none());
}

#[test]
fn crossing_circles_meet_in_two_mirrored_points() {
    let c1 = Circular::new(v2(0.0, 0.0), 5.0);
    let c2 = Circular::new(v2(6.0, 0.0), 5.0);
    let (p, q) = circles_intersect(&c1, &c2, &root, &cut);
    let q = q.unwrap();
    assert!(close2(p, 3.0, 4.0));
    assert!(close2(q, 3.0, -4.0));
}

#[test]
fn circles_stacked_vertically_meet_left_and_right() {
    let c1 = Circular::new(v2(0.0, 0.0), 5.0);
    let c2 = Circular::new(v2(0.0, 6.0), 5.0);
    let (p, q) = circles_intersect(&c1, &c2, &root, &cut);
    let q = q.unwrap();
    assert!(close2(p, 4.0, 3.0));
    assert!(close2(q, -4.0, 3.0));
}

#[test]
fn circle_existence_test() {
    let c1 = Circular::new(v2(0.0, 0.0), 3.0);
    assert!(is_circular_intersect(&c1, &Circular::new(v2(5.0, 0.0), 3.0)));
    assert!(!is_circular_intersect(&c1, &Circular::new(v2(7.0, 0.0), 3.0)));
    assert!(!is_circular_intersect(&c1, &Circular::new(v2(0.5, 0.0), 1.0)));
    let s1 = Circular::new(V3::from_xyz(0.0, 0.0, 0.0), 1.0);
    let s2 = Circular::new(V3::from_xyz(0.0, 0.0, 2.0), 1.0);
    assert!(is_circular_intersect(&s1, &s2));
}

#[test]
fn tangent_line_meets_the_circle_once() {
    let c = Circular::new(v2(0.0, 0.0), 2.0);
    let l = Line::new(v2(-5.0, 2.0), v2(1.0, 0.0), &root);
    assert_eq!(
        line_circle_intersect_param(&l, &c, &root, &cut),
        Some((5.0, None))
    );
    assert_eq!(
        line_circle_intersect(&l, &c, &root, &cut),
        Some((v2(0.0, 2.0), None))
    );
}

#[test]
fn line_through_the_centre_meets_the_circle_twice() {
    let c = Circular::new(v2(0.0, 0.0), 2.0);
    let l = Line::new(v2(-5.0, 0.0), v2(1.0, 0.0), &root);
    let centre = pt2line_param(&c.center, &l.0.start, &l.0.dir);
    let (a, b) = line_circle_intersect_param(&l, &c, &root, &cut).unwrap();
    let b = b.unwrap();
    assert_eq!((a, b), (3.0, 7.0));
    assert_eq!(centre - a, b - centre);
    assert_eq!(
        line_circle_intersect(&l, &c, &root, &cut),
        Some((v2(-2.0, 0.0), Some(v2(2.0, 0.0))))
    );
}

#[test]
fn line_that_misses_the_circle() {
    let c = Circular::new(v2(0.0, 0.0), 2.0);
    let l = Line::new(v2(-5.0, 3.0), v2(1.0, 0.0), &root);
    assert_eq!(line_circle_intersect_param(&l, &c, &root, &cut), None);
    assert!(!is_line_circle_intersect(&l, &c));
    let through = Line::new(v2(-5.0, 1.0), v2(1.0, 0.0), &root);
    assert!(is_line_circle_intersect(&through, &c));
}

#[test]
fn ray_keeps_the_roots_ahead_of_its_start() {
    let c = Circular::new(v2(0.0, 0.0), 2.0);
    let outside = Ray::new(v2(-5.0, 0.0), v2(1.0, 0.0), &root);
    assert_eq!(
        ray_circle_intersect_param(&outside, &c, &root, &cut),
        Some((3.0, Some(7.0)))
    );
    let inside = Ray::new(v2(0.0, 0.0), v2(1.0, 0.0), &root);
    assert_eq!(
        ray_circle_intersect_param(&inside, &c, &root, &cut),
        Some((2.0, None))
    );
    let away = Ray::new(v2(5.0, 0.0), v2(1.0, 0.0), &root);
    assert_eq!(ray_circle_intersect_param(&away, &c, &root, &cut), None);
    assert!(is_ray_circle_intersect(&outside, &c, &root, &cut));
    assert!(!is_ray_circle_intersect(&away, &c, &root, &cut));
}

#[test]
fn clipping_roots_to_a_ray() {
    assert_eq!(clip_roots_to_ray::<f32>(None), None);
    assert_eq!(clip_roots_to_ray(Some((1.0f32, Some(2.0)))), Some((1.0, Some(2.0))));
    assert_eq!(clip_roots_to_ray(Some((-1.0f32, Some(2.0)))), Some((2.0, None)));
    assert_eq!(clip_roots_to_ray(Some((-2.0f32, Some(-1.0)))), None);
    assert_eq!(clip_roots_to_ray(Some((-2.0f32, None))), None);
    assert_eq!(clip_roots_to_ray(Some((0.0f32, None))), Some((0.0, None)));
}

#[test]
fn clipping_roots_to_a_segment() {
    assert_eq!(clip_roots_to_segment::<f32>(None, 10.0), None);
    assert_eq!(
        clip_roots_to_segment(Some((3.0f32, Some(7.0))), 10.0),
        Some((3.0, Some(7.0)))
    );
    assert_eq!(
        clip_roots_to_segment(Some((3.0f32, Some(7.0))), 5.0),
        Some((3.0, None))
    );
    assert_eq!(
        clip_roots_to_segment(Some((-3.0f32, Some(7.0))), 10.0),
        Some((7.0, None))
    );
    assert_eq!(clip_roots_to_segment(Some((-3.0f32, Some(17.0))), 10.0), None);
    assert_eq!(
        clip_roots_to_segment(Some((3.0f32, Some(10.0))), 10.0),
        Some((3.0, Some(10.0)))
    );
    assert_eq!(
        clip_roots_to_segment(Some((-2.0f32, Some(2.0))), 2.0),
        Some((2.0, None))
    );
    assert_eq!(
        clip_roots_to_segment(Some((0.0f32, Some(10.5))), 10.0),
        Some((0.0, None))
    );
    assert_eq!(
        clip_roots_to_segment(Some((10.0f32, None)), 10.0),
        Some((10.0, None))
    );
}

#[test]
fn segment_against_circle() {
    let c = Circular::new(v2(0.0, 0.0), 2.0);
    let long = Segment::new(v2(-5.0, 0.0), v2(5.0, 0.0), &root);
    assert_eq!(
        seg_circle_intersect_param(&long, &c, &root, &cut),
        Some((3.0, Some(7.0)))
    );
    let short = Segment::new(v2(-5.0, 0.0), v2(0.0, 0.0), &root);
    assert_eq!(
        seg_circle_intersect_param(&short, &c, &root, &cut),
        Some((3.0, None))
    );
    assert!(is_seg_circle_intersect(&short, &c));
    let far = Segment::new(v2(-5.0, 0.0), v2(-4.0, 0.0), &root);
    assert_eq!(seg_circle_intersect_param(&far, &c, &root, &cut), None);
    assert!(!is_seg_circle_intersect(&far, &c));
}

#[test]
fn sphere_roots() {
    let s = Circular::new(V3::from_xyz(0.0, 0.0, 0.0), 1.0);
    let l = Line::new(V3::from_xyz(0.0, 0.0, -5.0), V3::from_xyz(0.0, 0.0, 1.0), &root);
    assert_eq!(
        line_sphere_intersect_param(&l, &s, &root, &cut),
        Some((4.0, Some(6.0)))
    );
    let r = Ray::new(V3::from_xyz(0.0, 0.0, 0.0), V3::from_xyz(0.0, 0.0, 1.0), &root);
    assert_eq!(
        ray_sphere_intersect_param(&r, &s, &root, &cut),
        Some((1.0, None))
    );
    let miss = Ray::new(V3::from_xyz(0.0, 3.0, 0.0), V3::from_xyz(0.0, 0.0, 1.0), &root);
    assert_eq!(ray_sphere_intersect_param(&miss, &s, &root, &cut), None);
}

#[test]
fn parallel_lines_have_the_squared_offset_as_distance() {
    let l1 = Line::new(v2(0.0, 0.0), v2(1.0, 0.0), &root);
    let l2 = Line::new(v2(0.0, 3.0), v2(1.0, 0.0), &root);
    assert_eq!(line2line_sqrd(&l1, &l2, &root, &cut), Some(9.0));
    assert_eq!(line2line_sqrd(&l2, &l1, &root, &cut), Some(9.0));
    let l3 = Line::new(v2(0.0, 0.0), v2(1.0, 1.0), &root);
    assert_eq!(line2line_sqrd(&l1, &l3, &root, &cut), None);
}

#[test]
fn ray_to_line_distance() {
    let l = Line::new(v2(0.0, 0.0), v2(1.0, 0.0), &root);
    let along = Ray::new(v2(0.0, 2.0), v2(1.0, 0.0), &root);
    assert_eq!(ray2line_sqrd(&l, &along, &root, &cut), Some(4.0));
    let away = Ray::new(v2(0.0, 2.0), v2(0.0, 1.0), &root);
    assert_eq!(ray2line_sqrd(&l, &away, &root, &cut), Some(4.0));
    let toward = Ray::new(v2(0.0, 2.0), v2(0.0, -1.0), &root);
    assert_eq!(ray2line_sqrd(&l, &toward, &root, &cut), None);
}

#[test]
fn line_to_segment_distance() {
    let l = Line::new(v2(0.0, 0.0), v2(1.0, 0.0), &root);
    let above = Segment::new(v2(1.0, 2.0), v2(1.0, 5.0), &root);
    assert_eq!(line2seg_sqrd(&l, &above), Some(4.0));
    let across = Segment::new(v2(1.0, -2.0), v2(1.0, 5.0), &root);
    assert_eq!(line2seg_sqrd(&l, &across), None);
}

#[test]
fn polyline_distance() {
    let none: [V2; 0] = [];
    assert_eq!(pt2polyline_sqrd(&v2(0.0, 0.0), &none, &root), None);
    assert_eq!(
        pt2polyline_sqrd(&v2(0.0, 0.0), &[v2(3.0, 4.0)], &root),
        Some(25.0)
    );
    let line = [v2(0.0, 0.0), v2(10.0, 0.0), v2(10.0, 10.0)];
    assert_eq!(pt2polyline_sqrd(&v2(5.0, 3.0), &line, &root), Some(9.0));
    assert_eq!(pt2polyline_sqrd(&v2(8.0, 5.0), &line, &root), Some(4.0));
    assert_eq!(pt2polyline_sqrd(&v2(12.0, 12.0), &line, &root), Some(8.0));
}

#[test]
fn polygon_distance_counts_the_closing_edge() {
    let tri = [v2(0.0, 0.0), v2(10.0, 0.0), v2(10.0, 10.0)];
    assert_eq!(pt2polygon_sqrd(&v2(0.0, 0.0), &tri[..1], &root), None);
    let none: [V2; 0] = [];
    assert_eq!(pt2polygon_sqrd(&v2(0.0, 0.0), &none, &root), None);
    let d = pt2polygon_sqrd(&v2(4.0, 6.0), &tri, &root).unwrap();
    assert!(close(d, 2.0));
    assert_eq!(pt2polygon_sqrd(&v2(5.0, -1.0), &tri, &root), Some(1.0));
}

#[test]
fn touching_boxes_do_not_overlap() {
    let a = AABB::from_center(v2(0.0, 0.0), v2(1.0, 1.0));
    let touching = AABB::from_center(v2(3.0, 0.0), v2(2.0, 1.0));
    assert!(!is_rect_intersect(&a, &touching));
    assert!(!is_rect_intersect(&touching, &a));
    let overlapping = AABB::from_center(v2(2.5, 0.0), v2(2.0, 1.0));
    assert!(is_rect_intersect(&a, &overlapping));
    let above = AABB::from_center(v2(0.0, 2.0), v2(1.0, 1.0));
    assert!(!is_rect_intersect(&a, &above));
    let apart = AABB::from_center(v2(9.0, 9.0), v2(1.0, 1.0));
    assert!(!is_rect_intersect(&a, &apart));
}

#[test]
fn box_constructors_and_corners() {
    let b = AABB::from_min_size(v2(1.0, 2.0), v2(4.0, 6.0));
    assert_eq!(b.center, v2(3.0, 5.0));
    assert_eq!(b.half_size, v2(2.0, 3.0));
    assert_eq!(b.min(), v2(1.0, 2.0));
    assert_eq!(b.max(), v2(5.0, 8.0));
    assert_eq!(b.size(), v2(4.0, 6.0));
    let c = AABB::from_min_max(v2(1.0, 2.0), v2(5.0, 8.0));
    assert_eq!(c.center, v2(3.0, 5.0));
    assert_eq!(c.half_size, v2(2.0, 3.0));
    let cube = Cube::from_min_max(V3::from_xyz(0.0, 0.0, 0.0), V3::from_xyz(2.0, 4.0, 6.0));
    assert_eq!(cube.center, V3::from_xyz(1.0, 2.0, 3.0));
    assert_eq!(cube.half_len, V3::from_xyz(1.0, 2.0, 3.0));
    let same = Cube::from_center(cube.center, cube.half_len);
    assert_eq!(same.center, cube.center);
    let f = Frustum::new(0.1f32, 100.0, 0.5, 1.5);
    assert_eq!((f.near, f.far, f.half_fovy, f.aspect), (0.1, 100.0, 0.5, 1.5));
}

#[test]
fn point_containment() {
    let b = AABB::from_min_size(v2(0.0, 0.0), v2(4.0, 2.0));
    assert!(is_rect_contain_pt(&v2(1.0, 1.0), &b));
    assert!(is_rect_contain_pt(&v2(0.0, 0.0), &b));
    assert!(is_rect_contain_pt(&v2(4.0, 2.0), &b));
    assert!(!is_rect_contain_pt(&v2(4.5, 1.0), &b));
    assert!(!is_rect_contain_pt(&v2(1.0, -0.5), &b));
    let c = Circular::new(v2(0.0, 0.0), 5.0);
    assert!(is_circle_contain_pt(&c, &v2(3.0, 4.0)));
    assert!(!is_circle_contain_pt(&c, &v2(3.0, 4.5)));
    let s = Circular::new(V3::from_xyz(0.0, 0.0, 0.0), 3.0);
    assert!(is_circular_contain_pt(&s, &V3::from_xyz(1.0, 2.0, 2.0)));
    assert!(!is_circular_contain_pt(&s, &V3::from_xyz(2.0, 2.0, 2.0)));
}

#[test]
fn nearest_point_on_a_box() {
    let b = AABB::from_min_size(v2(0.0, 0.0), v2(4.0, 2.0));
    assert_eq!(pt2rect(&v2(1.0, 1.0), &b), v2(1.0, 1.0));
    assert_eq!(pt2rect(&v2(6.0, 1.0), &b), v2(4.0, 1.0));
    assert_eq!(pt2rect(&v2(-3.0, 5.0), &b), v2(0.0, 2.0));
    assert_eq!(pt2rect(&v2(2.0, -1.0), &b), v2(2.0, 0.0));
}

#[test]
fn crossing_lines() {
    let l1 = Line::new(v2(0.0, 0.0), v2(1.0, 0.0), &root);
    let l2 = Line::new(v2(3.0, -2.0), v2(0.0, 1.0), &root);
    assert_eq!(line_intersect_param(&l1, &l2, &cut), Some(3.0));
    assert_eq!(line_intersect(&l1, &l2, &cut), Some(v2(3.0, 0.0)));
    let l3 = Line::new(v2(0.0, 1.0), v2(2.0, 0.0), &root);
    assert_eq!(line_intersect_param(&l1, &l3, &cut), None);
    assert_eq!(line_intersect(&l1, &l3, &cut), None);
    assert!(l1.0.is_parallel(&l3.0));
    assert!(!l1.0.is_parallel(&l2.0));
    assert!(l1.0.is_parallel_approx(&l3.0, 6, &cut));
}

#[test]
fn segments_and_rays_against_lines() {
    let l = Line::new(v2(3.0, -2.0), v2(0.0, 1.0), &root);
    let s = Segment::new(v2(0.0, 0.0), v2(5.0, 0.0), &root);
    assert_eq!(line_seg_intersect_param(&s, &l, &cut), Some(3.0));
    let short = Segment::new(v2(0.0, 0.0), v2(2.0, 0.0), &root);
    assert_eq!(line_seg_intersect_param(&short, &l, &cut), None);
    let r = Ray::new(v2(0.0, 0.0), v2(1.0, 0.0), &root);
    assert_eq!(line_ray_intersect_param(&r, &l, &cut), Some(3.0));
    let back = Ray::new(v2(0.0, 0.0), v2(-1.0, 0.0), &root);
    assert_eq!(line_ray_intersect_param(&back, &l, &cut), None);
}

#[test]
fn rays_and_segments_against_each_other() {
    let seg = Segment::new(v2(0.0, 0.0), v2(5.0, 0.0), &root);
    let up = Ray::new(v2(3.0, -2.0), v2(0.0, 1.0), &root);
    let down = Ray::new(v2(3.0, -2.0), v2(0.0, -1.0), &root);
    assert_eq!(ray_seg_intersect(&seg, &up, &cut), Some(v2(3.0, 0.0)));
    assert_eq!(ray_seg_intersect(&seg, &down, &cut), None);
    assert!(is_ray_seg_intersect(&up, &seg, &cut));
    assert!(!is_ray_seg_intersect(&down, &seg, &cut));
    let other = Segment::new(v2(3.0, -2.0), v2(3.0, 2.0), &root);
    assert_eq!(seg_intersect(&seg, &other, &cut), Some(v2(3.0, 0.0)));
    let short = Segment::new(v2(3.0, -2.0), v2(3.0, -1.0), &root);
    assert_eq!(seg_intersect(&seg, &short, &cut), None);
    let r1 = Ray::new(v2(0.0, 0.0), v2(1.0, 0.0), &root);
    assert_eq!(rays_intersect(&r1, &up, &cut), Some(v2(3.0, 0.0)));
    assert_eq!(rays_intersect(&r1, &down, &cut), None);
    let l1 = Line(seg.0);
    let l2 = Line(other.0);
    assert!(is_line_intersect(&l1, &l2));
    assert!(!is_line_intersect(&l1, &Line(short.0)));
}

#[test]
fn ray_against_box() {
    let b = AABB::from_min_max(v2(0.0, 0.0), v2(4.0, 2.0));
    let inside = Ray::new(v2(1.0, 1.0), v2(1.0, 0.0), &root);
    assert!(is_ray_aabb_intersect(&inside, &b, &root, &cut));
    let hit = Ray::new(v2(-3.0, 1.0), v2(1.0, 0.0), &root);
    assert!(is_ray_aabb_intersect(&hit, &b, &root, &cut));
    let hit_right = Ray::new(v2(7.0, 1.0), v2(-1.0, 0.0), &root);
    assert!(is_ray_aabb_intersect(&hit_right, &b, &root, &cut));
    let miss = Ray::new(v2(-3.0, 1.0), v2(-1.0, 0.0), &root);
    assert!(!is_ray_aabb_intersect(&miss, &b, &root, &cut));
    let over = Ray::new(v2(-3.0, 5.0), v2(1.0, 0.0), &root);
    assert!(!is_ray_aabb_intersect(&over, &b, &root, &cut));
}

#[test]
fn outcodes() {
    let min = v2(0.0, 0.0);
    let max = v2(4.0, 2.0);
    assert_eq!(compute_outcode(&v2(1.0, 1.0), &min, &max), 0);
    assert_eq!(compute_outcode(&v2(-1.0, 1.0), &min, &max), 1);
    assert_eq!(compute_outcode(&v2(5.0, 1.0), &min, &max), 2);
    assert_eq!(compute_outcode(&v2(1.0, -1.0), &min, &max), 4);
    assert_eq!(compute_outcode(&v2(1.0, 3.0), &min, &max), 8);
    assert_eq!(compute_outcode(&v2(-1.0, 3.0), &min, &max), 9);
    assert_eq!(compute_outcode(&v2(5.0, -1.0), &min, &max), 6);
    assert_eq!(compute_outcode(&v2(0.0, 2.0), &min, &max), 0);
}

#[test]
fn line_clipping() {
    let min = v2(0.0, 0.0);
    let max = v2(4.0, 2.0);
    assert_eq!(
        cohen_sutherland_line_clip(&v2(1.0, 1.0), &v2(3.0, 1.5), &min, &max),
        Some((v2(1.0, 1.0), v2(3.0, 1.5)))
    );
    assert_eq!(
        cohen_sutherland_line_clip(&v2(-2.0, 3.0), &v2(-1.0, 5.0), &min, &max),
        None
    );
    assert_eq!(
        cohen_sutherland_line_clip(&v2(-2.0, 1.0), &v2(6.0, 1.0), &min, &max),
        Some((v2(0.0, 1.0), v2(4.0, 1.0)))
    );
    assert_eq!(
        cohen_sutherland_line_clip(&v2(2.0, -2.0), &v2(2.0, 6.0), &min, &max),
        Some((v2(2.0, 0.0), v2(2.0, 2.0)))
    );
    assert_eq!(
        cohen_sutherland_line_clip(&v2(-1.0, -1.0), &v2(5.0, 5.0), &min, &max),
        Some((v2(0.0, 0.0), v2(2.0, 2.0)))
    );
    assert_eq!(
        cohen_sutherland_line_clip(&v2(-2.0, 1.0), &v2(1.0, 4.0), &min, &max),
        None
    );
}

#[test]
fn approximate_equality_truncates() {
    assert!(approx_equal(1.2341f32, 1.2349, 3, &cut));
    assert!(!approx_equal(1.2345f32, 1.2355, 3, &cut));
    assert!(approx_equal(0.0000001f32, 0.0, 6, &cut));
    assert!(approx_equal(-0.0000001f32, 0.0, 6, &cut));
    assert!(!approx_equal(0.00001f32, 0.0, 6, &cut));
    assert!(approx_equal(7.9f32, 7.1, 0, &cut));
    assert!(!approx_equal(7.9f32, 8.0, 0, &cut));
    assert_eq!(pow10::<f32>(0), 1.0);
    assert_eq!(pow10::<f32>(3), 1000.0);
    assert_eq!(pow10::<i64>(6), 1_000_000);
}

#[test]
fn triangle_orientation() {
    let ccw = Triangle::new([v2(0.0, 0.0), v2(1.0, 0.0), v2(0.0, 1.0)]);
    assert!(!ccw.is_clockwise());
    let cw = Triangle::new([v2(0.0, 0.0), v2(0.0, 1.0), v2(1.0, 0.0)]);
    assert!(cw.is_clockwise());
}

#[test]
fn line_normal() {
    let flat = Line::new(v2(0.0, 0.0), v2(1.0, 0.0), &root);
    assert_eq!(flat.0.normal(&root), v2(0.0, 1.0));
    let up = Line::new(v2(0.0, 0.0), v2(0.0, 2.0), &root);
    assert_eq!(up.0.normal(&root), v2(1.0, -0.0));
    let slanted = Line::new(v2(0.0, 0.0), v2(3.0, 4.0), &root);
    assert!(close2(slanted.0.normal(&root), 0.8, -0.6));
}

#[test]
fn planes_meet_in_a_line() {
    let wall = Plane::new(V3::from_xyz(1.0, 0.0, 0.0), V3::from_xyz(1.0, 5.0, 5.0));
    let floor = Plane::new(V3::from_xyz(0.0, 1.0, 0.0), V3::from_xyz(7.0, 2.0, 7.0));
    let line = planes_intersect(&wall, &floor);
    assert_eq!(line.dir, V3::from_xyz(0.0, 0.0, 1.0));
    assert_eq!(line.start, V3::from_xyz(1.0, 2.0, 0.0));
    assert!(!wall.is_parallel(&floor, 5, &cut));
    assert!(wall.is_parallel(&wall, 5, &cut));
}

#[test]
fn three_dimensional_parallel_test() {
    let a = Line::new(V3::from_xyz(0.0, 0.0, 0.0), V3::from_xyz(1.0, 0.0, 0.0), &root);
    let b = Line::new(V3::from_xyz(0.0, 1.0, 0.0), V3::from_xyz(-2.0, 0.0, 0.0), &root);
    let c = Line::new(V3::from_xyz(0.0, 1.0, 0.0), V3::from_xyz(0.0, 1.0, 0.0), &root);
    assert!(a.0.is_parallel(&b.0));
    assert!(!a.0.is_parallel(&c.0));
    assert!(a.0.is_parallel_approx(&b.0, 6, &cut));
    assert!(!a.0.is_parallel_approx(&c.0, 6, &cut));
}

#[test]
fn integer_scalars_are_exact() {
    let start = Vector2::<i64>::from_xy(0, 0);
    let dir = Vector2::<i64>::from_xy(1, 0);
    let p = Vector2::<i64>::from_xy(-5, 3);
    assert_eq!(pt2line_param(&p, &start, &dir), -5);
    assert_eq!(pt2line(&p, &start, &dir), Vector2::<i64>::from_xy(-5, 0));
    let c1 = Circular::new(Vector2::<i64>::from_xy(0, 0), 3);
    let c2 = Circular::new(Vector2::<i64>::from_xy(6, 0), 3);
    assert!(is_circular_intersect(&c1, &c2));
    let c3 = Circular::new(Vector2::<i64>::from_xy(7, 0), 3);
    assert!(!is_circular_intersect(&c1, &c3));
}
