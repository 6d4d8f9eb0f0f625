use geometric::cg::Berycentric;
use geometric::cg::EularRotationXY;
use geometric::cg::EularRotationXYZ;
use geometric::cg::Scale;
use geometric::cg::Translation;
use geometric::conic::AngleRange;
use geometric::conic::Conic;
use geometric::conic::ConicArc;
use geometric::conic::ConicArcInPolar;
use geometric::conic::Ellipse;
use geometric::contain2d::is_obb_contain_pt;
use geometric::contain2d::is_polygon_contain_pt;
use geometric::contain2d::is_triangle_contain_pt;
use geometric::distance2d::pt2triangle_sqrd;
use geometric::distance2d::ray2ray_sqrd;
use geometric::distance2d::ray2seg_sqrd;
use geometric::distance2d::seg2seg_sqrd;
use geometric::error::GeomError;
use geometric::geom2d::OBB;
use geometric::geom_common::Ray;
use geometric::geom_common::Segment;
use geometric::geom_common::Triangle;
use geometric::matrix::Matrix;
use geometric::matrix::Vector2;
use geometric::matrix::Vector3;
use geometric::nearest2d::pt2triangle;

type V2 = Vector2<f32>;
type V3 = Vector3<f32>;

fn root(x: f32) -> f32 {
    x.sqrt()
}

fn cut(x: f32) -> f32 {
    x.trunc()
}

fn v2(x: f32, y: f32) -> V2 {
    V2::from_xy(x, y)
}

fn close(a: f32, b: f32) -> bool {
    (a - b).abs() < 1e-4
}

fn close2(a: V2, x: f32, y: f32) -> bool {
    close(a.x(), x) && close(a.y(), y)
}

#[test]
fn nearest_point_of_a_triangle() {
    let tri = Triangle::new([v2(0.0, 0.0), v2(4.0, 0.0), v2(0.0, 4.0)]);
    assert_eq!(pt2triangle(&v2(1.0, 1.0), &tri, &root), v2(1.0, 1.0));
    assert_eq!(pt2triangle(&v2(2.0, 0.0), &tri, &root), v2(2.0, 0.0));
    assert_eq!(pt2triangle(&v2(2.0, -3.0), &tri, &root), v2(2.0, 0.0));
    assert_eq!(pt2triangle(&v2(-5.0, 1.0), &tri, &root), v2(0.0, 1.0));
    assert_eq!(pt2triangle(&v2(-1.0, -1.0), &tri, &root), v2(0.0, 0.0));
    assert_eq!(pt2triangle(&v2(6.0, -1.0), &tri, &root), v2(4.0, 0.0));
    assert_eq!(pt2triangle(&v2(-2.0, 7.0), &tri, &root), v2(0.0, 4.0));
    assert!(close2(pt2triangle(&v2(4.0, 4.0), &tri, &root), 2.0, 2.0));
    let clockwise = Triangle::new([v2(0.0, 0.0), v2(0.0, 4.0), v2(4.0, 0.0)]);
    assert_eq!(pt2triangle(&v2(1.0, 1.0), &clockwise, &root), v2(1.0, 1.0));
    assert_eq!(pt2triangle(&v2(2.0, -3.0), &clockwise, &root), v2(2.0, 0.0));
}

#[test]
fn distance_to_a_triangle() {
    let tri = Triangle::new([v2(0.0, 0.0), v2(4.0, 0.0), v2(0.0, 4.0)]);
    assert_eq!(pt2triangle_sqrd(&v2(1.0, 1.0), &tri, &root), Some(0.0));
    assert_eq!(pt2triangle_sqrd(&v2(2.0, -3.0), &tri, &root), Some(9.0));
    assert_eq!(pt2triangle_sqrd(&v2(-1.0, -1.0), &tri, &root), Some(2.0));
    assert_eq!(pt2triangle_sqrd(&v2(6.0, -1.0), &tri, &root), Some(5.0));
    let d = pt2triangle_sqrd(&v2(4.0, 4.0), &tri, &root).unwrap();
    assert!(close(d, 8.0));
    let p = v2(-3.0, 9.0);
    let near = pt2triangle(&p, &tri, &root);
    assert_eq!(pt2triangle_sqrd(&p, &tri, &root), Some((p - near).length_sqrd()));
}

#[test]
fn triangle_containment() {
    let tri = Triangle::new([v2(0.0, 0.0), v2(4.0, 0.0), v2(0.0, 4.0)]);
    assert!(is_triangle_contain_pt(&v2(1.0, 1.0), &tri));
    assert!(is_triangle_contain_pt(&v2(0.0, 0.0), &tri));
    assert!(is_triangle_contain_pt(&v2(2.0, 2.0), &tri));
    assert!(!is_triangle_contain_pt(&v2(3.0, 3.0), &tri));
    assert!(!is_triangle_contain_pt(&v2(-1.0, 1.0), &tri));
    assert!(!is_triangle_contain_pt(&v2(1.0, -1.0), &tri));
}

#[test]
fn distance_between_segments() {
    let s1 = Segment::new(v2(0.0, 0.0), v2(4.0, 0.0), &root);
    let above = Segment::new(v2(0.0, 3.0), v2(4.0, 3.0), &root);
    assert_eq!(seg2seg_sqrd(&s1, &above, &cut), Some(9.0));
    assert_eq!(seg2seg_sqrd(&above, &s1, &cut), Some(9.0));
    let across = Segment::new(v2(2.0, -1.0), v2(2.0, 1.0), &root);
    assert_eq!(seg2seg_sqrd(&s1, &across, &cut), None);
    assert_eq!(seg2seg_sqrd(&across, &s1, &cut), None);
    let ahead = Segment::new(v2(6.0, 0.0), v2(9.0, 0.0), &root);
    assert_eq!(seg2seg_sqrd(&s1, &ahead, &cut), Some(4.0));
    let upright = Segment::new(v2(2.0, 1.0), v2(2.0, 5.0), &root);
    assert_eq!(seg2seg_sqrd(&s1, &upright, &cut), Some(1.0));
    assert_eq!(seg2seg_sqrd(&upright, &s1, &cut), Some(1.0));
    let beside = Segment::new(v2(7.0, -2.0), v2(7.0, 2.0), &root);
    assert_eq!(seg2seg_sqrd(&s1, &beside, &cut), Some(9.0));
    let slanted = Segment::new(v2(5.0, 1.0), v2(8.0, 5.0), &root);
    assert_eq!(seg2seg_sqrd(&s1, &slanted, &cut), Some(2.0));
}

#[test]
fn distance_between_rays() {
    let r1 = Ray::new(v2(0.0, 0.0), v2(1.0, 0.0), &root);
    let level = Ray::new(v2(0.0, 3.0), v2(1.0, 0.0), &root);
    assert_eq!(ray2ray_sqrd(&r1, &level, &cut), Some(9.0));
    let toward = Ray::new(v2(2.0, -2.0), v2(0.0, 1.0), &root);
    assert_eq!(ray2ray_sqrd(&r1, &toward, &cut), None);
    assert_eq!(ray2ray_sqrd(&toward, &r1, &cut), None);
    let away = Ray::new(v2(2.0, 2.0), v2(0.0, 1.0), &root);
    assert_eq!(ray2ray_sqrd(&r1, &away, &cut), Some(4.0));
    assert_eq!(ray2ray_sqrd(&away, &r1, &cut), Some(4.0));
    let behind = Ray::new(v2(-3.0, 4.0), v2(0.0, 1.0), &root);
    assert_eq!(ray2ray_sqrd(&r1, &behind, &cut), Some(25.0));
}

#[test]
fn distance_between_ray_and_segment() {
    let ray = Ray::new(v2(0.0, 0.0), v2(1.0, 0.0), &root);
    let upright = Segment::new(v2(2.0, 1.0), v2(2.0, 5.0), &root);
    assert_eq!(ray2seg_sqrd(&ray, &upright, &cut), Some(1.0));
    let hanging = Segment::new(v2(2.0, 5.0), v2(2.0, 1.0), &root);
    assert_eq!(ray2seg_sqrd(&ray, &hanging, &cut), Some(1.0));
    let across = Segment::new(v2(2.0, -1.0), v2(2.0, 1.0), &root);
    assert_eq!(ray2seg_sqrd(&ray, &across, &cut), None);
    let behind = Segment::new(v2(-3.0, 1.0), v2(-3.0, 4.0), &root);
    assert_eq!(ray2seg_sqrd(&ray, &behind, &cut), Some(10.0));
    let back_across = Segment::new(v2(-3.0, -2.0), v2(-3.0, 2.0), &root);
    assert_eq!(ray2seg_sqrd(&ray, &back_across, &cut), Some(9.0));
}

#[test]
fn polygon_containment() {
    let square = [v2(0.0, 0.0), v2(4.0, 0.0), v2(4.0, 4.0), v2(0.0, 4.0)];
    assert_eq!(is_polygon_contain_pt(&v2(2.0, 2.0), &square), Ok(true));
    assert_eq!(is_polygon_contain_pt(&v2(5.0, 2.0), &square), Ok(false));
    assert_eq!(is_polygon_contain_pt(&v2(-1.0, 2.0), &square), Ok(false));
    assert_eq!(is_polygon_contain_pt(&v2(2.0, 5.0), &square), Ok(false));
    assert_eq!(is_polygon_contain_pt(&v2(-1.0, 0.0), &square), Ok(false));
    assert_eq!(is_polygon_contain_pt(&v2(-1.0, 4.0), &square), Ok(false));
    let angle = [
        v2(0.0, 0.0),
        v2(4.0, 0.0),
        v2(4.0, 1.0),
        v2(1.0, 1.0),
        v2(1.0, 4.0),
        v2(0.0, 4.0),
    ];
    assert_eq!(is_polygon_contain_pt(&v2(0.5, 3.0), &angle), Ok(true));
    assert_eq!(is_polygon_contain_pt(&v2(3.0, 0.5), &angle), Ok(true));
    assert_eq!(is_polygon_contain_pt(&v2(3.0, 3.0), &angle), Ok(false));
    assert_eq!(is_polygon_contain_pt(&v2(-0.5, 0.5), &angle), Ok(false));
    let tri = [v2(0.0, 0.0), v2(4.0, 0.0), v2(0.0, 4.0)];
    assert_eq!(is_polygon_contain_pt(&v2(1.0, 1.0), &tri), Ok(true));
    assert_eq!(is_polygon_contain_pt(&v2(3.0, 3.0), &tri), Ok(false));
}

#[test]
fn fewer_than_three_corners_are_no_polygon() {
    let none: [V2; 0] = [];
    assert_eq!(
        is_polygon_contain_pt(&v2(0.0, 0.0), &none),
        Err(GeomError::NotSupported)
    );
    assert_eq!(
        is_polygon_contain_pt(&v2(0.0, 0.0), &[v2(0.0, 0.0)]),
        Err(GeomError::NotSupported)
    );
    assert_eq!(
        is_polygon_contain_pt(&v2(1.0, 0.0), &[v2(0.0, 0.0), v2(2.0, 0.0)]),
        Err(GeomError::NotSupported)
    );
}

#[test]
fn integer_triangle_and_polygon() {
    let tri = Triangle::new([
        Vector2::<i64>::from_xy(0, 0),
        Vector2::<i64>::from_xy(4, 0),
        Vector2::<i64>::from_xy(0, 4),
    ]);
    let inside = Vector2::<i64>::from_xy(1, 1);
    let below = Vector2::<i64>::from_xy(2, -3);
    assert!(is_triangle_contain_pt(&inside, &tri));
    assert!(!is_triangle_contain_pt(&below, &tri));
    assert_eq!(is_polygon_contain_pt(&inside, &tri.pts), Ok(true));
    assert_eq!(is_polygon_contain_pt(&below, &tri.pts), Ok(false));
}

#[test]
fn oriented_box() {
    let mut b = OBB::new(v2(0.0, 0.0), v2(2.0, 1.0));
    assert_eq!(b.rotation(), 0.0);
    assert_eq!(b.x_axis(), v2(1.0, 0.0));
    assert_eq!(b.y_axis(), v2(0.0, 1.0));
    assert!(is_obb_contain_pt(&v2(1.5, 0.5), &b));
    assert!(!is_obb_contain_pt(&v2(0.5, 1.5), &b));
    assert!(!is_obb_contain_pt(&v2(2.0, 0.0), &b));
    let quarter = std::f32::consts::FRAC_PI_2;
    b.set_rotation(quarter, &|x: f32| x.sin(), &|x: f32| x.cos());
    assert_eq!(b.rotation(), quarter);
    assert!(close2(b.x_axis(), 0.0, 1.0));
    assert!(close2(b.y_axis(), -1.0, 0.0));
    assert!(!is_obb_contain_pt(&v2(1.5, 0.5), &b));
    assert!(is_obb_contain_pt(&v2(0.5, 1.5), &b));
    assert_eq!(b.center, v2(0.0, 0.0));
    assert_eq!(b.half_size, v2(2.0, 1.0));
}

#[test]
fn triangle_orientation_in_space() {
    let up = Triangle::new([
        V3::from_xyz(0.0, 0.0, 0.0),
        V3::from_xyz(1.0, 0.0, 0.0),
        V3::from_xyz(0.0, 1.0, 0.0),
    ]);
    assert!(!up.is_clockwise());
    let down = Triangle::new([
        V3::from_xyz(0.0, 0.0, 0.0),
        V3::from_xyz(0.0, 1.0, 0.0),
        V3::from_xyz(1.0, 0.0, 0.0),
    ]);
    assert!(down.is_clockwise());
}

#[test]
fn frames_and_conics() {
    let e = Ellipse {
        x_axis: V3::from_xyz(1.0, 0.0, 0.0),
        normal: V3::from_xyz(0.0, 1.0, 0.0),
        a: 2.0f32,
        b: 1.0,
        position: V3::from_xyz(7.0, 8.0, 9.0),
    };
    let frame = e.get_coord();
    assert_eq!(frame.x_axis(), e.x_axis);
    assert_eq!(frame.y_axis(), e.normal);
    assert_eq!(frame.z_axis(), V3::from_xyz(0.0, 0.0, 1.0));
    assert_eq!(frame.position(), e.position);
    assert_eq!(
        *frame.get_mat(),
        Matrix::<f32, 4, 4>::from_row(&[
            1.0, 0.0, 0.0, 7.0, 0.0, 1.0, 0.0, 8.0, 0.0, 0.0, 1.0, 9.0, 0.0, 0.0, 0.0, 1.0
        ])
    );
    assert_eq!(
        *frame.get_inv_mat(),
        Matrix::<f32, 4, 4>::from_row(&[
            1.0, 0.0, 0.0, -7.0, 0.0, 1.0, 0.0, -8.0, 0.0, 0.0, 1.0, -9.0, 0.0, 0.0, 0.0, 1.0
        ])
    );
    let arc = ConicArc { conic: Conic::Ellipse(e), range: AngleRange { from: 0.0, to: 1.0 } };
    assert_eq!(arc.center(), e.position);
    assert_eq!(arc.normal(), e.normal);
    assert_eq!(arc.x_axis(), e.x_axis);

    let range = AngleRange { from: 0.0f32, to: 3.0 };
    let o = V3::from_xyz(0.0, 0.0, 0.0);
    let polar = |p: f32, ecc: f32| ConicArcInPolar::new(p, ecc, o, e.x_axis, e.normal, range);
    let ellipse = polar(3.0, 0.5);
    assert!(ellipse.is_ellipse() && !ellipse.is_parabola() && !ellipse.is_hyperbola());
    let parabola = polar(3.0, 1.0);
    assert!(!parabola.is_ellipse() && parabola.is_parabola() && !parabola.is_hyperbola());
    let hyperbola = polar(3.0, 2.0);
    assert!(!hyperbola.is_ellipse() && !hyperbola.is_parabola() && hyperbola.is_hyperbola());
    assert_eq!(ellipse.get_focal_len(), 1.0);
    assert_eq!(ellipse.get_major_axis_len(), 2.0);
    assert!(close(ellipse.get_minor_axis_len(&root), 3.0f32.sqrt()));
    assert_eq!(parabola.get_focal_len(), -1.5);
    assert_eq!(ellipse.calc_l(0.0, &|x: f32| x.cos()), 3.0);
    assert!(ellipse.contain(&V3::from_xyz(1.0, 0.0, 0.0), &root));
    assert!(!ellipse.contain(&V3::from_xyz(1.0, 5.0, 0.0), &root));
    assert!(parabola.contain(&V3::from_xyz(3.0, 1.0, 0.0), &root));
    assert!(!parabola.contain(&V3::from_xyz(0.0, 1.0, 0.0), &root));
}

#[test]
fn scalings_translations_and_barycentric_coordinates() {
    let s = Scale::new(2.0f32, 3.0, 4.0).chain(&Scale::new(0.5, 2.0, 1.0));
    assert_eq!((s.x(), s.y(), s.z()), (1.0, 6.0, 4.0));
    assert_eq!(
        s.get_mat(),
        Matrix::<f32, 4, 4>::from_row(&[
            1.0, 0.0, 0.0, 0.0, 0.0, 6.0, 0.0, 0.0, 0.0, 0.0, 4.0, 0.0, 0.0, 0.0, 0.0, 1.0
        ])
    );
    let t = Translation::new(1.0f32, 2.0, 3.0).chain(&Translation::new(1.0, 1.0, 1.0));
    assert_eq!((t.x(), t.y(), t.z()), (2.0, 3.0, 4.0));
    assert_eq!(
        t.get_mat(),
        Matrix::<f32, 4, 4>::from_row(&[
            1.0, 0.0, 0.0, 2.0, 0.0, 1.0, 0.0, 3.0, 0.0, 0.0, 1.0, 4.0, 0.0, 0.0, 0.0, 1.0
        ])
    );
    let r = EularRotationXYZ::new(1.0f32, 2.0, 3.0).chain(EularRotationXYZ::new(1.0, 1.0, 1.0));
    assert_eq!((r.x, r.y, r.z), (2.0, 3.0, 4.0));
    let m = EularRotationXY::new(0.0f32).get_mat(&|x: f32| x.sin(), &|x: f32| x.cos());
    assert_eq!(m, Matrix::<f32, 2, 2>::from_row(&[1.0, -0.0, 0.0, 1.0]));
    let tri = [v2(0.0, 0.0), v2(4.0, 0.0), v2(0.0, 4.0)];
    let b = Berycentric::new(&tri, v2(1.0, 1.0));
    assert_eq!((b.alpha(), b.beta(), b.gamma()), (0.5, 0.25, 0.25));
}

#[test]
fn frame_maps_points_there_and_back() {
    let frame = geometric::coord::Cartesian3D::new(
        V3::from_xyz(1.0, 0.0, 0.0),
        V3::from_xyz(0.0, 1.0, 0.0),
        V3::from_xyz(0.0, 0.0, 1.0),
        V3::from_xyz(7.0, 8.0, 9.0),
    );
    let p = V3::from_xyz(1.0, 2.0, 3.0);
    let q = frame.transform(p);
    assert_eq!(q, V3::from_xyz(8.0, 10.0, 12.0));
    assert_eq!(frame.transform_inv(q), p);
}

#[test]
fn vector_conversions() {
    use_conversions();
}

fn use_conversions() {
    let a = Vector2::<i32>::from_xy(1, 2);
    let b = Vector3::<i32>::from_xyz(1, 2, 3);
    let c = geometric::matrix::Vector4::<i32>::from_xyzw(1, 2, 3, 4);
    assert_eq!(Vector3::<i32>::from(a), Vector3::<i32>::from_xyz(1, 2, 0));
    assert_eq!(
        geometric::matrix::Vector4::<i32>::from(a),
        geometric::matrix::Vector4::<i32>::from_xyzw(1, 2, 0, 1)
    );
    assert_eq!(
        geometric::matrix::Vector4::<i32>::from(b),
        geometric::matrix::Vector4::<i32>::from_xyzw(1, 2, 3, 1)
    );
    assert_eq!(Vector2::<i32>::from(b), a);
    assert_eq!(Vector3::<i32>::from(c), b);
}

#[test]
fn second_point_of_a_plane() {
    let cut = |x: f32| x.trunc();
    let pt = V3::from_xyz(1.0, 2.0, 3.0);
    let flat = V3::from_xyz(0.0, 0.0, 1.0);
    assert_eq!(
        geometric::misc::get_arbitrary_from_plane(&flat, &pt, &cut),
        V3::from_xyz(2.0, 3.0, 3.0)
    );
    let wall = V3::from_xyz(0.0, 1.0, 0.0);
    assert_eq!(
        geometric::misc::get_arbitrary_from_plane(&wall, &pt, &cut),
        V3::from_xyz(2.0, 3.0, 0.0)
    );
    let side = V3::from_xyz(1.0, 0.0, 0.0);
    assert_eq!(
        geometric::misc::get_arbitrary_from_plane(&side, &pt, &cut),
        V3::from_xyz(0.0, 3.0, 4.0)
    );
}

fn whole_root(x: i64) -> i64 {
    let mut r: i64 = 0;
    while (r + 1) * (r + 1) <= x {
        r += 1;
    }
    r
}

fn same(x: i64) -> i64 {
    x
}

#[test]
fn integer_segment_round_trip() {
    let a = Vector2::<i64>::from_xy(2, 3);
    let b = Vector2::<i64>::from_xy(2, 8);
    let s = Segment::new(a, b, &whole_root);
    assert_eq!(s.0.len, 5);
    assert_eq!(s.0.dir, Vector2::<i64>::from_xy(0, 1));
    assert_eq!(s.0.dir.length_sqrd(), 1);
    assert_eq!(s.0.len, (b - a).length(&whole_root));
    let p = Vector2::<i64>::from_xy(9, 20);
    let near = geometric::nearest_common::pt2segment(&p, &s);
    assert_eq!(near, b);
    assert_eq!(geometric::nearest_common::pt2segment(&near, &s), near);
    assert_eq!(
        geometric::distance2d::pt2seg_sqrd(&p, &s),
        (p - near).length_sqrd()
    );
    assert_eq!(geometric::distance2d::pt2seg_sqrd(&p, &s), 49 + 144);
}

#[test]
fn integer_lines_and_boxes() {
    use_integer_lines();
}

fn use_integer_lines() {
    let l1 = geometric::geom_common::Line::new(
        Vector2::<i64>::from_xy(0, 0),
        Vector2::<i64>::from_xy(3, 0),
        &whole_root,
    );
    let l2 = geometric::geom_common::Line::new(
        Vector2::<i64>::from_xy(5, 4),
        Vector2::<i64>::from_xy(-2, 0),
        &whole_root,
    );
    assert_eq!(
        geometric::distance2d::line2line_sqrd(&l1, &l2, &whole_root, &same),
        Some(16)
    );
    let a = geometric::geom2d::AABB::from_center(
        Vector2::<i64>::from_xy(0, 0),
        Vector2::<i64>::from_xy(1, 1),
    );
    let b = geometric::geom2d::AABB::from_center(
        Vector2::<i64>::from_xy(3, 0),
        Vector2::<i64>::from_xy(2, 1),
    );
    assert!(!geometric::intersect2d::is_rect_intersect(&a, &b));
    assert!(!geometric::intersect2d::is_rect_intersect(&b, &a));
}

#[test]
fn default_frames() {
    let f = geometric::coord::Cartesian3D::<f32>::default();
    assert_eq!(f.x_axis(), V3::from_xyz(1.0, 0.0, 0.0));
    assert_eq!(f.y_axis(), V3::from_xyz(0.0, 1.0, 0.0));
    assert_eq!(f.z_axis(), V3::from_xyz(0.0, 0.0, 1.0));
    assert_eq!(f.position(), V3::from_xyz(0.0, 0.0, 0.0));
    assert_eq!(*f.get_mat(), Matrix::<f32, 4, 4>::identity());
    assert_eq!(*f.get_inv_mat(), Matrix::<f32, 4, 4>::identity());
    let p = V3::from_xyz(1.0, 2.0, 3.0);
    assert_eq!(f.transform(p), p);
    let g = geometric::coord::Cartesian2D::<f32>::default();
    assert_eq!(g.x_axis(), v2(1.0, 0.0));
    assert_eq!(g.y_axis(), v2(0.0, 1.0));
    assert_eq!(g.position(), v2(0.0, 0.0));
}

#[test]
fn plain_shapes_hold_what_they_are_given() {
    let axis = V3::from_xyz(0.0, 0.0, 1.0);
    let o = V3::from_xyz(1.0, 2.0, 3.0);
    let cylinder = geometric::geom3d::Cylinder { bottom: o, dir: axis, height: 4.0f32, radius: 0.5 };
    let cone = geometric::geom3d::Cone { bottom: o, bottom_radius: 2.0f32, dir: axis, height: 4.0 };
    let cut = geometric::geom3d::TruncatedCone {
        bottom: o,
        bottom_radius: 2.0f32,
        top_radius: 1.0,
        dir: axis,
        height: 4.0,
    };
    let solids = [
        geometric::geom3d::CylinderLike::Cylinder(cylinder),
        geometric::geom3d::CylinderLike::Cone(cone),
        geometric::geom3d::CylinderLike::TruncatedCone(cut),
    ];
    let heights: Vec<f32> = solids
        .iter()
        .map(|s| match s {
            geometric::geom3d::CylinderLike::Cylinder(c) => c.height,
            geometric::geom3d::CylinderLike::Cone(c) => c.height,
            geometric::geom3d::CylinderLike::TruncatedCone(c) => c.height,
        })
        .collect();
    assert_eq!(heights, vec![4.0, 4.0, 4.0]);
    let polygon = geometric::geom3d::Polygon { points: vec![o, axis, o] };
    assert_eq!(polygon.clone().points.len(), 3);
    let arc = geometric::geom3d::CircleArc {
        radius: 2.0f32,
        center: o,
        norm: axis,
        x_axis: V3::from_xyz(1.0, 0.0, 0.0),
        range: AngleRange { from: 0.0, to: 1.5 },
    };
    assert_eq!((arc.radius, arc.range.from, arc.range.to), (2.0, 0.0, 1.5));
    let e = geometric::geom2d::Ellipse { a: 2.0f32, b: 1.0, position: v2(1.0, 1.0) };
    let p = geometric::geom2d::Parabola { p: 2.0f32, position: v2(1.0, 1.0) };
    let h = geometric::geom2d::Hyperbola { a: 2.0f32, b: 1.0, position: v2(1.0, 1.0) };
    assert_eq!((e.a, e.b, p.p, h.a, h.b), (2.0, 1.0, 2.0, 2.0, 1.0));
    assert_eq!(e.position, h.position);
    let polar = geometric::coord::Polar { axis, theta: 0.5f32 };
    let cyl = geometric::coord::Cylinder { polar, z: axis };
    assert_eq!(cyl.polar.theta, 0.5);
    assert_eq!(cyl.z, axis);
}

#[test]
fn segment_that_ends_on_the_circle() {
    let c = geometric::geom_common::Circular::new(v2(0.0, 0.0), 2.0f32);
    let s = Segment::new(v2(0.0, 0.0), v2(2.0, 0.0), &root);
    assert_eq!(
        geometric::intersect2d::seg_circle_intersect_param(&s, &c, &root, &cut),
        Some((2.0, None))
    );
    assert_eq!(
        geometric::intersect2d::segs_circle_intersect(&s, &c, &root, &cut),
        Some((v2(2.0, 0.0), None))
    );
    let through = Segment::new(v2(-2.0, 0.0), v2(2.0, 0.0), &root);
    assert_eq!(
        geometric::intersect2d::seg_circle_intersect_param(&through, &c, &root, &cut),
        Some((0.0, Some(4.0)))
    );
}

#[test]
fn segments_cross_only_within_both() {
    let s1 = Segment::new(v2(0.0, 0.0), v2(2.0, 0.0), &root);
    let beyond = Segment::new(v2(5.0, -2.0), v2(5.0, 2.0), &root);
    assert_eq!(geometric::intersect2d::seg_intersect(&s1, &beyond, &cut), None);
    assert_eq!(geometric::intersect2d::seg_intersect(&beyond, &s1, &cut), None);
    let before = Segment::new(v2(-1.0, -2.0), v2(-1.0, 2.0), &root);
    assert_eq!(geometric::intersect2d::seg_intersect(&s1, &before, &cut), None);
    let within = Segment::new(v2(1.0, -2.0), v2(1.0, 2.0), &root);
    assert_eq!(
        geometric::intersect2d::seg_intersect(&s1, &within, &cut),
        Some(v2(1.0, 0.0))
    );
    let at_end = Segment::new(v2(2.0, -2.0), v2(2.0, 2.0), &root);
    assert_eq!(
        geometric::intersect2d::seg_intersect(&s1, &at_end, &cut),
        Some(v2(2.0, 0.0))
    );
}

#[test]
fn line_to_segment_away_from_the_origin() {
    let l = geometric::geom_common::Line::new(v2(0.0, 10.0), v2(1.0, 0.0), &root);
    let above = Segment::new(v2(1.0, 12.0), v2(1.0, 15.0), &root);
    assert_eq!(geometric::distance2d::line2seg_sqrd(&l, &above), Some(4.0));
    let below = Segment::new(v2(1.0, 3.0), v2(1.0, 7.0), &root);
    assert_eq!(geometric::distance2d::line2seg_sqrd(&l, &below), Some(9.0));
    let across = Segment::new(v2(1.0, 8.0), v2(1.0, 15.0), &root);
    assert_eq!(geometric::distance2d::line2seg_sqrd(&l, &across), None);
    let touching = Segment::new(v2(1.0, 10.0), v2(1.0, 15.0), &root);
    assert_eq!(geometric::distance2d::line2seg_sqrd(&l, &touching), Some(0.0));
}

#[test]
fn no_point_of_the_segment_is_nearer_than_the_nearest() {
    let s = Segment::new(Vector2::<i64>::from_xy(-3, 2), Vector2::<i64>::from_xy(9, 2), &whole_root);
    assert_eq!(s.0.len, 12);
    for p in [
        Vector2::<i64>::from_xy(4, 7),
        Vector2::<i64>::from_xy(-8, -1),
        Vector2::<i64>::from_xy(20, 2),
        Vector2::<i64>::from_xy(0, 2),
    ] {
        let near = geometric::nearest_common::pt2segment(&p, &s);
        let least = geometric::distance2d::pt2seg_sqrd(&p, &s);
        assert!(least >= 0);
        assert_eq!(least, (p - near).length_sqrd());
        for t in 0..=12 {
            let other = geometric::nearest_common::point_on(&s.0.start, &s.0.dir, t);
            assert!(least <= (p - other).length_sqrd());
            assert_eq!(geometric::distance2d::pt2seg_sqrd(&other, &s), 0);
            assert_eq!(geometric::nearest_common::pt2segment(&other, &s), other);
        }
    }
}

#[test]
fn roots_give_points_of_the_circle_in_order() {
    let c = geometric::geom_common::Circular::new(Vector2::<i64>::from_xy(0, 0), 5);
    let l = geometric::geom_common::Line::new(
        Vector2::<i64>::from_xy(-10, 3),
        Vector2::<i64>::from_xy(2, 0),
        &whole_root,
    );
    let roots = geometric::intersect2d::line_circle_intersect_param(&l, &c, &whole_root, &same);
    assert_eq!(roots, Some((6, Some(14))));
    let points = geometric::intersect2d::line_circle_intersect(&l, &c, &whole_root, &same);
    let (a, b) = points.unwrap();
    let b = b.unwrap();
    assert_eq!(a, Vector2::<i64>::from_xy(-4, 3));
    assert_eq!(b, Vector2::<i64>::from_xy(4, 3));
    assert_eq!((a - c.center).length_sqrd(), 25);
    assert_eq!((b - c.center).length_sqrd(), 25);
    let tangent = geometric::geom_common::Line::new(
        Vector2::<i64>::from_xy(-10, 5),
        Vector2::<i64>::from_xy(1, 0),
        &whole_root,
    );
    assert_eq!(
        geometric::intersect2d::line_circle_intersect(&tangent, &c, &whole_root, &same),
        Some((Vector2::<i64>::from_xy(0, 5), None))
    );
    let ray = Ray::new(Vector2::<i64>::from_xy(0, 3), Vector2::<i64>::from_xy(1, 0), &whole_root);
    assert_eq!(
        geometric::intersect2d::ray_circle_intersect_param(&ray, &c, &whole_root, &same),
        Some((4, None))
    );
}

#[test]
fn touching_point_lies_on_both_circles() {
    let c1 = geometric::geom_common::Circular::new(Vector2::<i64>::from_xy(1, 1), 3);
    let outside = geometric::geom_common::Circular::new(Vector2::<i64>::from_xy(1, 6), 2);
    let (p, q) = geometric::circle_circle::circles_intersect(&c1, &outside, &whole_root, &same);
    assert!(q.is_none());
    assert_eq!(p, Vector2::<i64>::from_xy(1, 4));
    assert_eq!((p - c1.center).length_sqrd(), 9);
    assert_eq!((p - outside.center).length_sqrd(), 4);
    let inside = geometric::geom_common::Circular::new(Vector2::<i64>::from_xy(1, 2), 2);
    let (p, q) = geometric::circle_circle::circles_intersect(&c1, &inside, &whole_root, &same);
    assert!(q.is_none());
    assert_eq!(p, Vector2::<i64>::from_xy(1, 4));
    assert_eq!((p - c1.center).length_sqrd(), 9);
    assert_eq!((p - inside.center).length_sqrd(), 4);
    let (p, q) = geometric::circle_circle::circles_intersect(&inside, &c1, &whole_root, &same);
    assert!(q.is_none());
    assert_eq!(p, Vector2::<i64>::from_xy(1, 4));
}

#[test]
fn clipped_lines_lie_in_the_box() {
    let min = v2(0.0, 0.0);
    let max = v2(4.0, 2.0);
    let ends = [
        (v2(-2.0, 1.0), v2(6.0, 1.0)),
        (v2(-1.0, -1.0), v2(5.0, 5.0)),
        (v2(2.0, -2.0), v2(2.0, 6.0)),
        (v2(1.0, 1.0), v2(9.0, 1.5)),
        (v2(-3.0, 0.5), v2(3.0, 3.5)),
    ];
    for (a, b) in ends {
        if let Some((p, q)) =
            geometric::cohen_sutherland::cohen_sutherland_line_clip(&a, &b, &min, &max)
        {
            for e in [p, q] {
                assert!(min.x() <= e.x() && e.x() <= max.x());
                assert!(min.y() <= e.y() && e.y() <= max.y());
                assert_eq!(geometric::cohen_sutherland::compute_outcode(&e, &min, &max), 0);
            }
        }
    }
}
