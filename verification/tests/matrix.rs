use geometric::matrix::Mat22;
use geometric::matrix::Matrix;
use geometric::matrix::Vector2;
use geometric::matrix::Vector3;

type Vec2 = Vector2<f32>;
type Vec3 = Vector3<f32>;

#[test]
fn test() {}

#[test]
fn constants() {
    let m = Matrix::<f32, 3, 2>::zeros();
    for x in 0..3 {
        for y in 0..2 {
            assert_eq!(m.get(x, y), 0.0);
        }
    }

    let m = Matrix::<f32, 3, 2>::ones();
    for x in 0..3 {
        for y in 0..2 {
            assert_eq!(m.get(x, y), 1.0);
        }
    }

    let m = Matrix::<f32, 2, 2>::identity();
    assert_eq!(m.get(0, 0), 1.0);
    assert_eq!(m.get(1, 1), 1.0);
    assert_eq!(m.get(1, 0), 0.0);
    assert_eq!(m.get(0, 1), 0.0);
}

#[test]
fn elem_access() {
    let m = Mat22::<f32>::from_row(&[1.0, 2.0, 3.0, 4.0]);
    assert_eq!(m.get(0, 0), 1.0);
    assert_eq!(m.get(1, 0), 2.0);
    assert_eq!(m.get(0, 1), 3.0);
    assert_eq!(m.get(1, 1), 4.0);

    let m = Mat22::<f32>::from_col(&[1.0, 2.0, 3.0, 4.0]);
    assert_eq!(m.get(0, 0), 1.0);
    assert_eq!(m.get(1, 0), 3.0);
    assert_eq!(m.get(0, 1), 2.0);
    assert_eq!(m.get(1, 1), 4.0);

    let m = Matrix::<f32, 3, 2>::from_row(&[1.0, 2.0, 3.0, 4.0, 5.0, 6.0]);
    assert_eq!(m.get(0, 0), 1.0);
    assert_eq!(m.get(1, 0), 2.0);
    assert_eq!(m.get(2, 0), 3.0);
    assert_eq!(m.get(0, 1), 4.0);
    assert_eq!(m.get(1, 1), 5.0);
    assert_eq!(m.get(2, 1), 6.0);
}

#[test]
fn arithmetics() {
    let m1 = Matrix::<f32, 3, 2>::from_row(&[1.0, 2.0, 3.0, 4.0, 5.0, 6.0]);
    let m2 = Matrix::<f32, 3, 2>::from_row(&[-1.0, -2.0, -3.0, -4.0, -5.0, -6.0]);
    let result = m1 + m2;
    assert_eq!(result, Matrix::<f32, 3, 2>::zeros());

    let result = m1 - m2;
    assert_eq!(
        result,
        Matrix::<f32, 3, 2>::from_row(&[2.0, 4.0, 6.0, 8.0, 10.0, 12.0,])
    );

    let result = m1 * 3.0f32;
    assert_eq!(result.get(0, 0), 3.0);
    assert_eq!(result.get(1, 0), 6.0);
    assert_eq!(result.get(2, 0), 9.0);
    assert_eq!(result.get(0, 1), 12.0);
    assert_eq!(result.get(1, 1), 15.0);
    assert_eq!(result.get(2, 1), 18.0);

    let result = m1 / 2.0f32;
    assert_eq!(result.get(0, 0), 0.5);
    assert_eq!(result.get(1, 0), 1.0);
    assert_eq!(result.get(2, 0), 1.5);
    assert_eq!(result.get(0, 1), 2.0);
    assert_eq!(result.get(1, 1), 2.5);
    assert_eq!(result.get(2, 1), 3.0);

    let result = m1.mul_each(m2);
    assert_eq!(result.get(0, 0), -1.0);
    assert_eq!(result.get(1, 0), -4.0);
    assert_eq!(result.get(2, 0), -9.0);
    assert_eq!(result.get(0, 1), -16.0);
    assert_eq!(result.get(1, 1), -25.0);
    assert_eq!(result.get(2, 1), -36.0);

    let m2 = m2.transpose();
    assert_eq!(
        m2,
        Matrix::<f32, 2, 3>::from_col(&[-1.0, -2.0, -3.0, -4.0, -5.0, -6.0])
    );

    let result = m1 * m2;
    assert_eq!(
        result,
        Matrix::<f32, 2, 2>::from_row(&[-14.0, -32.0, -32.0, -77.0])
    );
}

#[test]
fn vector_init() {
    let v = Vec3::from_xyz(1.0, 2.0, 3.0);
    assert_eq!(v.x(), 1.0);
    assert_eq!(v.y(), 2.0);
    assert_eq!(v.z(), 3.0);
}

#[test]
fn vector_special_arithmetic() {
    let v1 = Vec3::from_xyz(1.0, 2.0, 3.0);
    let v2 = Vec3::from_xyz(3.0, -2.0, 3.0);
    assert_eq!(v1.dot(&v2), 8.0);

    let v = v1.cross(&v2);
    assert_eq!(v, Vec3::from_xyz(12.0, 6.0, -8.0));

    let v1 = Vec2::from_xy(1.0, 2.0);
    let v2 = Vec2::from_xy(3.0, 4.0);
    assert_eq!(v1.dot(&v2), 11.0);
    assert_eq!(v1.cross(&v2), -2.0);
}

#[test]
fn det() {
    let m = Mat22::<f32>::from_row(&[1.0, 2.0, 3.0, 4.0]);
    assert_eq!(m.det(), -2.0);
}

#[test]
fn inverse_of_a_two_by_two() {
    let m = Mat22::<f32>::from_row(&[4.0, 7.0, 2.0, 6.0]);
    let inv = m.inv().unwrap();
    assert_eq!(inv, Mat22::<f32>::from_row(&[0.6, -0.7, -0.2, 0.4]));
    assert_eq!(m.det(), 10.0);
    let singular = Mat22::<f32>::from_row(&[1.0, 2.0, 2.0, 4.0]);
    assert!(singular.inv().is_none());
    let id = Mat22::<f32>::identity();
    assert_eq!(id.inv(), Some(id));
}

#[test]
fn shape_and_transpose() {
    let m = Matrix::<i32, 3, 2>::from_row(&[1, 2, 3, 4, 5, 6]);
    assert_eq!(m.col(), 3);
    assert_eq!(m.row(), 2);
    assert_eq!(m.width(), 3);
    assert_eq!(m.height(), 2);
    let t = m.transpose();
    assert_eq!(t.col(), 2);
    assert_eq!(t.row(), 3);
    for x in 0..3 {
        for y in 0..2 {
            assert_eq!(t.get(y, x), m.get(x, y));
        }
    }
    assert_eq!(t.transpose(), m);
}

#[test]
fn short_input_leaves_zeros() {
    let m = Matrix::<i32, 2, 2>::from_row(&[7, 8, 9]);
    assert_eq!(m.get(0, 0), 7);
    assert_eq!(m.get(1, 0), 8);
    assert_eq!(m.get(0, 1), 9);
    assert_eq!(m.get(1, 1), 0);
    let m = Matrix::<i32, 2, 2>::from_col(&[7]);
    assert_eq!(m.get(0, 0), 7);
    assert_eq!(m.get(1, 0), 0);
    assert_eq!(m.get(0, 1), 0);
    assert_eq!(m.get(1, 1), 0);
}

#[test]
fn set_changes_one_entry() {
    let mut m = Matrix::<i32, 2, 3>::zeros();
    m.set(1, 2, 5);
    for x in 0..2 {
        for y in 0..3 {
            assert_eq!(m.get(x, y), if x == 1 && y == 2 { 5 } else { 0 });
        }
    }
}

#[test]
fn negation_and_entrywise_division() {
    let m = Matrix::<i32, 2, 2>::from_row(&[1, -2, 3, -4]);
    assert_eq!(-m, Matrix::<i32, 2, 2>::from_row(&[-1, 2, -3, 4]));
    let a = Matrix::<f32, 2, 1>::from_row(&[6.0, 9.0]);
    let b = Matrix::<f32, 2, 1>::from_row(&[3.0, 2.0]);
    assert_eq!(a / b, Matrix::<f32, 2, 1>::from_row(&[2.0, 4.5]));
}

#[test]
fn matrices_from_vectors() {
    let c0 = Vector2::<i32>::from_xy(1, 2);
    let c1 = Vector2::<i32>::from_xy(3, 4);
    let m = Matrix::<i32, 2, 2>::from_col_vecs(&[c0, c1]);
    assert_eq!(m.get(0, 0), 1);
    assert_eq!(m.get(0, 1), 2);
    assert_eq!(m.get(1, 0), 3);
    assert_eq!(m.get(1, 1), 4);
    let r = Matrix::<i32, 2, 2>::from_row_vecs(&[c0.transpose(), c1.transpose()]);
    assert_eq!(r, m.transpose());
    assert_eq!(c0.to_array(), [1, 2]);
}

#[test]
fn homogeneous_transform_from_axes() {
    let x = Vector3::<i32>::x_axis();
    let y = Vector3::<i32>::y_axis();
    let z = Vector3::<i32>::z_axis();
    let p = Vector3::<i32>::from_xyz(7, 8, 9);
    let m = Matrix::<i32, 4, 4>::from_coordination(x, y, z, p);
    let expected = Matrix::<i32, 4, 4>::from_row(&[1, 0, 0, 7, 0, 1, 0, 8, 0, 0, 1, 9, 0, 0, 0, 1]);
    assert_eq!(m, expected);
}

#[test]
fn vector_components_and_swizzles() {
    let v = geometric::matrix::Vector4::<i32>::from_xyzw(1, 2, 3, 4);
    assert_eq!((v.x(), v.y(), v.z(), v.w()), (1, 2, 3, 4));
    assert_eq!(v.xy(), Vector2::<i32>::from_xy(1, 2));
    assert_eq!(v.xz(), Vector2::<i32>::from_xy(1, 3));
    assert_eq!(v.yz(), Vector2::<i32>::from_xy(2, 3));
    assert_eq!(v.xyz(), Vector3::<i32>::from_xyz(1, 2, 3));
    let w = v.xyz();
    assert_eq!(w.xy(), Vector2::<i32>::from_xy(1, 2));
    assert_eq!(w.xz(), Vector2::<i32>::from_xy(1, 3));
    assert_eq!(w.yz(), Vector2::<i32>::from_xy(2, 3));
    assert_eq!(Vector3::<i32>::from_vec2(w.xy()), Vector3::<i32>::from_xyz(1, 2, 1));
    assert_eq!(Vector3::<i32>::from_vec4(v), w);
    assert_eq!(Vector2::<i32>::x_axis(), Vector2::<i32>::from_xy(1, 0));
    assert_eq!(Vector2::<i32>::y_axis(), Vector2::<i32>::from_xy(0, 1));
    assert_eq!(w.length_sqrd(), 14);
}

#[test]
fn length_and_normalize() {
    let v = Vec2::from_xy(3.0, 4.0);
    let sqrt = |x: f32| x.sqrt();
    assert_eq!(v.length(&sqrt), 5.0);
    assert_eq!(v.normalize(&sqrt), Vec2::from_xy(0.6, 0.8));
    let mut w = v;
    w.normalize_self(&sqrt);
    assert_eq!(w, Vec2::from_xy(0.6, 0.8));
}

#[test]
fn compound_assignment() {
    let a = Matrix::<i32, 2, 2>::from_row(&[1, 2, 3, 4]);
    let b = Matrix::<i32, 2, 2>::from_row(&[5, 6, 7, 8]);
    let mut m = a;
    m += b;
    assert_eq!(m, Matrix::<i32, 2, 2>::from_row(&[6, 8, 10, 12]));
    m -= a;
    assert_eq!(m, b);
    m /= a;
    assert_eq!(m, Matrix::<i32, 2, 2>::from_row(&[5, 3, 2, 2]));
    m /= 2;
    assert_eq!(m, Matrix::<i32, 2, 2>::from_row(&[2, 1, 1, 1]));
    let mut p = a;
    p *= b;
    assert_eq!(p, a * b);
    assert_eq!(p, Matrix::<i32, 2, 2>::from_row(&[19, 22, 43, 50]));
    let id = Matrix::<i32, 2, 2>::identity();
    assert_eq!(a * id, a);
    assert_eq!(id * a, a);
}
