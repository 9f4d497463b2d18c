use geom3d::point_3d::Point3D;
use geom3d::point_cloud_3d::PointCloud3D;

#[test]
fn test_f32_point_cloud3d_constructor() {
    let _x: PointCloud3D<f32, Point3D<f32>> = PointCloud3D::new();
}

#[test]
fn test_f64_point_cloud3d_constructor() {
    let _x: PointCloud3D<f64, Point3D<f64>> = PointCloud3D::new();
}

#[test]
fn test_f32_point_cloud3d_iterator() {
    let x: PointCloud3D<f32, Point3D<f32>> = PointCloud3D::new();

    assert!(x.is_empty());
}

#[test]
fn test_f64_point_cloud3d_iterator() {
    let x: PointCloud3D<f64, Point3D<f64>> = PointCloud3D::new();

    assert!(x.is_empty());
}

#[test]
fn test_f32_point_cloud3d_push() {
    let mut x: PointCloud3D<f32, Point3D<f32>> = PointCloud3D::new();
    x.push(Point3D::new(1.0, 2.0, 3.0));

    assert!(!x.is_empty());
    assert_eq!(x.len(), 1);

    let r = x.pop();
    assert!(x.is_empty());
    assert_eq!(r, Some(Point3D::new(1.0, 2.0, 3.0)));
}

#[test]
fn test_u64_point_cloud3d_movable3d() {
    let mut x: PointCloud3D<u64, Point3D<u64>> = PointCloud3D::new();
    x.push(Point3D::new(1, 2, 3));
    x.push(Point3D::new(5, 6, 7));

    x.move_by(1, 1, 1);

    let point1 = x.pop().unwrap();
    assert_eq!(point1, Point3D::new(6, 7, 8));

    let point2 = x.pop().unwrap();
    assert_eq!(point2, Point3D::new(2, 3, 4));
}

#[test]
fn test_pop_on_empty_is_absent() {
    let mut x: PointCloud3D<f64, Point3D<f64>> = PointCloud3D::new();
    assert_eq!(x.pop(), None);
    assert!(x.is_empty());
}

#[test]
fn test_push_then_pop_leaves_empty() {
    let mut x: PointCloud3D<f64, Point3D<f64>> = PointCloud3D::new();
    x.push(Point3D::new(9.5, -8.25, 7.0));
    let r = x.pop();
    assert_eq!(r, Some(Point3D::new(9.5, -8.25, 7.0)));
    assert!(x.is_empty());
    assert_eq!(x.len(), 0);
}

#[test]
fn test_queries_are_idempotent() {
    let mut x: PointCloud3D<f32, Point3D<f32>> = PointCloud3D::new();
    x.push(Point3D::new(1.0, 2.0, 3.0));
    x.push(Point3D::new(4.0, 5.0, 6.0));

    assert_eq!(x.len(), 2);
    assert_eq!(x.len(), 2);
    assert_eq!(x.is_empty(), false);
    assert_eq!(x.is_empty(), false);
    assert_eq!(*x.index(0), Point3D::new(1.0, 2.0, 3.0));
    assert_eq!(*x.index(0), Point3D::new(1.0, 2.0, 3.0));
    assert_eq!(*x.index(1), Point3D::new(4.0, 5.0, 6.0));
    assert_eq!(x.len(), 2);
}

#[test]
fn test_reserve_keeps_content() {
    let mut x: PointCloud3D<f32, Point3D<f32>> = PointCloud3D::new();
    x.push(Point3D::new(1.0, 2.0, 3.0));
    x.reserve(100);
    assert_eq!(x.len(), 1);
    assert_eq!(*x.index(0), Point3D::new(1.0, 2.0, 3.0));
}

#[test]
fn test_into_vec_keeps_insertion_order() {
    let mut x: PointCloud3D<u64, Point3D<u64>> = PointCloud3D::new();
    x.push(Point3D::new(1, 1, 1));
    x.push(Point3D::new(2, 2, 2));
    x.push(Point3D::new(3, 3, 3));
    let v = x.into_vec();
    assert_eq!(v, vec![Point3D::new(1, 1, 1), Point3D::new(2, 2, 2), Point3D::new(3, 3, 3)]);
}

#[test]
fn test_repeated_moves_compose() {
    let mut once: PointCloud3D<u64, Point3D<u64>> = PointCloud3D::new();
    let mut twice: PointCloud3D<u64, Point3D<u64>> = PointCloud3D::new();
    once.push(Point3D::new(1, 2, 3));
    once.push(Point3D::new(9, 8, 7));
    twice.push(Point3D::new(1, 2, 3));
    twice.push(Point3D::new(9, 8, 7));

    twice.move_by(10, 20, 30);
    twice.move_by(4, 5, 6);
    once.move_by(14, 25, 36);

    assert_eq!(once.pop(), twice.pop());
    assert_eq!(once.pop(), twice.pop());
}

#[test]
fn test_move_by_keeps_length_and_order() {
    let mut x: PointCloud3D<u64, Point3D<u64>> = PointCloud3D::new();
    x.push(Point3D::new(10, 0, 0));
    x.push(Point3D::new(20, 0, 0));
    x.push(Point3D::new(30, 0, 0));
    x.move_by(5, 6, 7);
    assert_eq!(x.len(), 3);
    assert_eq!(*x.index(0), Point3D::new(15, 6, 7));
    assert_eq!(*x.index(1), Point3D::new(25, 6, 7));
    assert_eq!(*x.index(2), Point3D::new(35, 6, 7));
}
