use geom3d::util::ScalarAdd;

#[test]
fn test_convert_fp() {
    let a: f32 = 0.432;
    let x = a.to_bits();
    println!("{:?}", x);

    let b: f64 = 0.47867867;
    let y = b.to_bits();
    println!("{:?}", y);
}

#[test]
fn test_add_assign_val_is_wrapping() {
    let mut a: u64 = 40;
    a.add_assign_val(2);
    assert_eq!(a, 42);

    let mut b: u64 = u64::MAX;
    b.add_assign_val(3);
    assert_eq!(b, 2);

    let mut c: u32 = u32::MAX - 1;
    c.add_assign_val(1);
    assert_eq!(c, u32::MAX);
}
