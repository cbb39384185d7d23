use rengine::units::{fx_product, fx_product_wide, scale_value, PointWithDeg, Size, Velocity, UNIT};

#[test]
fn test_point_with_deg() {
    let p = PointWithDeg::new(10_000, 20_000, Some(90_000));
    assert_eq!(
        p,
        PointWithDeg {
            x: 10_000,
            y: 20_000,
            deg: 90_000
        }
    );

    let default_deg = PointWithDeg::new(1_000, 2_000, None);
    assert_eq!(default_deg.deg, 0);
}

#[test]
fn test_size() {
    let s = Size::new(50_000, 75_000);
    assert_eq!(s, Size { x: 50_000, y: 75_000 });
}

#[test]
fn test_velocity_builder_style() {
    let v = Velocity::from(10_000, 5_000)
        .scale(500)
        .scale_x(2_000)
        .scale_y(500);
    assert_eq!(v, Velocity { x: 10_000, y: 1_250 });
}

#[test]
fn test_velocity_mutating_style() {
    let mut v = Velocity::from(10_000, 5_000);
    v.scale_mut(500);
    assert_eq!(v, Velocity { x: 5_000, y: 2_500 });

    v.scale_x_mut(2_000);
    assert_eq!(v.x, 10_000);

    v.scale_y_mut(500);
    assert_eq!(v.y, 1_250);
}

#[test]
fn test_velocity_setters() {
    let v = Velocity::new().set_x(3_000).set_y(4_000);
    assert_eq!(v, Velocity { x: 3_000, y: 4_000 });
}

#[test]
fn one_unit_is_a_thousand() {
    assert_eq!(UNIT, 1_000);
    assert_eq!(scale_value(UNIT, UNIT), UNIT);
    assert_eq!(scale_value(123_456, UNIT), 123_456);
    assert_eq!(scale_value(-123_456, UNIT), -123_456);
}

#[test]
fn products_round_toward_zero() {
    // 0.007 * 0.9 = 0.0063
    assert_eq!(scale_value(7, 900), 6);
    assert_eq!(scale_value(-7, 900), -6);
    assert_eq!(scale_value(7, -900), -6);
    assert_eq!(scale_value(-7, -900), 6);
    assert_eq!(scale_value(1, 999), 0);
    assert_eq!(scale_value(-1, 999), 0);
    assert_eq!(scale_value(0, i64::MAX), 0);
    assert_eq!(fx_product(1_999, 500), 999);
    assert_eq!(fx_product(-1_999, 500), -999);
    assert_eq!(fx_product_wide(-1_999, 500), -999);
    assert_eq!(fx_product_wide(1i128 << 64, 1_000), 1i128 << 64);
}

#[test]
fn wide_products_do_not_overflow() {
    let biggest = (i64::MAX as i128) * (i64::MAX as i128) / 1_000;
    assert_eq!(fx_product(i64::MAX, i64::MAX), biggest);
    assert_eq!(fx_product(i64::MIN, i64::MIN), (i64::MIN as i128) * (i64::MIN as i128) / 1_000);
    assert_eq!(fx_product(i64::MIN, i64::MAX), -(((i64::MAX as i128) << 63) / 1_000));
    assert_eq!(scale_value(i64::MAX, 1_000), i64::MAX);
    assert_eq!(scale_value(i64::MIN, 1_000), i64::MIN);
}

#[test]
fn defaults_are_zero() {
    assert_eq!(PointWithDeg::default(), PointWithDeg { x: 0, y: 0, deg: 0 });
    assert_eq!(Size::default(), Size { x: 0, y: 0 });
    assert_eq!(Velocity::default(), Velocity { x: 0, y: 0 });
    assert_eq!(Velocity::new(), Velocity::default());
}
