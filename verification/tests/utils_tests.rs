use rengine::units::{PointWithDeg, Size};
use rengine::utils::collision_cal::{boxes_overlap, check_collision, transform_shape};
use rengine::utils::shapes::{CustomShape, CustomShapeVariant};
use rengine::utils::util_items::gen_id;

#[test]
fn test_gen_rectangle() {
    let shape = CustomShape::gen_rectangle();
    assert_eq!(
        shape.points,
        vec![(0, 0), (1_000, 0), (1_000, 1_000), (0, 1_000), (0, 0)]
    );
}

#[test]
fn test_gen_triangle() {
    let shape = CustomShape::gen_triangle();
    assert_eq!(shape.points, vec![(0, 0), (500, 1_000), (1_000, 0), (0, 0)]);
}

#[test]
fn test_add_point() {
    let mut shape = CustomShape::gen_rectangle();
    shape.add_point((2_000, 2_000));
    assert_eq!(
        shape.points,
        vec![
            (0, 0),
            (1_000, 0),
            (1_000, 1_000),
            (0, 1_000),
            (0, 0),
            (2_000, 2_000)
        ]
    );
}

#[test]
fn test_override_points() {
    let mut shape = CustomShape::gen_rectangle();
    shape.override_points(vec![(2_000, 2_000)]);
    assert_eq!(shape.points, vec![(2_000, 2_000)]);
}

#[test]
fn test_aabb_collision() {
    let obj1 = (
        PointWithDeg { x: 0, y: 0, deg: 0 },
        Size { x: 10_000, y: 10_000 },
        CustomShape::gen_rectangle(),
    );

    let obj2 = (
        PointWithDeg { x: 5_000, y: 5_000, deg: 0 },
        Size { x: 10_000, y: 10_000 },
        CustomShape::gen_rectangle(),
    );

    assert!(check_collision(obj1, obj2));
}

#[test]
fn test_aabb_no_collision() {
    let obj1 = (
        PointWithDeg { x: 0, y: 0, deg: 0 },
        Size { x: 10_000, y: 10_000 },
        CustomShape::gen_rectangle(),
    );

    let obj2 = (
        PointWithDeg { x: 20_000, y: 20_000, deg: 0 },
        Size { x: 10_000, y: 10_000 },
        CustomShape::gen_rectangle(),
    );

    assert!(!check_collision(obj1, obj2));
}

fn hit(a: (i64, i64, i64, i64), b: (i64, i64, i64, i64)) -> bool {
    boxes_overlap(
        &PointWithDeg::new(a.0, a.1, None),
        &Size::new(a.2, a.3),
        &PointWithDeg::new(b.0, b.1, None),
        &Size::new(b.2, b.3),
    )
}

#[test]
fn overlap_is_symmetric() {
    let boxes = [
        (0, 0, 10, 10),
        (5, 5, 10, 10),
        (20, 20, 10, 10),
        (10, 0, 10, 10),
        (-5, -5, 5, 5),
        (3, 3, 1, 1),
        (0, 0, 0, 0),
        (4, 4, -2, -2),
        (i64::MAX, i64::MAX, i64::MAX, i64::MAX),
        (i64::MIN, i64::MIN, i64::MAX, i64::MAX),
    ];
    for a in boxes {
        for b in boxes {
            assert_eq!(hit(a, b), hit(b, a));
        }
    }
    assert!(hit((0, 0, 10, 10), (5, 5, 10, 10)));
    assert!(!hit((0, 0, 10, 10), (20, 20, 10, 10)));
}

#[test]
fn boxes_that_touch_do_not_overlap() {
    assert!(!hit((0, 0, 10, 10), (10, 0, 10, 10)));
    assert!(!hit((0, 0, 10, 10), (0, 10, 10, 10)));
    assert!(hit((0, 0, 10, 10), (9, 9, 10, 10)));
    // overlap on one axis only is no overlap
    assert!(!hit((0, 0, 10, 10), (5, 30, 10, 10)));
    assert!(!hit((0, 0, 10, 10), (30, 5, 10, 10)));
}

#[test]
fn rotation_plays_no_part_in_the_overlap() {
    let a = (PointWithDeg::new(0, 0, Some(45_000)), Size::new(10, 10), CustomShape::gen_triangle());
    let b = (PointWithDeg::new(5, 5, Some(90_000)), Size::new(10, 10), CustomShape::default());
    assert!(check_collision(a, b));
}

#[test]
fn overlap_at_the_ends_of_the_range() {
    assert!(hit((i64::MAX, 0, i64::MAX, 10), (i64::MAX, 0, 1, 1)));
    assert!(!hit((i64::MIN, 0, 10, 10), (i64::MAX, 0, 10, 10)));
    assert!(hit((i64::MIN, i64::MIN, i64::MAX, i64::MAX), (i64::MIN, i64::MIN, 1, 1)));
}

#[test]
fn default_shape_is_the_unit_square() {
    let shape = CustomShape::default();
    assert_eq!(shape.points, vec![(0, 0), (0, 1_000), (1_000, 1_000), (1_000, 0), (0, 0)]);
    assert!(matches!(shape.variant, CustomShapeVariant::Rectangle));
    assert!(matches!(CustomShape::gen_triangle().variant, CustomShapeVariant::Triangle));
}

#[test]
fn shapes_are_copied_whole() {
    let shape = CustomShape::new(vec![(1, 2), (3, 4)], CustomShapeVariant::Other(String::from("blob")));
    let copy = shape.clone();
    assert_eq!(copy.points, vec![(1, 2), (3, 4)]);
    match copy.variant {
        CustomShapeVariant::Other(label) => assert_eq!(label, "blob"),
        _ => panic!("the copy has another kind"),
    }
    assert!(matches!(CustomShapeVariant::Circle.clone(), CustomShapeVariant::Circle));
}

#[test]
fn identifiers_are_hyphenated_and_fresh() {
    let a = gen_id();
    let b = gen_id();
    assert_ne!(a, b);
    for id in [a, b] {
        assert_eq!(id.len(), 36);
        for (i, c) in id.chars().enumerate() {
            if i == 8 || i == 13 || i == 18 || i == 23 {
                assert_eq!(c, '-');
            } else {
                assert!(c.is_ascii_digit() || ('a'..='f').contains(&c));
            }
        }
        assert_eq!(id.chars().nth(14), Some('4'));
    }
}

fn square() -> CustomShape {
    CustomShape::new(
        vec![(0, 0), (1_000, 0), (1_000, 1_000), (0, 1_000)],
        CustomShapeVariant::Rectangle,
    )
}

#[test]
fn shape_without_rotation_is_centred_on_the_position() {
    let point = PointWithDeg::new(10_000, 20_000, None);
    let size = Size::new(2_000, 4_000);
    // cosine one, sine zero: each corner lands at point + (p - (0.5, 0.5)) * size
    assert_eq!(
        transform_shape(&point, &size, &square(), 1_000, 0),
        Some(vec![(9_000, 18_000), (11_000, 18_000), (11_000, 22_000), (9_000, 22_000)])
    );
}

#[test]
fn shape_turned_by_a_quarter() {
    let point = PointWithDeg::new(0, 0, Some(90_000));
    let size = Size::new(2_000, 2_000);
    // cosine zero, sine one
    assert_eq!(
        transform_shape(&point, &size, &square(), 0, 1_000),
        Some(vec![(1_000, -1_000), (1_000, 1_000), (-1_000, 1_000), (-1_000, -1_000)])
    );
}

#[test]
fn shape_turned_by_an_eighth_rounds_toward_zero() {
    let point = PointWithDeg::new(100, -100, Some(45_000));
    let size = Size::new(3_000, 1_000);
    let shape = CustomShape::new(vec![(1_000, 500), (0, 1_000)], CustomShapeVariant::Other(String::from("bar")));
    // the first point: 1.5 to the right of the middle, turned: (1.0605, 1.0605) cut to 1.060
    // the second: (-1.5, 0.5) turned: (-1.0605 - 0.3535, -1.0605 + 0.3535)
    assert_eq!(
        transform_shape(&point, &size, &shape, 707, 707),
        Some(vec![(100 + 1_060, -100 + 1_060), (100 - 1_060 - 353, -100 - 1_060 + 353)])
    );
}

#[test]
fn shape_of_no_points_and_shape_out_of_range() {
    let point = PointWithDeg::new(i64::MAX, 0, None);
    let size = Size::new(2_000, 2_000);
    let empty = CustomShape::new(vec![], CustomShapeVariant::Circle);
    assert_eq!(transform_shape(&point, &size, &empty, 1_000, 0), Some(vec![]));
    // the right-hand corners lie beyond the largest coordinate
    assert_eq!(transform_shape(&point, &size, &square(), 1_000, 0), None);
    // the left-hand side alone fits
    let left = CustomShape::new(vec![(0, 0), (0, 1_000), (500, 500)], CustomShapeVariant::Triangle);
    assert_eq!(
        transform_shape(&point, &size, &left, 1_000, 0),
        Some(vec![(i64::MAX - 1_000, -1_000), (i64::MAX - 1_000, 1_000), (i64::MAX, 0)])
    );
    // no cosine or sine is larger than one
    let origin = PointWithDeg::new(0, 0, None);
    assert_eq!(transform_shape(&origin, &size, &square(), 1_001, 0), None);
    assert_eq!(transform_shape(&origin, &size, &square(), 0, -1_001), None);
    assert_eq!(transform_shape(&origin, &size, &empty, i64::MIN, i64::MAX), None);
    // the widest inputs do not overflow on the way
    let wide = CustomShape::new(vec![(i64::MIN, i64::MAX)], CustomShapeVariant::Circle);
    assert_eq!(
        transform_shape(&origin, &Size::new(i64::MAX, i64::MIN), &wide, -1_000, 1_000),
        None
    );
}
