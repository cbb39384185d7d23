//! The coarse overlap test between two objects.

use vstd::prelude::*;
use crate::units::{fits, fx_mul, fx_product_of, PointWithDeg, Size};
use crate::utils::shapes::CustomShape;

verus! {

/// Whether `cos_theta` and `sin_theta` can be the cosine and the sine of an
/// angle: both lie between minus one and one.
pub open spec fn valid_rotation(cos_theta: int, sin_theta: int) -> bool {
    -1_000 <= cos_theta <= 1_000 && -1_000 <= sin_theta <= 1_000
}

/// Where a point of an outline lies in the world: the point is centred on
/// the middle of the unit square, scaled to the object's size, rotated by
/// the angle with the given cosine and sine, and moved to the object's
/// position. Without rotation the point `p` lands at
/// `point + (p - (0.5, 0.5)) * size`.
pub open spec fn world_point(
    point: PointWithDeg,
    size: Size,
    p: (i64, i64),
    cos_theta: int,
    sin_theta: int,
) -> (int, int) {
    let sx = fx_mul(p.0 - 500, size.x as int);
    let sy = fx_mul(p.1 - 500, size.y as int);
    (
        point.x + fx_mul(sx, cos_theta) - fx_mul(sy, sin_theta),
        point.y + fx_mul(sx, sin_theta) + fx_mul(sy, cos_theta),
    )
}

/// Whether an outline can be placed in the world: the rotation is valid and
/// every point ends at representable coordinates.
pub open spec fn placeable(
    point: PointWithDeg,
    size: Size,
    points: Seq<(i64, i64)>,
    cos_theta: int,
    sin_theta: int,
) -> bool {
    &&& valid_rotation(cos_theta, sin_theta)
    &&& forall|i: int|
        0 <= i < points.len() ==> fits(#[trigger] world_point(point, size, points[i], cos_theta, sin_theta).0)
            && fits(world_point(point, size, points[i], cos_theta, sin_theta).1)
}

/// Places one point of an outline in the world.
fn place_point(point: &PointWithDeg, size: &Size, p: (i64, i64), cos_theta: i64, sin_theta: i64) -> (r: Option<
    (i64, i64),
>)
    requires
        valid_rotation(cos_theta as int, sin_theta as int),
    ensures
        match r {
            Some(w) => (w.0 as int, w.1 as int) == world_point(
                *point,
                *size,
                p,
                cos_theta as int,
                sin_theta as int,
            ),
            None => !fits(world_point(*point, *size, p, cos_theta as int, sin_theta as int).0) || !fits(
                world_point(*point, *size, p, cos_theta as int, sin_theta as int).1,
            ),
        },
{
    let cx: i128 = p.0 as i128 - 500;
    let cy: i128 = p.1 as i128 - 500;
    assert(-0x6000_0000_0000_0000_0000_0000_0000_0000 <= cx * (size.x as i128)
        <= 0x6000_0000_0000_0000_0000_0000_0000_0000) by (nonlinear_arith)
        requires
            -0x8000_0000_0000_0200 <= cx <= 0x8000_0000_0000_0200,
            -0x8000_0000_0000_0000 <= size.x <= 0x7fff_ffff_ffff_ffff,
    ;
    assert(-0x6000_0000_0000_0000_0000_0000_0000_0000 <= cy * (size.y as i128)
        <= 0x6000_0000_0000_0000_0000_0000_0000_0000) by (nonlinear_arith)
        requires
            -0x8000_0000_0000_0200 <= cy <= 0x8000_0000_0000_0200,
            -0x8000_0000_0000_0000 <= size.y <= 0x7fff_ffff_ffff_ffff,
    ;
    let sx: i128 = fx_product_of(cx, size.x as i128);
    let sy: i128 = fx_product_of(cy, size.y as i128);
    let c: i128 = cos_theta as i128;
    let s: i128 = sin_theta as i128;
    assert(-0x6000_0000_0000_0000_0000_0000_0000_0000 <= sx * c <= 0x6000_0000_0000_0000_0000_0000_0000_0000
        && -0x6000_0000_0000_0000_0000_0000_0000_0000 <= sx * s
        <= 0x6000_0000_0000_0000_0000_0000_0000_0000) by (nonlinear_arith)
        requires
            -0x6000_0000_0000_0000_0000_0000_0000_0000 <= sx * 1_000
                <= 0x6000_0000_0000_0000_0000_0000_0000_0000,
            -1_000 <= c <= 1_000,
            -1_000 <= s <= 1_000,
    ;
    assert(-0x6000_0000_0000_0000_0000_0000_0000_0000 <= sy * c <= 0x6000_0000_0000_0000_0000_0000_0000_0000
        && -0x6000_0000_0000_0000_0000_0000_0000_0000 <= sy * s
        <= 0x6000_0000_0000_0000_0000_0000_0000_0000) by (nonlinear_arith)
        requires
            -0x6000_0000_0000_0000_0000_0000_0000_0000 <= sy * 1_000
                <= 0x6000_0000_0000_0000_0000_0000_0000_0000,
            -1_000 <= c <= 1_000,
            -1_000 <= s <= 1_000,
    ;
    let rx: i128 = fx_product_of(sx, c) - fx_product_of(sy, s);
    let ry: i128 = fx_product_of(sx, s) + fx_product_of(sy, c);
    let wx: i128 = point.x as i128 + rx;
    let wy: i128 = point.y as i128 + ry;
    let low: i128 = i64::MIN as i128;
    let high: i128 = i64::MAX as i128;
    if low <= wx && wx <= high && low <= wy && wy <= high {
        Some((wx as i64, wy as i64))
    } else {
        None
    }
}

/// Places the outline `shape` of an object at `point` with extent `size` in
/// the world, turned by the angle whose cosine and sine are given. The
/// result has one point for each point of the outline, in the same order.
/// There is none where the rotation is not valid or a point ends outside the
/// representable coordinates.
pub fn transform_shape(
    point: &PointWithDeg,
    size: &Size,
    shape: &CustomShape,
    cos_theta: i64,
    sin_theta: i64,
) -> (r: Option<Vec<(i64, i64)>>)
    ensures
        match r {
            Some(world) => {
                &&& placeable(*point, *size, shape@.points, cos_theta as int, sin_theta as int)
                &&& world@.len() == shape@.points.len()
                &&& forall|i: int|
                    0 <= i < world@.len() ==> (#[trigger] world@[i].0 as int, world@[i].1 as int)
                        == world_point(*point, *size, shape@.points[i], cos_theta as int, sin_theta as int)
            },
            None => !placeable(*point, *size, shape@.points, cos_theta as int, sin_theta as int),
        },
{
    if cos_theta < -1_000 || cos_theta > 1_000 || sin_theta < -1_000 || sin_theta > 1_000 {
        return None;
    }
    let mut world: Vec<(i64, i64)> = Vec::new();
    let mut i: usize = 0;
    while i < shape.points.len()
        invariant
            i <= shape.points.len(),
            valid_rotation(cos_theta as int, sin_theta as int),
            world@.len() == i,
            forall|k: int|
                0 <= k < i ==> (#[trigger] world@[k].0 as int, world@[k].1 as int) == world_point(
                    *point,
                    *size,
                    shape@.points[k],
                    cos_theta as int,
                    sin_theta as int,
                ),
        decreases shape.points.len() - i,
    {
        match place_point(point, size, shape.points[i], cos_theta, sin_theta) {
            Some(w) => {
                world.push(w);
            },
            None => {
                return None;
            },
        }
        i += 1;
    }
    assert forall|k: int| 0 <= k < shape@.points.len() implies fits(
        #[trigger] world_point(*point, *size, shape@.points[k], cos_theta as int, sin_theta as int).0,
    ) && fits(world_point(*point, *size, shape@.points[k], cos_theta as int, sin_theta as int).1) by {
        assert((world@[k].0 as int, world@[k].1 as int) == world_point(
            *point,
            *size,
            shape@.points[k],
            cos_theta as int,
            sin_theta as int,
        ));
    }
    Some(world)
}

/// Whether the axis-aligned boxes of two objects overlap. A box starts at
/// the object's position and spans its size; rotation plays no part, and
/// boxes that only touch do not overlap.
pub open spec fn overlaps(a_pos: PointWithDeg, a_size: Size, b_pos: PointWithDeg, b_size: Size) -> bool {
    &&& a_pos.x < b_pos.x + b_size.x
    &&& a_pos.x + a_size.x > b_pos.x
    &&& a_pos.y < b_pos.y + b_size.y
    &&& a_pos.y + a_size.y > b_pos.y
}

/// The overlap test does not depend on the order of its two objects.
pub proof fn lemma_overlaps_symmetric(a_pos: PointWithDeg, a_size: Size, b_pos: PointWithDeg, b_size: Size)
    ensures
        overlaps(a_pos, a_size, b_pos, b_size) == overlaps(b_pos, b_size, a_pos, a_size),
{
}

/// Tests two boxes given by position and size.
pub fn boxes_overlap(a_pos: &PointWithDeg, a_size: &Size, b_pos: &PointWithDeg, b_size: &Size) -> (hit: bool)
    ensures
        hit == overlaps(*a_pos, *a_size, *b_pos, *b_size),
{
    let ax: i128 = a_pos.x as i128;
    let ay: i128 = a_pos.y as i128;
    let bx: i128 = b_pos.x as i128;
    let by: i128 = b_pos.y as i128;
    ax < bx + b_size.x as i128 && ax + a_size.x as i128 > bx && ay < by + b_size.y as i128 && ay
        + a_size.y as i128 > by
}

/// Tests two objects, each given as position, size and shape, for overlap of
/// their axis-aligned boxes. The shapes are not looked at.
pub fn check_collision(obj1: (PointWithDeg, Size, CustomShape), obj2: (PointWithDeg, Size, CustomShape)) -> (hit: bool)
    ensures
        hit == overlaps(obj1.0, obj1.1, obj2.0, obj2.1),
{
    boxes_overlap(&obj1.0, &obj1.1, &obj2.0, &obj2.1)
}

} // verus!
