//! Outlines of objects, as points in the unit square.

use vstd::prelude::*;

verus! {

/// The kind of outline a shape stands for.
#[derive(Debug)]
pub enum CustomShapeVariant {
    Rectangle,
    Triangle,
    Circle,
    Other(String),
}

/// What a shape kind is, with its label as text.
pub enum ShapeKind {
    Rectangle,
    Triangle,
    Circle,
    Other(Seq<char>),
}

impl View for CustomShapeVariant {
    type V = ShapeKind;

    open spec fn view(&self) -> ShapeKind {
        match self {
            CustomShapeVariant::Rectangle => ShapeKind::Rectangle,
            CustomShapeVariant::Triangle => ShapeKind::Triangle,
            CustomShapeVariant::Circle => ShapeKind::Circle,
            CustomShapeVariant::Other(label) => ShapeKind::Other(label@),
        }
    }
}

impl Clone for CustomShapeVariant {
    fn clone(&self) -> (c: Self)
        ensures
            c@ == self@,
    {
        match self {
            CustomShapeVariant::Rectangle => CustomShapeVariant::Rectangle,
            CustomShapeVariant::Triangle => CustomShapeVariant::Triangle,
            CustomShapeVariant::Circle => CustomShapeVariant::Circle,
            CustomShapeVariant::Other(label) => CustomShapeVariant::Other(label.clone()),
        }
    }
}

/// A shape given by its boundary points, in drawing order. A point is a pair
/// of thousandths: `(0, 0)` is one corner of the shape's bounding box and
/// `(1_000, 1_000)` the opposite one.
#[derive(Debug)]
pub struct CustomShape {
    pub points: Vec<(i64, i64)>,
    pub variant: CustomShapeVariant,
}

/// What a shape is: its points in order, and its kind.
pub struct ShapeModel {
    pub points: Seq<(i64, i64)>,
    pub variant: ShapeKind,
}

impl View for CustomShape {
    type V = ShapeModel;

    open spec fn view(&self) -> ShapeModel {
        ShapeModel { points: self.points@, variant: self.variant@ }
    }
}

impl Clone for CustomShape {
    fn clone(&self) -> (c: Self)
        ensures
            c@ == self@,
    {
        let mut points: Vec<(i64, i64)> = Vec::new();
        let mut i: usize = 0;
        while i < self.points.len()
            invariant
                i <= self.points.len(),
                points@ == self.points@.take(i as int),
            decreases self.points.len() - i,
        {
            points.push(self.points[i]);
            assert(self.points@.take(i + 1) == self.points@.take(i as int).push(self.points@[i as int]));
            i += 1;
        }
        assert(self.points@.take(i as int) == self.points@);
        CustomShape { points, variant: self.variant.clone() }
    }
}

/// The closed outline of the unit square, starting with the side from
/// `(0, 0)` to `(0, 1_000)`.
pub open spec fn default_points() -> Seq<(i64, i64)> {
    seq![(0i64, 0i64), (0i64, 1_000i64), (1_000i64, 1_000i64), (1_000i64, 0i64), (0i64, 0i64)]
}

/// The closed outline of the unit square, starting with the side from
/// `(0, 0)` to `(1_000, 0)`.
pub open spec fn rectangle_points() -> Seq<(i64, i64)> {
    seq![(0i64, 0i64), (1_000i64, 0i64), (1_000i64, 1_000i64), (0i64, 1_000i64), (0i64, 0i64)]
}

/// The closed outline of the triangle with its apex at `(500, 1_000)`.
pub open spec fn triangle_points() -> Seq<(i64, i64)> {
    seq![(0i64, 0i64), (500i64, 1_000i64), (1_000i64, 0i64), (0i64, 0i64)]
}

impl Default for CustomShape {
    fn default() -> (s: Self)
        ensures
            s@.points == default_points(),
            s@.variant == ShapeKind::Rectangle,
    {
        let mut points: Vec<(i64, i64)> = Vec::new();
        points.push((0, 0));
        points.push((0, 1_000));
        points.push((1_000, 1_000));
        points.push((1_000, 0));
        points.push((0, 0));
        assert(points@ =~= default_points());
        Self { points, variant: CustomShapeVariant::Rectangle }
    }
}

impl CustomShape {
    /// A shape with the given points and kind.
    pub fn new(points: Vec<(i64, i64)>, variant: CustomShapeVariant) -> (s: Self)
        ensures
            s.points == points,
            s.variant == variant,
    {
        Self { points, variant }
    }

    /// Appends one point to the outline.
    pub fn add_point(&mut self, point: (i64, i64))
        ensures
            final(self)@.points == old(self)@.points.push(point),
            final(self).variant == old(self).variant,
    {
        self.points.push(point);
    }

    /// Replaces the outline.
    pub fn override_points(&mut self, points: Vec<(i64, i64)>)
        ensures
            final(self).points == points,
            final(self).variant == old(self).variant,
    {
        self.points = points;
    }

    /// The unit square as a closed outline.
    pub fn gen_rectangle() -> (s: Self)
        ensures
            s@.points == rectangle_points(),
            s@.variant == ShapeKind::Rectangle,
    {
        let mut points: Vec<(i64, i64)> = Vec::new();
        points.push((0, 0));
        points.push((1_000, 0));
        points.push((1_000, 1_000));
        points.push((0, 1_000));
        points.push((0, 0));
        assert(points@ =~= rectangle_points());
        Self { points, variant: CustomShapeVariant::Rectangle }
    }

    /// A triangle as a closed outline.
    pub fn gen_triangle() -> (s: Self)
        ensures
            s@.points == triangle_points(),
            s@.variant == ShapeKind::Triangle,
    {
        let mut points: Vec<(i64, i64)> = Vec::new();
        points.push((0, 0));
        points.push((500, 1_000));
        points.push((1_000, 0));
        points.push((0, 0));
        assert(points@ =~= triangle_points());
        Self { points, variant: CustomShapeVariant::Triangle }
    }
}

} // verus!
