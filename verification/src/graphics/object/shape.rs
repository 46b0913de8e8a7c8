//! Mesh shapes: primitive figures that know how to append themselves to a
//! mesh builder as a list of mesh elements.

use vstd::prelude::*;
use crate::numeric::{Point2, Rect, Vector2, clamp_i64};
use crate::graphics::{
    Color, DrawParam, DrawState, DrawableComponent, DrawableObjectEssential, Texture,
};
use crate::graphics::object::{DrawCommand, DrawCommandView};

verus! {

/// How a figure is rasterized: filled, or stroked with a line width in
/// device units.
#[derive(Clone, Copy, PartialEq, Eq, Structural, Debug)]
pub enum DrawMode {
    Fill,
    Stroke { width: i64 },
}

/// One primitive a mesh is built from. Tolerances are in millionths of a
/// device unit (curve flattening precision).
#[derive(Clone, PartialEq, Eq, Debug)]
pub enum MeshElement {
    RectangleEl { mode: DrawMode, bounds: Rect, color: Color },
    CircleEl { mode: DrawMode, center: Point2, radius: i64, tolerance_micro: u32, color: Color },
    EllipseEl {
        mode: DrawMode,
        center: Point2,
        radius1: i64,
        radius2: i64,
        tolerance_micro: u32,
        color: Color,
    },
    PolygonEl { mode: DrawMode, points: Vec<Point2>, color: Color },
}

/// The mathematical value of a mesh element: as the element, with point
/// lists abstracted to sequences.
pub enum MeshElementView {
    RectangleEl { mode: DrawMode, bounds: Rect, color: Color },
    CircleEl { mode: DrawMode, center: Point2, radius: i64, tolerance_micro: u32, color: Color },
    EllipseEl {
        mode: DrawMode,
        center: Point2,
        radius1: i64,
        radius2: i64,
        tolerance_micro: u32,
        color: Color,
    },
    PolygonEl { mode: DrawMode, points: Seq<Point2>, color: Color },
}

impl DeepView for MeshElement {
    type V = MeshElementView;

    open spec fn deep_view(&self) -> MeshElementView {
        match self {
            MeshElement::RectangleEl { mode, bounds, color } => MeshElementView::RectangleEl {
                mode: *mode,
                bounds: *bounds,
                color: *color,
            },
            MeshElement::CircleEl { mode, center, radius, tolerance_micro, color } => MeshElementView::CircleEl {
                mode: *mode,
                center: *center,
                radius: *radius,
                tolerance_micro: *tolerance_micro,
                color: *color,
            },
            MeshElement::EllipseEl {
                mode,
                center,
                radius1,
                radius2,
                tolerance_micro,
                color,
            } => MeshElementView::EllipseEl {
                mode: *mode,
                center: *center,
                radius1: *radius1,
                radius2: *radius2,
                tolerance_micro: *tolerance_micro,
                color: *color,
            },
            MeshElement::PolygonEl { mode, points, color } => MeshElementView::PolygonEl {
                mode: *mode,
                points: points@,
                color: *color,
            },
        }
    }
}

/// The larger of two coordinates.
pub open spec fn larger_spec(a: i64, b: i64) -> i64 {
    if a >= b {
        a
    } else {
        b
    }
}

/// A figure that can append itself to a mesh builder.
pub trait MeshShape: Sized {
    /// The mesh elements the figure contributes, as mathematical values.
    spec fn elements_spec(&self) -> Seq<MeshElementView>;

    /// Append this figure's elements to the builder.
    fn add_to_builder(&self, builder: &mut Vec<MeshElement>)
        ensures
            final(builder).deep_view() == old(builder).deep_view() + self.elements_spec(),
    ;
}

/// An axis-aligned rectangle figure.
pub struct Rectangle {
    pub bounds: Rect,
    pub mode: DrawMode,
    pub color: Color,
}

impl Rectangle {
    pub fn new(bounds: Rect, mode: DrawMode, color: Color) -> (r: Rectangle)
        ensures
            r == (Rectangle { bounds, mode, color }),
    {
        Rectangle { bounds, mode, color }
    }

    pub fn get_bounds(&self) -> (r: Rect)
        ensures
            r == self.bounds,
    {
        self.bounds
    }

    pub fn get_mode(&self) -> (r: DrawMode)
        ensures
            r == self.mode,
    {
        self.mode
    }

    pub fn get_color(&self) -> (r: Color)
        ensures
            r == self.color,
    {
        self.color
    }

    pub fn change_position(&mut self, pos: Point2)
        ensures
            *final(self) == (Rectangle {
                bounds: Rect { x: pos.x, y: pos.y, ..old(self).bounds },
                ..*old(self)
            }),
    {
        self.bounds.x = pos.x;
        self.bounds.y = pos.y;
    }

    pub fn set_color(&mut self, color: Color)
        ensures
            *final(self) == (Rectangle { color, ..*old(self) }),
    {
        self.color = color;
    }

    pub fn change_mode(&mut self, mode: DrawMode)
        ensures
            *final(self) == (Rectangle { mode, ..*old(self) }),
    {
        self.mode = mode;
    }
}

impl MeshShape for Rectangle {
    open spec fn elements_spec(&self) -> Seq<MeshElementView> {
        seq![
            MeshElementView::RectangleEl { mode: self.mode, bounds: self.bounds, color: self.color },
        ]
    }

    fn add_to_builder(&self, builder: &mut Vec<MeshElement>) {
        builder.push(
            MeshElement::RectangleEl { mode: self.mode, bounds: self.bounds, color: self.color },
        );
        proof {
            assert(builder.deep_view() =~= old(builder).deep_view() + self.elements_spec());
        }
    }
}

/// A circle figure; the tolerance is the curve-flattening precision in
/// millionths of a device unit.
pub struct Circle {
    pub position: Point2,
    pub radius: i64,
    pub tolerance: u32,
    pub mode: DrawMode,
    pub color: Color,
}

impl Circle {
    pub fn new(pos: Point2, radius: i64, tolerance: u32, mode: DrawMode, color: Color) -> (r:
        Circle)
        ensures
            r == (Circle { position: pos, radius, tolerance, mode, color }),
    {
        Circle { position: pos, radius, tolerance, mode, color }
    }

    pub fn get_radius(&self) -> (r: i64)
        ensures
            r == self.radius,
    {
        self.radius
    }

    pub fn get_mode(&self) -> (r: DrawMode)
        ensures
            r == self.mode,
    {
        self.mode
    }

    /// Grow or shrink the radius, saturating at the range of `i64`.
    pub fn add_radius(&mut self, offset: i64)
        ensures
            *final(self) == (Circle {
                radius: crate::numeric::clamp_i64(old(self).radius + offset),
                ..*old(self)
            }),
    {
        self.radius = crate::numeric::add_clamped(self.radius, offset);
    }

    pub fn get_color(&self) -> (r: Color)
        ensures
            r == self.color,
    {
        self.color
    }

    pub fn get_tolerance(&self) -> (r: u32)
        ensures
            r == self.tolerance,
    {
        self.tolerance
    }

    pub fn get_position(&self) -> (r: Point2)
        ensures
            r == self.position,
    {
        self.position
    }

    pub fn set_radius(&mut self, radius: i64)
        ensures
            *final(self) == (Circle { radius, ..*old(self) }),
    {
        self.radius = radius;
    }

    pub fn change_position(&mut self, pos: Point2)
        ensures
            *final(self) == (Circle { position: pos, ..*old(self) }),
    {
        self.position = pos;
    }

    pub fn set_color(&mut self, color: Color)
        ensures
            *final(self) == (Circle { color, ..*old(self) }),
    {
        self.color = color;
    }

    pub fn change_mode(&mut self, mode: DrawMode)
        ensures
            *final(self) == (Circle { mode, ..*old(self) }),
    {
        self.mode = mode;
    }

    pub fn set_tolerance(&mut self, t: u32)
        ensures
            *final(self) == (Circle { tolerance: t, ..*old(self) }),
    {
        self.tolerance = t;
    }
}

impl MeshShape for Circle {
    open spec fn elements_spec(&self) -> Seq<MeshElementView> {
        seq![
            MeshElementView::CircleEl {
                mode: self.mode,
                center: self.position,
                radius: self.radius,
                tolerance_micro: self.tolerance,
                color: self.color,
            },
        ]
    }

    fn add_to_builder(&self, builder: &mut Vec<MeshElement>) {
        builder.push(
            MeshElement::CircleEl {
                mode: self.mode,
                center: self.position,
                radius: self.radius,
                tolerance_micro: self.tolerance,
                color: self.color,
            },
        );
        proof {
            assert(builder.deep_view() =~= old(builder).deep_view() + self.elements_spec());
        }
    }
}

/// An ellipse figure with two radii.
pub struct Ellipse {
    pub mode: DrawMode,
    pub position: Point2,
    pub radius1: i64,
    pub radius2: i64,
    pub tolerance: u32,
    pub color: Color,
}

impl Ellipse {
    pub fn new(
        pos: Point2,
        radius1: i64,
        radius2: i64,
        tolerance: u32,
        mode: DrawMode,
        color: Color,
    ) -> (r: Ellipse)
        ensures
            r == (Ellipse { mode, position: pos, radius1, radius2, tolerance, color }),
    {
        Ellipse { position: pos, radius1, radius2, tolerance, mode, color }
    }

    pub fn get_radius1(&self) -> (r: i64)
        ensures
            r == self.radius1,
    {
        self.radius1
    }

    pub fn get_radius2(&self) -> (r: i64)
        ensures
            r == self.radius2,
    {
        self.radius2
    }

    pub fn get_mode(&self) -> (r: DrawMode)
        ensures
            r == self.mode,
    {
        self.mode
    }

    pub fn get_color(&self) -> (r: Color)
        ensures
            r == self.color,
    {
        self.color
    }

    pub fn get_tolerance(&self) -> (r: u32)
        ensures
            r == self.tolerance,
    {
        self.tolerance
    }

    pub fn get_position(&self) -> (r: Point2)
        ensures
            r == self.position,
    {
        self.position
    }

    pub fn set_radius1(&mut self, radius: i64)
        ensures
            *final(self) == (Ellipse { radius1: radius, ..*old(self) }),
    {
        self.radius1 = radius;
    }

    pub fn set_radius2(&mut self, radius: i64)
        ensures
            *final(self) == (Ellipse { radius2: radius, ..*old(self) }),
    {
        self.radius2 = radius;
    }

    pub fn change_position(&mut self, pos: Point2)
        ensures
            *final(self) == (Ellipse { position: pos, ..*old(self) }),
    {
        self.position = pos;
    }

    pub fn set_color(&mut self, color: Color)
        ensures
            *final(self) == (Ellipse { color, ..*old(self) }),
    {
        self.color = color;
    }

    pub fn set_alpha(&mut self, alpha: u8)
        ensures
            *final(self) == (Ellipse { color: old(self).color.with_a(alpha), ..*old(self) }),
    {
        self.color.a = alpha;
    }

    pub fn get_alpha(&self) -> (a: u8)
        ensures
            a == self.color.a,
    {
        self.color.a
    }

    pub fn change_mode(&mut self, mode: DrawMode)
        ensures
            *final(self) == (Ellipse { mode, ..*old(self) }),
    {
        self.mode = mode;
    }

    pub fn set_tolerance(&mut self, t: u32)
        ensures
            *final(self) == (Ellipse { tolerance: t, ..*old(self) }),
    {
        self.tolerance = t;
    }
}

impl MeshShape for Ellipse {
    open spec fn elements_spec(&self) -> Seq<MeshElementView> {
        seq![
            MeshElementView::EllipseEl {
                mode: self.mode,
                center: self.position,
                radius1: self.radius1,
                radius2: self.radius2,
                tolerance_micro: self.tolerance,
                color: self.color,
            },
        ]
    }

    fn add_to_builder(&self, builder: &mut Vec<MeshElement>) {
        builder.push(
            MeshElement::EllipseEl {
                mode: self.mode,
                center: self.position,
                radius1: self.radius1,
                radius2: self.radius2,
                tolerance_micro: self.tolerance,
                color: self.color,
            },
        );
        proof {
            assert(builder.deep_view() =~= old(builder).deep_view() + self.elements_spec());
        }
    }
}

/// A polygon figure over an arbitrary point list.
pub struct Polygon {
    pub points: Vec<Point2>,
    pub mode: DrawMode,
    pub color: Color,
}

impl Polygon {
    pub fn new(points: Vec<Point2>, mode: DrawMode, color: Color) -> (r: Polygon)
        ensures
            r.points == points,
            r.mode == mode,
            r.color == color,
    {
        Polygon { points, mode, color }
    }

    pub fn get_points(&self) -> (r: &Vec<Point2>)
        ensures
            r == &self.points,
    {
        &self.points
    }

    pub fn get_mode(&self) -> (r: DrawMode)
        ensures
            r == self.mode,
    {
        self.mode
    }

    pub fn get_color(&self) -> (r: Color)
        ensures
            r == self.color,
    {
        self.color
    }

    pub fn reset_points(&mut self, points: Vec<Point2>)
        ensures
            final(self).points == points,
            final(self).mode == old(self).mode,
            final(self).color == old(self).color,
    {
        self.points = points;
    }

    pub fn set_color(&mut self, color: Color)
        ensures
            final(self).points == old(self).points,
            final(self).mode == old(self).mode,
            final(self).color == color,
    {
        self.color = color;
    }

    pub fn change_mode(&mut self, mode: DrawMode)
        ensures
            final(self).points == old(self).points,
            final(self).mode == mode,
            final(self).color == old(self).color,
    {
        self.mode = mode;
    }
}

impl MeshShape for Polygon {
    open spec fn elements_spec(&self) -> Seq<MeshElementView> {
        seq![
            MeshElementView::PolygonEl { mode: self.mode, points: self.points@, color: self.color },
        ]
    }

    fn add_to_builder(&self, builder: &mut Vec<MeshElement>) {
        let mut pts: Vec<Point2> = Vec::new();
        let n = self.points.len();
        let mut i: usize = 0;
        while i < n
            invariant
                i <= n,
                n == self.points@.len(),
                pts@ == self.points@.take(i as int),
            decreases n - i,
        {
            pts.push(self.points[i]);
            proof {
                assert(self.points@.take(i + 1) =~= self.points@.take(i as int).push(
                    self.points@[i as int],
                ));
            }
            i += 1;
        }
        proof {
            assert(self.points@.take(n as int) =~= self.points@);
        }
        builder.push(MeshElement::PolygonEl { mode: self.mode, points: pts, color: self.color });
        proof {
            assert(builder.deep_view() =~= old(builder).deep_view() + self.elements_spec());
        }
    }
}

/// A rectangle with elliptical corners, built from five rectangles and four
/// corner ellipses. The four borders are the corner radii, in order:
/// top-left, top-right, bottom-right, bottom-left. All coordinate arithmetic
/// saturates at the range of `i64`.
pub struct RadiusRect {
    pub pos_rect: Rect,
    pub borders: [Vector2; 4],
    pub mode: DrawMode,
    pub color: Color,
}

/// The corner-flattening tolerance of a radius rectangle, in millionths of a
/// device unit.
pub const RADIUS_RECT_TOLERANCE_MICRO: u32 = 100;

/// The nine mesh elements of a rectangle with elliptical corners.
pub open spec fn radius_rect_elements_spec(
    pos: Rect,
    b0: Vector2,
    b1: Vector2,
    b2: Vector2,
    b3: Vector2,
    mode: DrawMode,
    color: Color,
) -> Seq<MeshElementView> {
    let right = pos.x + pos.w;
    let bottom = pos.y + pos.h;
    seq![
        MeshElementView::RectangleEl {
            mode,
            bounds: Rect {
                x: clamp_i64(pos.x + b0.x),
                y: clamp_i64(pos.y + b0.y),
                w: clamp_i64(pos.w - (b0.x + larger_spec(b1.x as i64, b2.x as i64))),
                h: clamp_i64(pos.h - (b0.y + larger_spec(b3.y as i64, b2.y as i64))),
            },
            color,
        },
        MeshElementView::RectangleEl {
            mode,
            bounds: Rect {
                x: pos.x,
                y: clamp_i64(pos.y + b0.y),
                w: larger_spec(b0.x, b3.x),
                h: clamp_i64(pos.h - b0.y - b3.y),
            },
            color,
        },
        MeshElementView::RectangleEl {
            mode,
            bounds: Rect {
                x: clamp_i64(pos.x + b0.x),
                y: pos.y,
                w: clamp_i64(pos.w - b0.x - b1.x),
                h: larger_spec(b0.y, b1.y),
            },
            color,
        },
        MeshElementView::RectangleEl {
            mode,
            bounds: Rect {
                x: clamp_i64(right - larger_spec(b1.x, b2.x)),
                y: clamp_i64(pos.y + b1.y),
                w: larger_spec(b1.x, b2.x),
                h: clamp_i64(pos.h - b1.y - b2.y),
            },
            color,
        },
        MeshElementView::RectangleEl {
            mode,
            bounds: Rect {
                x: clamp_i64(pos.x + b3.x),
                y: clamp_i64(bottom - larger_spec(b0.y, b3.y)),
                w: clamp_i64(pos.w - b3.x - b2.x),
                h: larger_spec(b3.y, b2.y),
            },
            color,
        },
        MeshElementView::EllipseEl {
            mode,
            center: Point2 { x: clamp_i64(pos.x + b0.x), y: clamp_i64(pos.y + b0.y) },
            radius1: b0.x,
            radius2: b0.y,
            tolerance_micro: RADIUS_RECT_TOLERANCE_MICRO,
            color,
        },
        MeshElementView::EllipseEl {
            mode,
            center: Point2 { x: clamp_i64(right - b1.x), y: clamp_i64(pos.y + b1.y) },
            radius1: b1.x,
            radius2: b1.y,
            tolerance_micro: RADIUS_RECT_TOLERANCE_MICRO,
            color,
        },
        MeshElementView::EllipseEl {
            mode,
            center: Point2 { x: clamp_i64(right - b2.x), y: clamp_i64(bottom - b2.y) },
            radius1: b2.x,
            radius2: b2.y,
            tolerance_micro: RADIUS_RECT_TOLERANCE_MICRO,
            color,
        },
        MeshElementView::EllipseEl {
            mode,
            center: Point2 { x: clamp_i64(pos.x + b3.x), y: clamp_i64(bottom - b3.y) },
            radius1: b3.x,
            radius2: b3.y,
            tolerance_micro: RADIUS_RECT_TOLERANCE_MICRO,
            color,
        },
    ]
}

impl RadiusRect {
    pub fn new(pos_rect: Rect, borders: [Vector2; 4], mode: DrawMode, color: Color) -> (r:
        RadiusRect)
        ensures
            r.pos_rect == pos_rect,
            r.borders == borders,
            r.mode == mode,
            r.color == color,
    {
        RadiusRect { pos_rect, borders, mode, color }
    }

    pub fn get_drawing_area(&self) -> (r: Rect)
        ensures
            r == self.pos_rect,
    {
        self.pos_rect
    }
}

/// The larger of two coordinates.
fn larger(a: i64, b: i64) -> (r: i64)
    ensures
        r == larger_spec(a, b),
{
    if a >= b {
        a
    } else {
        b
    }
}

impl MeshShape for RadiusRect {
    open spec fn elements_spec(&self) -> Seq<MeshElementView> {
        radius_rect_elements_spec(
            self.pos_rect,
            self.borders@[0],
            self.borders@[1],
            self.borders@[2],
            self.borders@[3],
            self.mode,
            self.color,
        )
    }

    fn add_to_builder(&self, builder: &mut Vec<MeshElement>) {
        let pos = self.pos_rect;
        let b0 = self.borders[0];
        let b1 = self.borders[1];
        let b2 = self.borders[2];
        let b3 = self.borders[3];
        let right: i64 = crate::numeric::add_clamped(pos.x, pos.w);
        let bottom: i64 = crate::numeric::add_clamped(pos.y, pos.h);
        builder.push(
            MeshElement::RectangleEl {
                mode: self.mode,
                bounds: Rect {
                    x: crate::numeric::add_clamped(pos.x, b0.x),
                    y: crate::numeric::add_clamped(pos.y, b0.y),
                    w: crate::numeric::clamp128(
                        pos.w as i128 - (b0.x as i128 + larger(b1.x, b2.x) as i128),
                    ),
                    h: crate::numeric::clamp128(
                        pos.h as i128 - (b0.y as i128 + larger(b3.y, b2.y) as i128),
                    ),
                },
                color: self.color,
            },
        );
        builder.push(
            MeshElement::RectangleEl {
                mode: self.mode,
                bounds: Rect {
                    x: pos.x,
                    y: crate::numeric::add_clamped(pos.y, b0.y),
                    w: larger(b0.x, b3.x),
                    h: crate::numeric::clamp128(pos.h as i128 - b0.y as i128 - b3.y as i128),
                },
                color: self.color,
            },
        );
        builder.push(
            MeshElement::RectangleEl {
                mode: self.mode,
                bounds: Rect {
                    x: crate::numeric::add_clamped(pos.x, b0.x),
                    y: pos.y,
                    w: crate::numeric::clamp128(pos.w as i128 - b0.x as i128 - b1.x as i128),
                    h: larger(b0.y, b1.y),
                },
                color: self.color,
            },
        );
        builder.push(
            MeshElement::RectangleEl {
                mode: self.mode,
                bounds: Rect {
                    x: crate::numeric::clamp128(
                        (pos.x as i128 + pos.w as i128) - larger(b1.x, b2.x) as i128,
                    ),
                    y: crate::numeric::add_clamped(pos.y, b1.y),
                    w: larger(b1.x, b2.x),
                    h: crate::numeric::clamp128(pos.h as i128 - b1.y as i128 - b2.y as i128),
                },
                color: self.color,
            },
        );
        builder.push(
            MeshElement::RectangleEl {
                mode: self.mode,
                bounds: Rect {
                    x: crate::numeric::add_clamped(pos.x, b3.x),
                    y: crate::numeric::clamp128(
                        (pos.y as i128 + pos.h as i128) - larger(b0.y, b3.y) as i128,
                    ),
                    w: crate::numeric::clamp128(pos.w as i128 - b3.x as i128 - b2.x as i128),
                    h: larger(b3.y, b2.y),
                },
                color: self.color,
            },
        );
        builder.push(
            MeshElement::EllipseEl {
                mode: self.mode,
                center: Point2 {
                    x: crate::numeric::add_clamped(pos.x, b0.x),
                    y: crate::numeric::add_clamped(pos.y, b0.y),
                },
                radius1: b0.x,
                radius2: b0.y,
                tolerance_micro: RADIUS_RECT_TOLERANCE_MICRO,
                color: self.color,
            },
        );
        builder.push(
            MeshElement::EllipseEl {
                mode: self.mode,
                center: Point2 {
                    x: crate::numeric::clamp128((pos.x as i128 + pos.w as i128) - b1.x as i128),
                    y: crate::numeric::add_clamped(pos.y, b1.y),
                },
                radius1: b1.x,
                radius2: b1.y,
                tolerance_micro: RADIUS_RECT_TOLERANCE_MICRO,
                color: self.color,
            },
        );
        builder.push(
            MeshElement::EllipseEl {
                mode: self.mode,
                center: Point2 {
                    x: crate::numeric::clamp128((pos.x as i128 + pos.w as i128) - b2.x as i128),
                    y: crate::numeric::clamp128((pos.y as i128 + pos.h as i128) - b2.y as i128),
                },
                radius1: b2.x,
                radius2: b2.y,
                tolerance_micro: RADIUS_RECT_TOLERANCE_MICRO,
                color: self.color,
            },
        );
        builder.push(
            MeshElement::EllipseEl {
                mode: self.mode,
                center: Point2 {
                    x: crate::numeric::add_clamped(pos.x, b3.x),
                    y: crate::numeric::clamp128((pos.y as i128 + pos.h as i128) - b3.y as i128),
                },
                radius1: b3.x,
                radius2: b3.y,
                tolerance_micro: RADIUS_RECT_TOLERANCE_MICRO,
                color: self.color,
            },
        );
        proof {
            assert(builder.deep_view() =~= old(builder).deep_view() + self.elements_spec());
        }
    }
}

/// Any of the primitive figures, as one value.
pub enum Shape {
    Rectangle(Rectangle),
    Circle(Circle),
    Ellipse(Ellipse),
    Polygon(Polygon),
}

impl MeshShape for Shape {
    open spec fn elements_spec(&self) -> Seq<MeshElementView> {
        match self {
            Shape::Rectangle(r) => r.elements_spec(),
            Shape::Circle(c) => c.elements_spec(),
            Shape::Ellipse(e) => e.elements_spec(),
            Shape::Polygon(p) => p.elements_spec(),
        }
    }

    fn add_to_builder(&self, builder: &mut Vec<MeshElement>) {
        match self {
            Shape::Rectangle(r) => r.add_to_builder(builder),
            Shape::Circle(c) => c.add_to_builder(builder),
            Shape::Ellipse(e) => e.add_to_builder(builder),
            Shape::Polygon(p) => p.add_to_builder(builder),
        }
    }
}

/// A figure made drawable: the mesh the figure builds, painted with the
/// shared visibility, depth and draw parameters.
pub struct DrawableShape<S: MeshShape> {
    pub shape: S,
    pub drwob_essential: DrawableObjectEssential,
    pub draw_param: DrawParam,
}

impl<S: MeshShape> DrawableShape<S> {
    pub fn new(shape: S, depth: i8, color: Color) -> (r: DrawableShape<S>)
        ensures
            r.shape == shape,
            r.drwob_essential == (DrawableObjectEssential { visible: true, drawing_depth: depth }),
            r.draw_param == (DrawParam { color, ..DrawParam::default_spec() }),
    {
        let mut dparam = DrawParam::new();
        dparam.color = color;
        DrawableShape { shape, drwob_essential: DrawableObjectEssential::new(true, depth), draw_param: dparam }
    }

    /// Swap the figure; the mesh is derived from the figure on every draw.
    pub fn replace_shape(&mut self, shape: S)
        ensures
            final(self).shape == shape,
            final(self).drwob_essential == old(self).drwob_essential,
            final(self).draw_param == old(self).draw_param,
    {
        self.shape = shape;
    }

    pub fn ref_shape(&self) -> (r: &S)
        ensures
            r == &self.shape,
    {
        &self.shape
    }
}

impl<S: MeshShape> DrawableComponent for DrawableShape<S> {
    open spec fn state_spec(&self) -> DrawState {
        DrawState { essential: self.drwob_essential, param: self.draw_param }
    }

    open spec fn back_color_spec(&self) -> Color {
        self.draw_param.color
    }

    open spec fn texture_spec(&self) -> Option<Texture> {
        None
    }

    open spec fn draw_spec(&self) -> Seq<DrawCommandView> {
        if self.drwob_essential.visible {
            seq![
                DrawCommandView::Mesh {
                    elements: self.shape.elements_spec(),
                    param: self.draw_param,
                },
            ]
        } else {
            Seq::empty()
        }
    }

    fn draw(&self) -> (cmds: Vec<DrawCommand>) {
        let mut cmds: Vec<DrawCommand> = Vec::new();
        if self.drwob_essential.visible {
            let mut elements: Vec<MeshElement> = Vec::new();
            proof {
                assert(elements.deep_view() =~= Seq::<MeshElementView>::empty());
            }
            self.shape.add_to_builder(&mut elements);
            proof {
                assert(elements.deep_view() =~= self.shape.elements_spec());
            }
            cmds.push(DrawCommand::Mesh { elements, param: self.draw_param });
        }
        proof {
            assert(cmds.deep_view() =~= self.draw_spec());
        }
        cmds
    }

    fn conceal(&mut self) {
        self.drwob_essential.visible = false;
    }

    fn appear(&mut self) {
        self.drwob_essential.visible = true;
    }

    fn is_visible(&self) -> (r: bool) {
        self.drwob_essential.visible
    }

    fn set_drawing_depth(&mut self, depth: i8) {
        self.drwob_essential.drawing_depth = depth;
    }

    fn get_drawing_depth(&self) -> (d: i8) {
        self.drwob_essential.drawing_depth
    }
}

/// A speech-balloon frame: an outer rounded rectangle with a slightly inset
/// inner one, giving a frame of the given width.
pub struct FramedTextBalloon {
    pub inner: DrawableShape<RadiusRect>,
    pub outer: DrawableShape<RadiusRect>,
    pub drwob_essential: DrawableObjectEssential,
}

impl FramedTextBalloon {
    pub fn new(
        pos_rect: Rect,
        borders: [Vector2; 4],
        frame_width: i64,
        inner_color: Color,
        outer_color: Color,
        depth: i8,
    ) -> (r: FramedTextBalloon)
        ensures
            r.inner.shape == (RadiusRect {
                pos_rect: Rect {
                    x: clamp_i64(pos_rect.x + frame_width),
                    y: clamp_i64(pos_rect.y + frame_width),
                    w: clamp_i64(pos_rect.w - (frame_width * 2)),
                    h: clamp_i64(pos_rect.h - (frame_width * 2)),
                },
                borders,
                mode: DrawMode::Fill,
                color: inner_color,
            }),
            r.inner.drwob_essential == (DrawableObjectEssential {
                visible: true,
                drawing_depth: 0,
            }),
            r.inner.draw_param == DrawParam::default_spec(),
            r.outer.shape == (RadiusRect {
                pos_rect,
                borders,
                mode: DrawMode::Fill,
                color: outer_color,
            }),
            r.outer.drwob_essential == (DrawableObjectEssential {
                visible: true,
                drawing_depth: 0,
            }),
            r.outer.draw_param == DrawParam::default_spec(),
            r.drwob_essential == (DrawableObjectEssential { visible: true, drawing_depth: depth }),
    {
        let white = Color { r: 255, g: 255, b: 255, a: 255 };
        let inner_rect = Rect {
            x: crate::numeric::add_clamped(pos_rect.x, frame_width),
            y: crate::numeric::add_clamped(pos_rect.y, frame_width),
            w: crate::numeric::clamp128(pos_rect.w as i128 - (frame_width as i128 * 2)),
            h: crate::numeric::clamp128(pos_rect.h as i128 - (frame_width as i128 * 2)),
        };
        FramedTextBalloon {
            inner: DrawableShape::new(
                RadiusRect::new(inner_rect, borders, DrawMode::Fill, inner_color),
                0,
                white,
            ),
            outer: DrawableShape::new(
                RadiusRect::new(pos_rect, borders, DrawMode::Fill, outer_color),
                0,
                white,
            ),
            drwob_essential: DrawableObjectEssential::new(true, depth),
        }
    }

    pub fn get_drawing_area(&self) -> (r: Rect)
        ensures
            r == self.outer.shape.pos_rect,
    {
        self.outer.ref_shape().get_drawing_area()
    }
}

impl DrawableComponent for FramedTextBalloon {
    open spec fn state_spec(&self) -> DrawState {
        DrawState { essential: self.drwob_essential, param: DrawParam::default_spec() }
    }

    open spec fn back_color_spec(&self) -> Color {
        DrawParam::default_spec().color
    }

    open spec fn texture_spec(&self) -> Option<Texture> {
        None
    }

    open spec fn draw_spec(&self) -> Seq<DrawCommandView> {
        if self.drwob_essential.visible {
            self.outer.draw_spec() + self.inner.draw_spec()
        } else {
            Seq::empty()
        }
    }

    fn draw(&self) -> (cmds: Vec<DrawCommand>) {
        let mut cmds: Vec<DrawCommand> = Vec::new();
        if self.drwob_essential.visible {
            let mut outer_cmds = self.outer.draw();
            cmds.append(&mut outer_cmds);
            let ghost pre = cmds.deep_view();
            let mut inner_cmds = self.inner.draw();
            cmds.append(&mut inner_cmds);
            proof {
                assert(cmds.deep_view() =~= pre + self.inner.draw_spec());
                assert(pre =~= self.outer.draw_spec());
            }
        }
        proof {
            assert(cmds.deep_view() =~= self.draw_spec());
        }
        cmds
    }

    fn conceal(&mut self) {
        self.drwob_essential.visible = false;
    }

    fn appear(&mut self) {
        self.drwob_essential.visible = true;
    }

    fn is_visible(&self) -> (r: bool) {
        self.drwob_essential.visible
    }

    fn set_drawing_depth(&mut self, depth: i8) {
        self.drwob_essential.drawing_depth = depth;
    }

    fn get_drawing_depth(&self) -> (d: i8) {
        self.drwob_essential.drawing_depth
    }
}

} // verus!
