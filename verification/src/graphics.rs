//! Shared drawing state and the capability traits every drawable implements:
//! visibility and depth (`DrawableComponent`), positioning (`DrawableObject`),
//! and depth-comparison helpers for caller-side paint ordering.
//!
//! A drawable never talks to a window or a GPU; `draw` returns the list of
//! draw commands the object emits in its current state, and the embedding
//! application replays them against the host renderer.

pub mod draw;
pub mod object;

use vstd::prelude::*;
use crate::numeric::{Point2, Rect, Vector2};
use crate::graphics::object::{DrawCommand, DrawCommandView};

verus! {

/// An RGBA color, eight bits per channel; `a == 255` is fully opaque.
#[derive(Clone, Copy, PartialEq, Eq, Structural, Debug)]
pub struct Color {
    pub r: u8,
    pub g: u8,
    pub b: u8,
    pub a: u8,
}

impl Color {
    pub fn new(r: u8, g: u8, b: u8, a: u8) -> (c: Color)
        ensures
            c == (Color { r, g, b, a }),
    {
        Color { r, g, b, a }
    }

    /// The color packed as `0xRRGGBBAA`.
    pub open spec fn from_rgba_u32_spec(v: u32) -> Color {
        Color {
            r: ((v >> 24) & 0xff) as u8,
            g: ((v >> 16) & 0xff) as u8,
            b: ((v >> 8) & 0xff) as u8,
            a: (v & 0xff) as u8,
        }
    }

    pub fn from_rgba_u32(v: u32) -> (c: Color)
        ensures
            c == Color::from_rgba_u32_spec(v),
    {
        let r: u32 = (v >> 24) & 0xff;
        let g: u32 = (v >> 16) & 0xff;
        let b: u32 = (v >> 8) & 0xff;
        let a: u32 = v & 0xff;
        proof {
            assert((v >> 24) & 0xff < 256 && (v >> 16) & 0xff < 256 && (v >> 8) & 0xff < 256 && v
                & 0xff < 256) by (bit_vector);
        }
        Color { r: r as u8, g: g as u8, b: b as u8, a: a as u8 }
    }

    /// The same color with the alpha channel replaced.
    pub open spec fn with_a(self, a: u8) -> Color {
        Color { a, ..self }
    }
}

/// A handle to a host-loaded image, together with its pixel size; the
/// embedding application maps `id` back to the real image.
#[derive(Clone, Copy, PartialEq, Eq, Structural, Debug)]
pub struct Texture {
    pub id: u64,
    pub width: u32,
    pub height: u32,
}

/// A handle to a host off-screen render target, with its pixel size.
#[derive(Clone, Copy, PartialEq, Eq, Structural, Debug)]
pub struct Canvas {
    pub id: u64,
    pub width: u32,
    pub height: u32,
}

/// A handle to a host-loaded font face.
#[derive(Clone, Copy, PartialEq, Eq, Structural, Debug)]
pub struct Font {
    pub id: u64,
}

/// The transform and visual state one draw call needs.
///
/// Units: `dest` and `offset` are device units; `scale` is in thousandths
/// (1000 = unit scale); `rotation` is in milliradians; `src` is the source
/// crop in thousandths of the texture extent (the full texture is
/// `(0, 0, 1000, 1000)`).
#[derive(Clone, Copy, PartialEq, Eq, Structural, Debug)]
pub struct DrawParam {
    pub dest: Point2,
    pub scale: Vector2,
    pub rotation: i64,
    pub src: Rect,
    pub color: Color,
    pub offset: Point2,
}

impl DrawParam {
    /// The identity transform: origin destination, unit scale, no rotation,
    /// full source, opaque white.
    pub open spec fn default_spec() -> DrawParam {
        DrawParam {
            dest: Point2 { x: 0, y: 0 },
            scale: Vector2 { x: 1000, y: 1000 },
            rotation: 0,
            src: Rect { x: 0, y: 0, w: 1000, h: 1000 },
            color: Color { r: 255, g: 255, b: 255, a: 255 },
            offset: Point2 { x: 0, y: 0 },
        }
    }

    pub fn new() -> (p: DrawParam)
        ensures
            p == DrawParam::default_spec(),
    {
        DrawParam {
            dest: Point2 { x: 0, y: 0 },
            scale: Vector2 { x: 1000, y: 1000 },
            rotation: 0,
            src: Rect { x: 0, y: 0, w: 1000, h: 1000 },
            color: Color { r: 255, g: 255, b: 255, a: 255 },
            offset: Point2 { x: 0, y: 0 },
        }
    }

    /// The same parameters with the destination replaced.
    pub fn dest(self, p: Point2) -> (r: DrawParam)
        ensures
            r == (DrawParam { dest: p, ..self }),
    {
        DrawParam { dest: p, ..self }
    }
}

/// The fields every drawable shares: a visibility flag and a signed
/// draw-order depth.
#[derive(Clone, Copy, PartialEq, Eq, Structural, Debug)]
pub struct DrawableObjectEssential {
    pub visible: bool,
    pub drawing_depth: i8,
}

impl DrawableObjectEssential {
    pub fn new(visible: bool, depth: i8) -> (e: DrawableObjectEssential)
        ensures
            e == (DrawableObjectEssential { visible, drawing_depth: depth }),
    {
        DrawableObjectEssential { visible, drawing_depth: depth }
    }
}

/// The whole observable drawing state of a drawable: its essential fields
/// plus its draw parameters.
#[derive(Clone, Copy, PartialEq, Eq, Structural, Debug)]
pub struct DrawState {
    pub essential: DrawableObjectEssential,
    pub param: DrawParam,
}

impl DrawState {
    pub open spec fn with_visible(self, visible: bool) -> DrawState {
        DrawState {
            essential: DrawableObjectEssential { visible, ..self.essential },
            ..self
        }
    }

    pub open spec fn with_depth(self, depth: i8) -> DrawState {
        DrawState {
            essential: DrawableObjectEssential { drawing_depth: depth, ..self.essential },
            ..self
        }
    }

    pub open spec fn with_dest(self, dest: Point2) -> DrawState {
        DrawState { param: DrawParam { dest, ..self.param }, ..self }
    }

    pub open spec fn with_scale(self, scale: Vector2) -> DrawState {
        DrawState { param: DrawParam { scale, ..self.param }, ..self }
    }

    pub open spec fn with_rotation(self, rotation: i64) -> DrawState {
        DrawState { param: DrawParam { rotation, ..self.param }, ..self }
    }

    pub open spec fn with_crop(self, src: Rect) -> DrawState {
        DrawState { param: DrawParam { src, ..self.param }, ..self }
    }

    pub open spec fn with_color(self, color: Color) -> DrawState {
        DrawState { param: DrawParam { color, ..self.param }, ..self }
    }

    pub open spec fn with_alpha(self, a: u8) -> DrawState {
        DrawState { param: DrawParam { color: self.param.color.with_a(a), ..self.param }, ..self }
    }

    pub open spec fn with_offset(self, offset: Point2) -> DrawState {
        DrawState { param: DrawParam { offset, ..self.param }, ..self }
    }
}

/// Anything that can be drawn, shown, hidden, and depth-ordered.
///
/// `draw` emits commands instead of touching the host renderer; after `hide`,
/// and until `appear` restores visibility, it must emit nothing.
pub trait DrawableComponent: Sized {
    /// The observable drawing state.
    spec fn state_spec(&self) -> DrawState;

    /// The clear/background color where the object has one; for plain
    /// objects this coincides with the draw color.
    spec fn back_color_spec(&self) -> Color;

    /// The swappable texture the object paints, where it has one.
    spec fn texture_spec(&self) -> Option<Texture>;

    /// The commands `draw` emits in the current state, as mathematical
    /// values.
    spec fn draw_spec(&self) -> Seq<DrawCommandView>;

    fn draw(&self) -> (cmds: Vec<DrawCommand>)
        ensures
            cmds.deep_view() == self.draw_spec(),
            !self.state_spec().essential.visible ==> cmds@.len() == 0,
    ;

    fn conceal(&mut self)
        ensures
            final(self).state_spec() == old(self).state_spec().with_visible(false),
            final(self).back_color_spec() == old(self).back_color_spec(),
            final(self).texture_spec() == old(self).texture_spec(),
    ;

    fn appear(&mut self)
        ensures
            final(self).state_spec() == old(self).state_spec().with_visible(true),
            final(self).back_color_spec() == old(self).back_color_spec(),
            final(self).texture_spec() == old(self).texture_spec(),
    ;

    fn is_visible(&self) -> (r: bool)
        ensures
            r == self.state_spec().essential.visible,
    ;

    fn set_drawing_depth(&mut self, depth: i8)
        ensures
            final(self).state_spec() == old(self).state_spec().with_depth(depth),
            final(self).back_color_spec() == old(self).back_color_spec(),
            final(self).texture_spec() == old(self).texture_spec(),
    ;

    fn get_drawing_depth(&self) -> (d: i8)
        ensures
            d == self.state_spec().essential.drawing_depth,
    ;
}

/// A drawable with a draw-origin position.
pub trait DrawableObject: DrawableComponent {
    fn set_position(&mut self, pos: Point2)
        ensures
            final(self).state_spec() == old(self).state_spec().with_dest(pos),
            final(self).back_color_spec() == old(self).back_color_spec(),
            final(self).texture_spec() == old(self).texture_spec(),
    ;

    fn get_position(&self) -> (p: Point2)
        ensures
            p == self.state_spec().param.dest,
    ;

    fn move_diff(&mut self, offset: Vector2)
        ensures
            final(self).state_spec() == old(self).state_spec().with_dest(
                old(self).state_spec().param.dest.moved_spec(offset),
            ),
            final(self).back_color_spec() == old(self).back_color_spec(),
            final(self).texture_spec() == old(self).texture_spec(),
    ;
}

/// Hiding is idempotent and `appear` undoes any number of hides: hiding an
/// object twice and then showing it once leaves it visible, with every other
/// part of its drawing state untouched — there is no stuck double-hidden
/// state.
pub proof fn lemma_hide_hide_appear(s: DrawState)
    ensures
        s.with_visible(false).with_visible(false).with_visible(true) == s.with_visible(true),
        s.with_visible(true).essential.visible,
        s.with_visible(true).essential.drawing_depth == s.essential.drawing_depth,
        s.with_visible(true).param == s.param,
{
}

/// How two depths compare for paint ordering: a larger depth sorts in front
/// of (before) a smaller one, so deeper objects come first in a sorted
/// sequence and are painted first.
pub open spec fn depth_order_spec(ad: i8, bd: i8) -> std::cmp::Ordering {
    if ad > bd {
        std::cmp::Ordering::Less
    } else if ad < bd {
        std::cmp::Ordering::Greater
    } else {
        std::cmp::Ordering::Equal
    }
}

/// The depth comparison is a total order on depths — equality exactly on
/// equal depths, strictly reversed when the arguments swap, and transitive —
/// so sorting a sequence of drawables with it is well defined and puts
/// larger depths strictly earlier.
pub proof fn lemma_depth_order_total(a: i8, b: i8, c: i8)
    ensures
        depth_order_spec(a, b) == std::cmp::Ordering::Equal <==> a == b,
        depth_order_spec(a, b) == std::cmp::Ordering::Less <==> depth_order_spec(b, a)
            == std::cmp::Ordering::Greater,
        depth_order_spec(a, b) == std::cmp::Ordering::Less && depth_order_spec(b, c)
            == std::cmp::Ordering::Less ==> depth_order_spec(a, c) == std::cmp::Ordering::Less,
        depth_order_spec(a, b) == std::cmp::Ordering::Less <==> a > b,
{
}

/// Depth comparator for sorting drawables: objects with larger (deeper)
/// depth values are ordered to the front of the sequence.
pub fn drawable_object_sort_with_depth<T: DrawableObject, U: DrawableObject>(a: &T, b: &U) -> (r:
    std::cmp::Ordering)
    ensures
        r == depth_order_spec(
            a.state_spec().essential.drawing_depth,
            b.state_spec().essential.drawing_depth,
        ),
{
    let ad = a.get_drawing_depth();
    let bd = b.get_drawing_depth();
    if ad > bd {
        std::cmp::Ordering::Less
    } else if ad < bd {
        std::cmp::Ordering::Greater
    } else {
        std::cmp::Ordering::Equal
    }
}

/// As `drawable_object_sort_with_depth`, for boxed drawables.
pub fn boxed_drawable_object_sort_with_depth<T: DrawableObject, U: DrawableObject>(
    a: &Box<T>,
    b: &Box<U>,
) -> (r: std::cmp::Ordering)
    ensures
        r == depth_order_spec(
            a.state_spec().essential.drawing_depth,
            b.state_spec().essential.drawing_depth,
        ),
{
    let ad = a.get_drawing_depth();
    let bd = b.get_drawing_depth();
    if ad > bd {
        std::cmp::Ordering::Less
    } else if ad < bd {
        std::cmp::Ordering::Greater
    } else {
        std::cmp::Ordering::Equal
    }
}

} // verus!
