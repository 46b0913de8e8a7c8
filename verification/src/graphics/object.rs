//! Concrete drawables and the capability traits layered on top of
//! `DrawableComponent`/`DrawableObject`: textured objects, text, movable
//! objects driven by tick-parameterized position functions, and per-tick
//! effect chains that prune themselves when an effect reports it is done.

pub mod menu;
pub mod shadow;
pub mod shape;
pub mod sub_screen;
pub mod tile_batch;

use vstd::prelude::*;
use crate::clock::Clock;
use crate::numeric::{Point2, Rect, Vector2, Vector2u, clamp_i64, div_milli_spec, linear_component, scale_extent};
use crate::graphics::{
    Canvas, Color, DrawParam, DrawState, DrawableComponent, DrawableObject,
    DrawableObjectEssential, Font, Texture, depth_order_spec,
};
use crate::graphics::object::shape::{MeshElement, MeshElementView};
use crate::graphics::object::tile_batch::BatchEntry;

verus! {

/// One draw call, as plain data: what to paint and with which parameters.
/// The embedding application replays these against the host renderer;
/// consecutive tile commands on one texture batch into a single host call.
#[derive(Clone, PartialEq, Eq, Debug)]
pub enum DrawCommand {
    /// Paint a whole texture.
    Sprite { texture: Texture, param: DrawParam },
    /// Paint a text run in the given font.
    Text { content: String, font: FontInformation, param: DrawParam },
    /// Paint a single character in the given font.
    Glyph { ch: char, font: FontInformation, param: DrawParam },
    /// Paint the contents of an off-screen canvas.
    CanvasBlit { canvas: Canvas, param: DrawParam },
    /// Paint one tile region of a batch's texture.
    Tile { texture: Texture, entry: BatchEntry, param: DrawParam },
    /// Paint a mesh built from the given elements.
    Mesh { elements: Vec<MeshElement>, param: DrawParam },
}

/// The mathematical value of a draw command: as the command, with texts and
/// element lists abstracted to sequences.
pub enum DrawCommandView {
    Sprite { texture: Texture, param: DrawParam },
    Text { content: Seq<char>, font: FontInformation, param: DrawParam },
    Glyph { ch: char, font: FontInformation, param: DrawParam },
    CanvasBlit { canvas: Canvas, param: DrawParam },
    Tile { texture: Texture, entry: BatchEntry, param: DrawParam },
    Mesh { elements: Seq<MeshElementView>, param: DrawParam },
}

impl DeepView for DrawCommand {
    type V = DrawCommandView;

    open spec fn deep_view(&self) -> DrawCommandView {
        match self {
            DrawCommand::Sprite { texture, param } => DrawCommandView::Sprite {
                texture: *texture,
                param: *param,
            },
            DrawCommand::Text { content, font, param } => DrawCommandView::Text {
                content: content@,
                font: *font,
                param: *param,
            },
            DrawCommand::Glyph { ch, font, param } => DrawCommandView::Glyph {
                ch: *ch,
                font: *font,
                param: *param,
            },
            DrawCommand::CanvasBlit { canvas, param } => DrawCommandView::CanvasBlit {
                canvas: *canvas,
                param: *param,
            },
            DrawCommand::Tile { texture, entry, param } => DrawCommandView::Tile {
                texture: *texture,
                entry: *entry,
                param: *param,
            },
            DrawCommand::Mesh { elements, param } => DrawCommandView::Mesh {
                elements: elements.deep_view(),
                param: *param,
            },
        }
    }
}

/// A font face together with the glyph scale (in device units per glyph
/// axis) and the text color.
#[derive(Clone, Copy, PartialEq, Eq, Structural, Debug)]
pub struct FontInformation {
    pub font: Font,
    pub scale: Vector2u,
    pub color: Color,
}

impl FontInformation {
    pub fn new(font: Font, scale: Vector2u, color: Color) -> (f: FontInformation)
        ensures
            f == (FontInformation { font, scale, color }),
    {
        FontInformation { font, scale, color }
    }
}

/// A position function: given the object's current position and the ticks
/// elapsed since the function was installed, it yields the next position.
/// Animations are authored against zero-based elapsed time.
#[derive(Clone, Copy, PartialEq, Eq, Structural, Debug)]
pub enum MoveFn {
    /// Always the given point, whatever the elapsed time.
    Fixed(Point2),
    /// `start` displaced by `velocity` device units per elapsed tick.
    Linear { start: Point2, velocity: Vector2 },
    /// The current position displaced by `velocity` on every call.
    Drift(Vector2),
}

/// Elapsed tick counts are capped at `u32::MAX` before entering position
/// arithmetic, so that products stay well within machine range; an animation
/// that old is saturated anyway.
pub open spec fn capped_elapsed(elapsed: u64) -> int {
    if elapsed > u32::MAX {
        u32::MAX as int
    } else {
        elapsed as int
    }
}

/// What a position function yields: `f(current, elapsed)`, each coordinate
/// saturating at the range of `i64`.
pub open spec fn move_fn_eval_spec(f: MoveFn, current: Point2, elapsed: u64) -> Point2 {
    match f {
        MoveFn::Fixed(p) => p,
        MoveFn::Linear { start, velocity } => Point2 {
            x: clamp_i64(start.x + velocity.x * capped_elapsed(elapsed)),
            y: clamp_i64(start.y + velocity.y * capped_elapsed(elapsed)),
        },
        MoveFn::Drift(v) => current.moved_spec(v),
    }
}

/// Evaluate a position function.
pub fn move_fn_eval(f: &MoveFn, current: Point2, elapsed: u64) -> (p: Point2)
    ensures
        p == move_fn_eval_spec(*f, current, elapsed),
{
    let e: u32 = if elapsed > u32::MAX as u64 {
        u32::MAX
    } else {
        elapsed as u32
    };
    match f {
        MoveFn::Fixed(p) => *p,
        MoveFn::Linear { start, velocity } => Point2 {
            x: linear_component(start.x, velocity.x, e),
            y: linear_component(start.y, velocity.y, e),
        },
        MoveFn::Drift(v) => current.moved(*v),
    }
}

/// What an effect function reports after one application: whether it wants
/// to keep running or is finished and should be pruned.
#[derive(Clone, Copy, PartialEq, Eq, Structural, Debug)]
pub enum EffectFnStatus {
    EffectContinue,
    EffectFinish,
}

/// A per-tick effect: applied to a movable object's drawing state once per
/// tick, in registration order, and pruned after the application on which it
/// reports `EffectFinish`.
#[derive(Clone, Copy, PartialEq, Eq, Structural, Debug)]
pub enum EffectFn {
    /// Keeps the object as it is until tick `at`, then hides it and finishes.
    HideAt { at: Clock },
    /// Keeps the object as it is until tick `at`, then shows it and finishes.
    AppearAt { at: Clock },
    /// Displaces the object by `velocity` on every tick; finishes on the
    /// first tick at or after `until` (that tick still displaces).
    DriftUntil { velocity: Vector2, until: Clock },
    /// Moves the alpha channel toward `target` by at most `step` per tick;
    /// finishes on the application that reaches `target`.
    FadeTo { target: u8, step: u8 },
}

/// The effect-function type an effect list holds.
pub type GenericEffectFn = EffectFn;

/// One application of an effect to a drawing state at tick `t`: the updated
/// state and the reported status.
pub open spec fn effect_step_spec(s: DrawState, e: EffectFn, t: Clock) -> (DrawState, EffectFnStatus) {
    match e {
        EffectFn::HideAt { at } => if t >= at {
            (s.with_visible(false), EffectFnStatus::EffectFinish)
        } else {
            (s, EffectFnStatus::EffectContinue)
        },
        EffectFn::AppearAt { at } => if t >= at {
            (s.with_visible(true), EffectFnStatus::EffectFinish)
        } else {
            (s, EffectFnStatus::EffectContinue)
        },
        EffectFn::DriftUntil { velocity, until } => (
            s.with_dest(s.param.dest.moved_spec(velocity)),
            if t >= until {
                EffectFnStatus::EffectFinish
            } else {
                EffectFnStatus::EffectContinue
            },
        ),
        EffectFn::FadeTo { target, step } => {
            let a2 = fade_toward_spec(s.param.color.a, target, step);
            (
                s.with_alpha(a2),
                if a2 == target {
                    EffectFnStatus::EffectFinish
                } else {
                    EffectFnStatus::EffectContinue
                },
            )
        },
    }
}

/// Alpha moved from `a` toward `target` by at most `step`.
pub open spec fn fade_toward_spec(a: u8, target: u8, step: u8) -> u8 {
    if a > target {
        if a - target < step {
            target
        } else {
            (a - step) as u8
        }
    } else {
        if target - a < step {
            target
        } else {
            (a + step) as u8
        }
    }
}

/// Compute one effect application on a copy of the drawing state.
pub fn effect_step_exec(s: DrawState, e: &EffectFn, t: Clock) -> (r: (DrawState, EffectFnStatus))
    ensures
        r == effect_step_spec(s, *e, t),
{
    match e {
        EffectFn::HideAt { at } => if t >= *at {
            (
                DrawState {
                    essential: DrawableObjectEssential {
                        visible: false,
                        ..s.essential
                    },
                    ..s
                },
                EffectFnStatus::EffectFinish,
            )
        } else {
            (s, EffectFnStatus::EffectContinue)
        },
        EffectFn::AppearAt { at } => if t >= *at {
            (
                DrawState {
                    essential: DrawableObjectEssential {
                        visible: true,
                        ..s.essential
                    },
                    ..s
                },
                EffectFnStatus::EffectFinish,
            )
        } else {
            (s, EffectFnStatus::EffectContinue)
        },
        EffectFn::DriftUntil { velocity, until } => (
            DrawState {
                param: DrawParam { dest: s.param.dest.moved(*velocity), ..s.param },
                ..s
            },
            if t >= *until {
                EffectFnStatus::EffectFinish
            } else {
                EffectFnStatus::EffectContinue
            },
        ),
        EffectFn::FadeTo { target, step } => {
            let a = s.param.color.a;
            let a2: u8 = if a > *target {
                if a - *target < *step {
                    *target
                } else {
                    a - *step
                }
            } else {
                if *target - a < *step {
                    *target
                } else {
                    a + *step
                }
            };
            (
                DrawState {
                    param: DrawParam {
                        color: Color { a: a2, ..s.param.color },
                        ..s.param
                    },
                    ..s
                },
                if a2 == *target {
                    EffectFnStatus::EffectFinish
                } else {
                    EffectFnStatus::EffectContinue
                },
            )
        },
    }
}

/// The fields a movable object carries: the installed position function (none
/// means the object is frozen), the tick the function was installed at, and
/// the position the object was created at.
#[derive(Clone, Copy, PartialEq, Eq, Structural, Debug)]
pub struct MovableEssential {
    pub move_func: Option<MoveFn>,
    pub mf_set_time: Clock,
    pub init_position: Point2,
}

impl MovableEssential {
    pub fn new(f: Option<MoveFn>, t: Clock, init_pos: Point2) -> (m: MovableEssential)
        ensures
            m == (MovableEssential { move_func: f, mf_set_time: t, init_position: init_pos }),
    {
        MovableEssential { move_func: f, mf_set_time: t, init_position: init_pos }
    }

    /// A copy of these fields carrying a different position function.
    pub fn clone_with(&self, f: Option<MoveFn>) -> (m: MovableEssential)
        ensures
            m == (MovableEssential { move_func: f, ..*self }),
    {
        MovableEssential {
            move_func: f,
            mf_set_time: self.mf_set_time,
            init_position: self.init_position,
        }
    }
}

/// The fields an effect-capable wrapper carries: the ordered effect list.
pub struct HasGenericEffectEssential {
    pub effects_list: Vec<EffectFn>,
}

impl HasGenericEffectEssential {
    /// The queued effects, in registration order.
    pub open spec fn effects_spec(&self) -> Seq<EffectFn> {
        self.effects_list@
    }

    pub fn new(list: Vec<EffectFn>) -> (e: HasGenericEffectEssential)
        ensures
            e.effects_spec() == list@,
    {
        HasGenericEffectEssential { effects_list: list }
    }
}

/// A drawable painted through a texture-style draw parameter: scale,
/// rotation, crop, color, alpha and transform offset are all settable.
pub trait TextureObject: DrawableObject {
    /// Whether `set_color` also retargets the background color; true for
    /// objects whose background is the draw color itself.
    spec fn color_sets_back() -> bool;

    fn set_scale(&mut self, scale: Vector2)
        ensures
            final(self).state_spec() == old(self).state_spec().with_scale(scale),
            final(self).back_color_spec() == old(self).back_color_spec(),
            final(self).texture_spec() == old(self).texture_spec(),
    ;

    fn get_scale(&self) -> (s: Vector2)
        ensures
            s == self.state_spec().param.scale,
    ;

    fn set_rotation(&mut self, rad_milli: i64)
        ensures
            final(self).state_spec() == old(self).state_spec().with_rotation(rad_milli),
            final(self).back_color_spec() == old(self).back_color_spec(),
            final(self).texture_spec() == old(self).texture_spec(),
    ;

    fn get_rotation(&self) -> (r: i64)
        ensures
            r == self.state_spec().param.rotation,
    ;

    fn set_crop(&mut self, crop: Rect)
        ensures
            final(self).state_spec() == old(self).state_spec().with_crop(crop),
            final(self).back_color_spec() == old(self).back_color_spec(),
            final(self).texture_spec() == old(self).texture_spec(),
    ;

    fn get_crop(&self) -> (c: Rect)
        ensures
            c == self.state_spec().param.src,
    ;

    fn set_drawing_color(&mut self, color: Color)
        ensures
            final(self).state_spec() == old(self).state_spec().with_color(color),
            final(self).back_color_spec() == color,
            final(self).texture_spec() == old(self).texture_spec(),
    ;

    fn get_drawing_color(&self) -> (c: Color)
        ensures
            c == self.back_color_spec(),
    ;

    fn set_alpha(&mut self, alpha: u8)
        ensures
            final(self).state_spec() == old(self).state_spec().with_alpha(alpha),
            final(self).back_color_spec() == old(self).back_color_spec().with_a(alpha),
            final(self).texture_spec() == old(self).texture_spec(),
    ;

    fn get_alpha(&self) -> (a: u8)
        ensures
            a == self.state_spec().param.color.a,
    ;

    fn set_transform_offset(&mut self, offset: Point2)
        ensures
            final(self).state_spec() == old(self).state_spec().with_offset(offset),
            final(self).back_color_spec() == old(self).back_color_spec(),
            final(self).texture_spec() == old(self).texture_spec(),
    ;

    fn get_transform_offset(&self) -> (o: Point2)
        ensures
            o == self.state_spec().param.offset,
    ;

    /// Swap the texture; objects that do not paint a swappable texture
    /// (text, canvases) ignore the call.
    fn replace_texture(&mut self, texture: Texture)
        ensures
            final(self).state_spec() == old(self).state_spec(),
            final(self).back_color_spec() == old(self).back_color_spec(),
            final(self).texture_spec() == (if old(self).texture_spec().is_some() {
                Some(texture)
            } else {
                None
            }),
    ;

    fn set_color(&mut self, color: Color)
        ensures
            final(self).state_spec() == old(self).state_spec().with_color(color),
            final(self).back_color_spec() == (if Self::color_sets_back() {
                color
            } else {
                old(self).back_color_spec()
            }),
            final(self).texture_spec() == old(self).texture_spec(),
    ;

    fn get_color(&self) -> (c: Color)
        ensures
            c == self.state_spec().param.color,
    ;
}

/// Remembers the tick it was created at.
pub trait HasBirthTime: Sized {
    spec fn birth_time_spec(&self) -> Clock;

    fn get_birth_time(&self) -> (t: Clock)
        ensures
            t == self.birth_time_spec(),
    ;
}

/// A textured drawable whose position is driven by an installed position
/// function of the elapsed ticks since installation.
pub trait MovableObject: TextureObject + HasBirthTime {
    /// The movable fields: installed function, installation tick, initial
    /// position.
    spec fn mov_spec(&self) -> MovableEssential;

    /// Advance the position to what the installed function yields for the
    /// ticks elapsed since it was installed; frozen objects stay put.
    fn move_with_func(&mut self, t: Clock)
        requires
            t >= old(self).mov_spec().mf_set_time,
        ensures
            final(self).state_spec() == (match old(self).mov_spec().move_func {
                Some(f) => old(self).state_spec().with_dest(
                    move_fn_eval_spec(
                        f,
                        old(self).state_spec().param.dest,
                        (t - old(self).mov_spec().mf_set_time) as u64,
                    ),
                ),
                None => old(self).state_spec(),
            }),
            final(self).mov_spec() == old(self).mov_spec(),
            final(self).back_color_spec() == old(self).back_color_spec(),
            final(self).texture_spec() == old(self).texture_spec(),
            final(self).birth_time_spec() == old(self).birth_time_spec(),
    ;

    /// Replace the position function and reset the elapsed-time origin to
    /// `now`; `None` freezes the object.
    fn override_move_func(&mut self, move_fn: Option<MoveFn>, now: Clock)
        ensures
            final(self).state_spec() == old(self).state_spec(),
            final(self).mov_spec() == (MovableEssential {
                move_func: move_fn,
                mf_set_time: now,
                init_position: old(self).mov_spec().init_position,
            }),
            final(self).back_color_spec() == old(self).back_color_spec(),
            final(self).texture_spec() == old(self).texture_spec(),
            final(self).birth_time_spec() == old(self).birth_time_spec(),
    ;

    /// The tick the current position function was installed at.
    fn mf_start_timing(&self) -> (t: Clock)
        ensures
            t == self.mov_spec().mf_set_time,
    ;

    /// Whether the object is frozen (no position function installed).
    fn is_stop(&self) -> (r: bool)
        ensures
            r == self.mov_spec().move_func.is_none(),
    ;

    /// Apply one effect to the drawing state at tick `t` and report its
    /// status; everything but the drawing state is untouched.
    fn apply_effect(&mut self, e: &EffectFn, t: Clock) -> (st: EffectFnStatus)
        ensures
            final(self).state_spec() == effect_step_spec(old(self).state_spec(), *e, t).0,
            st == effect_step_spec(old(self).state_spec(), *e, t).1,
            final(self).mov_spec() == old(self).mov_spec(),
            final(self).texture_spec() == old(self).texture_spec(),
            final(self).birth_time_spec() == old(self).birth_time_spec(),
    ;
}

/// Depth comparator for sorting boxed movable objects: larger (deeper)
/// depth values are ordered to the front of the sequence.
pub fn boxed_movable_object_sort_with_depth<T: MovableObject, U: MovableObject>(
    a: &Box<T>,
    b: &Box<U>,
) -> (r: std::cmp::Ordering)
    ensures
        r == depth_order_spec(
            a.state_spec().essential.drawing_depth,
            b.state_spec().essential.drawing_depth,
        ),
{
    let ad = a.get_drawing_depth();
    let bd = b.get_drawing_depth();
    if ad > bd {
        std::cmp::Ordering::Less
    } else if ad < bd {
        std::cmp::Ordering::Greater
    } else {
        std::cmp::Ordering::Equal
    }
}

/// A drawable painting one whole texture.
pub struct UniTexture {
    pub drwob_essential: DrawableObjectEssential,
    pub texture: Texture,
    pub draw_param: DrawParam,
}

impl UniTexture {
    pub fn new(texture: Texture, pos: Point2, scale: Vector2, rotation: i64, drawing_depth: i8) -> (
        r: UniTexture)
        ensures
            r.state_spec() == (DrawState {
                essential: DrawableObjectEssential { visible: true, drawing_depth },
                param: DrawParam {
                    dest: pos,
                    scale,
                    rotation,
                    ..DrawParam::default_spec()
                },
            }),
            r.texture_spec() == Some(texture),
    {
        let mut param = DrawParam::new();
        param.dest = pos;
        param.scale = scale;
        param.rotation = rotation;
        UniTexture {
            drwob_essential: DrawableObjectEssential::new(true, drawing_depth),
            texture,
            draw_param: param,
        }
    }
}

impl UniTexture {
    /// The texture extent in pixels.
    pub fn get_texture_size(&self) -> (s: Vector2u)
        ensures
            s == (Vector2u { x: self.texture.width, y: self.texture.height }),
    {
        Vector2u { x: self.texture.width, y: self.texture.height }
    }

    /// The painted extent: the texture size times the scale.
    pub open spec fn drawing_size_spec(&self) -> Vector2 {
        Vector2 {
            x: clamp_i64(div_milli_spec(self.texture.width * self.draw_param.scale.x)),
            y: clamp_i64(div_milli_spec(self.texture.height * self.draw_param.scale.y)),
        }
    }

    pub fn get_drawing_size(&self) -> (s: Vector2)
        ensures
            s == self.drawing_size_spec(),
    {
        Vector2 {
            x: scale_extent(self.texture.width, self.draw_param.scale.x),
            y: scale_extent(self.texture.height, self.draw_param.scale.y),
        }
    }

    /// The area actually painted: the destination with the scaled extent.
    pub fn get_drawing_area(&self) -> (r: Rect)
        ensures
            r == (Rect {
                x: self.draw_param.dest.x,
                y: self.draw_param.dest.y,
                w: self.drawing_size_spec().x,
                h: self.drawing_size_spec().y,
            }),
    {
        let size = self.get_drawing_size();
        Rect { x: self.draw_param.dest.x, y: self.draw_param.dest.y, w: size.x, h: size.y }
    }
}

impl DrawableComponent for UniTexture {
    open spec fn state_spec(&self) -> DrawState {
        DrawState { essential: self.drwob_essential, param: self.draw_param }
    }

    open spec fn back_color_spec(&self) -> Color {
        self.draw_param.color
    }

    open spec fn texture_spec(&self) -> Option<Texture> {
        Some(self.texture)
    }

    open spec fn draw_spec(&self) -> Seq<DrawCommandView> {
        if self.drwob_essential.visible {
            seq![DrawCommandView::Sprite { texture: self.texture, param: self.draw_param }]
        } else {
            Seq::empty()
        }
    }

    fn draw(&self) -> (cmds: Vec<DrawCommand>) {
        let mut cmds: Vec<DrawCommand> = Vec::new();
        if self.drwob_essential.visible {
            cmds.push(DrawCommand::Sprite { texture: self.texture, param: self.draw_param });
        }
        proof {
            assert(cmds.deep_view() =~= self.draw_spec());
        }
        cmds
    }

    fn conceal(&mut self) {
        self.drwob_essential.visible = false;
    }

    fn appear(&mut self) {
        self.drwob_essential.visible = true;
    }

    fn is_visible(&self) -> (r: bool) {
        self.drwob_essential.visible
    }

    fn set_drawing_depth(&mut self, depth: i8) {
        self.drwob_essential.drawing_depth = depth;
    }

    fn get_drawing_depth(&self) -> (d: i8) {
        self.drwob_essential.drawing_depth
    }
}

impl DrawableObject for UniTexture {
    fn set_position(&mut self, pos: Point2) {
        self.draw_param.dest = pos;
    }

    fn get_position(&self) -> (p: Point2) {
        self.draw_param.dest
    }

    fn move_diff(&mut self, offset: Vector2) {
        self.draw_param.dest = self.draw_param.dest.moved(offset);
    }
}

impl TextureObject for UniTexture {
    open spec fn color_sets_back() -> bool {
        true
    }

    fn set_scale(&mut self, scale: Vector2) {
        self.draw_param.scale = scale;
    }

    fn get_scale(&self) -> (s: Vector2) {
        self.draw_param.scale
    }

    fn set_rotation(&mut self, rad_milli: i64) {
        self.draw_param.rotation = rad_milli;
    }

    fn get_rotation(&self) -> (r: i64) {
        self.draw_param.rotation
    }

    fn set_crop(&mut self, crop: Rect) {
        self.draw_param.src = crop;
    }

    fn get_crop(&self) -> (c: Rect) {
        self.draw_param.src
    }

    fn set_drawing_color(&mut self, color: Color) {
        self.draw_param.color = color;
    }

    fn get_drawing_color(&self) -> (c: Color) {
        self.draw_param.color
    }

    fn set_alpha(&mut self, alpha: u8) {
        self.draw_param.color.a = alpha;
    }

    fn get_alpha(&self) -> (a: u8) {
        self.draw_param.color.a
    }

    fn set_transform_offset(&mut self, offset: Point2) {
        self.draw_param.offset = offset;
    }

    fn get_transform_offset(&self) -> (o: Point2) {
        self.draw_param.offset
    }

    fn replace_texture(&mut self, texture: Texture) {
        self.texture = texture;
    }

    fn set_color(&mut self, color: Color) {
        self.draw_param.color = color;
    }

    fn get_color(&self) -> (c: Color) {
        self.draw_param.color
    }
}

/// A drawable painting one whole texture, with a position function attached.
pub struct MovableUniTexture {
    pub drwob_essential: DrawableObjectEssential,
    pub texture: Texture,
    pub draw_param: DrawParam,
    pub mv_essential: MovableEssential,
    pub birth_time: Clock,
}

impl MovableUniTexture {
    pub fn new(
        texture: Texture,
        pos: Point2,
        scale: Vector2,
        rotation: i64,
        drawing_depth: i8,
        mf: Option<MoveFn>,
        now: Clock,
    ) -> (r: MovableUniTexture)
        ensures
            r.state_spec() == (DrawState {
                essential: DrawableObjectEssential { visible: true, drawing_depth },
                param: DrawParam {
                    dest: pos,
                    scale,
                    rotation,
                    ..DrawParam::default_spec()
                },
            }),
            r.texture_spec() == Some(texture),
            r.mov_spec() == (MovableEssential { move_func: mf, mf_set_time: now, init_position: pos }),
            r.birth_time_spec() == now,
    {
        let mut param = DrawParam::new();
        param.dest = pos;
        param.scale = scale;
        param.rotation = rotation;
        MovableUniTexture {
            drwob_essential: DrawableObjectEssential::new(true, drawing_depth),
            texture,
            draw_param: param,
            mv_essential: MovableEssential::new(mf, now, pos),
            birth_time: now,
        }
    }
}

impl MovableUniTexture {
    /// The texture extent in pixels.
    pub fn get_texture_size(&self) -> (s: Vector2u)
        ensures
            s == (Vector2u { x: self.texture.width, y: self.texture.height }),
    {
        Vector2u { x: self.texture.width, y: self.texture.height }
    }

    /// The painted extent: the texture size times the scale.
    pub open spec fn drawing_size_spec(&self) -> Vector2 {
        Vector2 {
            x: clamp_i64(div_milli_spec(self.texture.width * self.draw_param.scale.x)),
            y: clamp_i64(div_milli_spec(self.texture.height * self.draw_param.scale.y)),
        }
    }

    pub fn get_drawing_size(&self) -> (s: Vector2)
        ensures
            s == self.drawing_size_spec(),
    {
        Vector2 {
            x: scale_extent(self.texture.width, self.draw_param.scale.x),
            y: scale_extent(self.texture.height, self.draw_param.scale.y),
        }
    }

    /// The area actually painted: the destination with the scaled extent.
    pub fn get_drawing_area(&self) -> (r: Rect)
        ensures
            r == (Rect {
                x: self.draw_param.dest.x,
                y: self.draw_param.dest.y,
                w: self.drawing_size_spec().x,
                h: self.drawing_size_spec().y,
            }),
    {
        let size = self.get_drawing_size();
        Rect { x: self.draw_param.dest.x, y: self.draw_param.dest.y, w: size.x, h: size.y }
    }
}

impl DrawableComponent for MovableUniTexture {
    open spec fn state_spec(&self) -> DrawState {
        DrawState { essential: self.drwob_essential, param: self.draw_param }
    }

    open spec fn back_color_spec(&self) -> Color {
        self.draw_param.color
    }

    open spec fn texture_spec(&self) -> Option<Texture> {
        Some(self.texture)
    }

    open spec fn draw_spec(&self) -> Seq<DrawCommandView> {
        if self.drwob_essential.visible {
            seq![DrawCommandView::Sprite { texture: self.texture, param: self.draw_param }]
        } else {
            Seq::empty()
        }
    }

    fn draw(&self) -> (cmds: Vec<DrawCommand>) {
        let mut cmds: Vec<DrawCommand> = Vec::new();
        if self.drwob_essential.visible {
            cmds.push(DrawCommand::Sprite { texture: self.texture, param: self.draw_param });
        }
        proof {
            assert(cmds.deep_view() =~= self.draw_spec());
        }
        cmds
    }

    fn conceal(&mut self) {
        self.drwob_essential.visible = false;
    }

    fn appear(&mut self) {
        self.drwob_essential.visible = true;
    }

    fn is_visible(&self) -> (r: bool) {
        self.drwob_essential.visible
    }

    fn set_drawing_depth(&mut self, depth: i8) {
        self.drwob_essential.drawing_depth = depth;
    }

    fn get_drawing_depth(&self) -> (d: i8) {
        self.drwob_essential.drawing_depth
    }
}

impl DrawableObject for MovableUniTexture {
    fn set_position(&mut self, pos: Point2) {
        self.draw_param.dest = pos;
    }

    fn get_position(&self) -> (p: Point2) {
        self.draw_param.dest
    }

    fn move_diff(&mut self, offset: Vector2) {
        self.draw_param.dest = self.draw_param.dest.moved(offset);
    }
}

impl TextureObject for MovableUniTexture {
    open spec fn color_sets_back() -> bool {
        true
    }

    fn set_scale(&mut self, scale: Vector2) {
        self.draw_param.scale = scale;
    }

    fn get_scale(&self) -> (s: Vector2) {
        self.draw_param.scale
    }

    fn set_rotation(&mut self, rad_milli: i64) {
        self.draw_param.rotation = rad_milli;
    }

    fn get_rotation(&self) -> (r: i64) {
        self.draw_param.rotation
    }

    fn set_crop(&mut self, crop: Rect) {
        self.draw_param.src = crop;
    }

    fn get_crop(&self) -> (c: Rect) {
        self.draw_param.src
    }

    fn set_drawing_color(&mut self, color: Color) {
        self.draw_param.color = color;
    }

    fn get_drawing_color(&self) -> (c: Color) {
        self.draw_param.color
    }

    fn set_alpha(&mut self, alpha: u8) {
        self.draw_param.color.a = alpha;
    }

    fn get_alpha(&self) -> (a: u8) {
        self.draw_param.color.a
    }

    fn set_transform_offset(&mut self, offset: Point2) {
        self.draw_param.offset = offset;
    }

    fn get_transform_offset(&self) -> (o: Point2) {
        self.draw_param.offset
    }

    fn replace_texture(&mut self, texture: Texture) {
        self.texture = texture;
    }

    fn set_color(&mut self, color: Color) {
        self.draw_param.color = color;
    }

    fn get_color(&self) -> (c: Color) {
        self.draw_param.color
    }
}

impl HasBirthTime for MovableUniTexture {
    open spec fn birth_time_spec(&self) -> Clock {
        self.birth_time
    }

    fn get_birth_time(&self) -> (t: Clock) {
        self.birth_time
    }
}

impl MovableObject for MovableUniTexture {
    open spec fn mov_spec(&self) -> MovableEssential {
        self.mv_essential
    }

    fn move_with_func(&mut self, t: Clock) {
        match &self.mv_essential.move_func {
            Some(f) => {
                let f = *f;
                let next = move_fn_eval(&f, self.draw_param.dest, t - self.mv_essential.mf_set_time);
                self.draw_param.dest = next;
            },
            None => {},
        }
    }

    fn override_move_func(&mut self, move_fn: Option<MoveFn>, now: Clock) {
        self.mv_essential.move_func = move_fn;
        self.mv_essential.mf_set_time = now;
    }

    fn mf_start_timing(&self) -> (t: Clock) {
        self.mv_essential.mf_set_time
    }

    fn is_stop(&self) -> (r: bool) {
        self.mv_essential.move_func.is_none()
    }

    fn apply_effect(&mut self, e: &EffectFn, t: Clock) -> (st: EffectFnStatus) {
        let s = DrawState { essential: self.drwob_essential, param: self.draw_param };
        let (s2, st) = effect_step_exec(s, e, t);
        self.drwob_essential = s2.essential;
        self.draw_param = s2.param;
        st
    }
}

/// How many glyphs of a vertical text are painted: the crop's height ratio
/// (in thousandths, clamped to `0..=1000`) limits the glyph count; a zero
/// glyph scale paints everything.
pub open spec fn vertical_glyph_count_spec(len: nat, scale_y: u32, src_h: i64) -> int {
    let r: int = if src_h < 0 {
        0
    } else if src_h > 1000 {
        1000
    } else {
        src_h as int
    };
    if scale_y == 0 {
        len as int
    } else {
        let k = (len * r) / 1000;
        if k < len {
            k
        } else {
            len as int
        }
    }
}

/// A drawable text run with a position function attached.
pub struct MovableText {
    pub drwob_essential: DrawableObjectEssential,
    pub text: String,
    pub font_info: FontInformation,
    pub draw_param: DrawParam,
    pub mv_essential: MovableEssential,
    pub birth_time: Clock,
}

impl MovableText {
    pub fn new(
        text: String,
        pos: Point2,
        scale: Vector2,
        rotation: i64,
        drawing_depth: i8,
        mf: Option<MoveFn>,
        font_info: FontInformation,
        now: Clock,
    ) -> (r: MovableText)
        ensures
            r.state_spec() == (DrawState {
                essential: DrawableObjectEssential { visible: true, drawing_depth },
                param: DrawParam {
                    dest: pos,
                    scale,
                    rotation,
                    color: font_info.color,
                    ..DrawParam::default_spec()
                },
            }),
            r.text == text,
            r.font_info == font_info,
            r.mov_spec() == (MovableEssential { move_func: mf, mf_set_time: now, init_position: pos }),
            r.birth_time_spec() == now,
    {
        let mut param = DrawParam::new();
        param.dest = pos;
        param.scale = scale;
        param.rotation = rotation;
        let mut ret_text = MovableText {
            drwob_essential: DrawableObjectEssential::new(true, drawing_depth),
            text,
            font_info,
            draw_param: param,
            mv_essential: MovableEssential::new(mf, now, pos),
            birth_time: now,
        };
        ret_text.apply_font_information();
        ret_text
    }

    /// Re-apply the font information to the draw parameters: the text is
    /// painted in the font's color.
    pub fn apply_font_information(&mut self)
        ensures
            *final(self) == (MovableText {
                draw_param: DrawParam {
                    color: old(self).font_info.color,
                    ..old(self).draw_param
                },
                ..*old(self)
            }),
    {
        self.draw_param.color = self.font_info.color;
    }

    pub fn get_font_scale(&self) -> (s: Vector2u)
        ensures
            s == self.font_info.scale,
    {
        self.font_info.scale
    }

    pub fn set_font_scale(&mut self, scale: Vector2u)
        ensures
            *final(self) == (MovableText {
                font_info: FontInformation { scale, ..old(self).font_info },
                draw_param: DrawParam {
                    color: old(self).font_info.color,
                    ..old(self).draw_param
                },
                ..*old(self)
            }),
    {
        self.font_info.scale = scale;
        self.apply_font_information();
    }

    pub fn change_font(&mut self, font: Font)
        ensures
            *final(self) == (MovableText {
                font_info: FontInformation { font, ..old(self).font_info },
                draw_param: DrawParam {
                    color: old(self).font_info.color,
                    ..old(self).draw_param
                },
                ..*old(self)
            }),
    {
        self.font_info.font = font;
        self.apply_font_information();
    }

    pub fn get_text(&self) -> (r: String)
        ensures
            r == self.text,
    {
        self.text.clone()
    }

    pub fn replace_text(&mut self, text: &str)
        ensures
            final(self).text@ == text@,
            final(self).drwob_essential == old(self).drwob_essential,
            final(self).font_info == old(self).font_info,
            final(self).draw_param == (DrawParam {
                color: old(self).font_info.color,
                ..old(self).draw_param
            }),
            final(self).mv_essential == old(self).mv_essential,
            final(self).birth_time == old(self).birth_time,
    {
        self.text = text.to_owned();
        self.apply_font_information();
    }
}

impl DrawableComponent for MovableText {
    open spec fn state_spec(&self) -> DrawState {
        DrawState { essential: self.drwob_essential, param: self.draw_param }
    }

    open spec fn back_color_spec(&self) -> Color {
        self.draw_param.color
    }

    open spec fn texture_spec(&self) -> Option<Texture> {
        None
    }

    open spec fn draw_spec(&self) -> Seq<DrawCommandView> {
        if self.drwob_essential.visible {
            seq![
                DrawCommandView::Text {
                    content: self.text@,
                    font: self.font_info,
                    param: self.draw_param,
                },
            ]
        } else {
            Seq::empty()
        }
    }

    fn draw(&self) -> (cmds: Vec<DrawCommand>) {
        let mut cmds: Vec<DrawCommand> = Vec::new();
        if self.drwob_essential.visible {
            cmds.push(
                DrawCommand::Text {
                    content: self.text.clone(),
                    font: self.font_info,
                    param: self.draw_param,
                },
            );
        }
        proof {
            assert(cmds.deep_view() =~= self.draw_spec());
        }
        cmds
    }

    fn conceal(&mut self) {
        self.drwob_essential.visible = false;
    }

    fn appear(&mut self) {
        self.drwob_essential.visible = true;
    }

    fn is_visible(&self) -> (r: bool) {
        self.drwob_essential.visible
    }

    fn set_drawing_depth(&mut self, depth: i8) {
        self.drwob_essential.drawing_depth = depth;
    }

    fn get_drawing_depth(&self) -> (d: i8) {
        self.drwob_essential.drawing_depth
    }
}

impl DrawableObject for MovableText {
    fn set_position(&mut self, pos: Point2) {
        self.draw_param.dest = pos;
    }

    fn get_position(&self) -> (p: Point2) {
        self.draw_param.dest
    }

    fn move_diff(&mut self, offset: Vector2) {
        self.draw_param.dest = self.draw_param.dest.moved(offset);
    }
}

impl TextureObject for MovableText {
    open spec fn color_sets_back() -> bool {
        true
    }

    fn set_scale(&mut self, scale: Vector2) {
        self.draw_param.scale = scale;
    }

    fn get_scale(&self) -> (s: Vector2) {
        self.draw_param.scale
    }

    fn set_rotation(&mut self, rad_milli: i64) {
        self.draw_param.rotation = rad_milli;
    }

    fn get_rotation(&self) -> (r: i64) {
        self.draw_param.rotation
    }

    fn set_crop(&mut self, crop: Rect) {
        self.draw_param.src = crop;
    }

    fn get_crop(&self) -> (c: Rect) {
        self.draw_param.src
    }

    fn set_drawing_color(&mut self, color: Color) {
        self.draw_param.color = color;
    }

    fn get_drawing_color(&self) -> (c: Color) {
        self.draw_param.color
    }

    fn set_alpha(&mut self, alpha: u8) {
        self.draw_param.color.a = alpha;
    }

    fn get_alpha(&self) -> (a: u8) {
        self.draw_param.color.a
    }

    fn set_transform_offset(&mut self, offset: Point2) {
        self.draw_param.offset = offset;
    }

    fn get_transform_offset(&self) -> (o: Point2) {
        self.draw_param.offset
    }

    fn replace_texture(&mut self, _texture: Texture) {
    }

    fn set_color(&mut self, color: Color) {
        self.draw_param.color = color;
    }

    fn get_color(&self) -> (c: Color) {
        self.draw_param.color
    }
}

impl HasBirthTime for MovableText {
    open spec fn birth_time_spec(&self) -> Clock {
        self.birth_time
    }

    fn get_birth_time(&self) -> (t: Clock) {
        self.birth_time
    }
}

impl MovableObject for MovableText {
    open spec fn mov_spec(&self) -> MovableEssential {
        self.mv_essential
    }

    fn move_with_func(&mut self, t: Clock) {
        match &self.mv_essential.move_func {
            Some(f) => {
                let f = *f;
                let next = move_fn_eval(&f, self.draw_param.dest, t - self.mv_essential.mf_set_time);
                self.draw_param.dest = next;
            },
            None => {},
        }
    }

    fn override_move_func(&mut self, move_fn: Option<MoveFn>, now: Clock) {
        self.mv_essential.move_func = move_fn;
        self.mv_essential.mf_set_time = now;
    }

    fn mf_start_timing(&self) -> (t: Clock) {
        self.mv_essential.mf_set_time
    }

    fn is_stop(&self) -> (r: bool) {
        self.mv_essential.move_func.is_none()
    }

    fn apply_effect(&mut self, e: &EffectFn, t: Clock) -> (st: EffectFnStatus) {
        let s = DrawState { essential: self.drwob_essential, param: self.draw_param };
        let (s2, st) = effect_step_exec(s, e, t);
        self.drwob_essential = s2.essential;
        self.draw_param = s2.param;
        st
    }
}

/// Text painted one glyph below the other: the i-th glyph is painted at the
/// text's destination displaced down by i glyph heights.
pub struct VerticalText {
    pub drwob_essential: DrawableObjectEssential,
    pub raw_text: String,
    pub font_info: FontInformation,
    pub draw_param: DrawParam,
}

impl VerticalText {
    pub fn new(
        text: String,
        pos: Point2,
        scale: Vector2,
        rotation: i64,
        drawing_depth: i8,
        font_info: FontInformation,
    ) -> (r: VerticalText)
        ensures
            r.state_spec() == (DrawState {
                essential: DrawableObjectEssential { visible: true, drawing_depth },
                param: DrawParam {
                    dest: pos,
                    scale,
                    rotation,
                    color: font_info.color,
                    ..DrawParam::default_spec()
                },
            }),
            r.raw_text == text,
            r.font_info == font_info,
    {
        let mut param = DrawParam::new();
        param.dest = pos;
        param.scale = scale;
        param.rotation = rotation;
        param.color = font_info.color;
        VerticalText {
            drwob_essential: DrawableObjectEssential::new(true, drawing_depth),
            raw_text: text,
            font_info,
            draw_param: param,
        }
    }

    pub fn get_text(&self) -> (r: &str)
        ensures
            r@ == self.raw_text@,
    {
        self.raw_text.as_str()
    }

    pub fn replace_text(&mut self, text: String)
        ensures
            *final(self) == (VerticalText { raw_text: text, ..*old(self) }),
    {
        self.raw_text = text;
    }

    /// The i-th glyph command: the i-th character, painted `i` glyph heights
    /// below the text's destination.
    pub open spec fn glyph_at_spec(&self, i: int) -> DrawCommandView {
        DrawCommandView::Glyph {
            ch: self.raw_text@[i],
            font: self.font_info,
            param: DrawParam {
                dest: Point2 {
                    x: self.draw_param.dest.x,
                    y: clamp_i64(self.draw_param.dest.y + i * self.font_info.scale.y),
                },
                ..self.draw_param
            },
        }
    }

    pub open spec fn glyph_count_spec(&self) -> int {
        vertical_glyph_count_spec(self.raw_text@.len(), self.font_info.scale.y, self.draw_param.src.h)
    }

    /// How many glyphs the current crop lets through.
    pub fn glyph_count(&self) -> (n: usize)
        ensures
            n == self.glyph_count_spec(),
            n <= self.raw_text@.len(),
    {
        let len = self.raw_text.as_str().unicode_len();
        let src_h = self.draw_param.src.h;
        let r: i64 = if src_h < 0 {
            0
        } else if src_h > 1000 {
            1000
        } else {
            src_h
        };
        if self.font_info.scale.y == 0 {
            len
        } else {
            proof {
                let li = len as int;
                let ri = r as int;
                assert(li * ri <= 0xffff_ffff_ffff_ffff * 1000 && li * ri >= 0) by (nonlinear_arith)
                    requires
                        0 <= li,
                        li <= 0xffff_ffff_ffff_ffff,
                        0 <= ri,
                        ri <= 1000;
            }
            let prod: u128 = (len as u128) * (r as u128);
            let k: u128 = prod / 1000;
            if k < len as u128 {
                k as usize
            } else {
                len
            }
        }
    }

    /// The texture-equivalent extent of the text: one glyph wide, all glyphs
    /// tall.
    pub fn get_texture_size(&self) -> (s: Vector2)
        ensures
            s == (Vector2 {
                x: self.font_info.scale.x as i64,
                y: clamp_i64(self.raw_text@.len() * self.font_info.scale.y),
            }),
    {
        let len = self.raw_text.as_str().unicode_len();
        proof {
            let li = len as int;
            let sy = self.font_info.scale.y as int;
            assert(li * sy <= 0xffff_ffff_ffff_ffff * 0x1_0000_0000 && li * sy >= 0)
                by (nonlinear_arith)
                requires
                    0 <= li,
                    li <= 0xffff_ffff_ffff_ffff,
                    0 <= sy,
                    sy <= 0x1_0000_0000;
        }
        let h: i128 = (len as i128) * (self.font_info.scale.y as i128);
        Vector2 { x: self.font_info.scale.x as i64, y: crate::numeric::clamp128(h) }
    }
}

impl DrawableComponent for VerticalText {
    open spec fn state_spec(&self) -> DrawState {
        DrawState { essential: self.drwob_essential, param: self.draw_param }
    }

    open spec fn back_color_spec(&self) -> Color {
        self.draw_param.color
    }

    open spec fn texture_spec(&self) -> Option<Texture> {
        None
    }

    open spec fn draw_spec(&self) -> Seq<DrawCommandView> {
        if self.drwob_essential.visible {
            Seq::new(self.glyph_count_spec() as nat, |i: int| self.glyph_at_spec(i))
        } else {
            Seq::empty()
        }
    }

    fn draw(&self) -> (cmds: Vec<DrawCommand>) {
        let mut cmds: Vec<DrawCommand> = Vec::new();
        if self.drwob_essential.visible {
            let n = self.glyph_count();
            let mut i: usize = 0;
            while i < n
                invariant
                    i <= n,
                    n == self.glyph_count_spec(),
                    n <= self.raw_text@.len(),
                    cmds@.len() == i,
                    forall|j: int| 0 <= j < i ==> (#[trigger] cmds@[j]).deep_view()
                        == self.glyph_at_spec(j),
                decreases n - i,
            {
                let ch = self.raw_text.as_str().get_char(i);
                let y = crate::numeric::step_offset(
                    self.draw_param.dest.y,
                    self.font_info.scale.y,
                    i,
                );
                cmds.push(
                    DrawCommand::Glyph {
                        ch,
                        font: self.font_info,
                        param: DrawParam {
                            dest: Point2 { x: self.draw_param.dest.x, y },
                            ..self.draw_param
                        },
                    },
                );
                i += 1;
            }
        }
        proof {
            assert(cmds.deep_view() =~= self.draw_spec());
        }
        cmds
    }

    fn conceal(&mut self) {
        self.drwob_essential.visible = false;
    }

    fn appear(&mut self) {
        self.drwob_essential.visible = true;
    }

    fn is_visible(&self) -> (r: bool) {
        self.drwob_essential.visible
    }

    fn set_drawing_depth(&mut self, depth: i8) {
        self.drwob_essential.drawing_depth = depth;
    }

    fn get_drawing_depth(&self) -> (d: i8) {
        self.drwob_essential.drawing_depth
    }
}

impl DrawableObject for VerticalText {
    fn set_position(&mut self, pos: Point2) {
        self.draw_param.dest = pos;
    }

    fn get_position(&self) -> (p: Point2) {
        self.draw_param.dest
    }

    fn move_diff(&mut self, offset: Vector2) {
        self.draw_param.dest = self.draw_param.dest.moved(offset);
    }
}

impl TextureObject for VerticalText {
    open spec fn color_sets_back() -> bool {
        true
    }

    fn set_scale(&mut self, scale: Vector2) {
        self.draw_param.scale = scale;
    }

    fn get_scale(&self) -> (s: Vector2) {
        self.draw_param.scale
    }

    fn set_rotation(&mut self, rad_milli: i64) {
        self.draw_param.rotation = rad_milli;
    }

    fn get_rotation(&self) -> (r: i64) {
        self.draw_param.rotation
    }

    fn set_crop(&mut self, crop: Rect) {
        self.draw_param.src = crop;
    }

    fn get_crop(&self) -> (c: Rect) {
        self.draw_param.src
    }

    fn set_drawing_color(&mut self, color: Color) {
        self.draw_param.color = color;
    }

    fn get_drawing_color(&self) -> (c: Color) {
        self.draw_param.color
    }

    fn set_alpha(&mut self, alpha: u8) {
        self.draw_param.color.a = alpha;
    }

    fn get_alpha(&self) -> (a: u8) {
        self.draw_param.color.a
    }

    fn set_transform_offset(&mut self, offset: Point2) {
        self.draw_param.offset = offset;
    }

    fn get_transform_offset(&self) -> (o: Point2) {
        self.draw_param.offset
    }

    fn replace_texture(&mut self, _texture: Texture) {
    }

    fn set_color(&mut self, color: Color) {
        self.draw_param.color = color;
    }

    fn get_color(&self) -> (c: Color) {
        self.draw_param.color
    }
}

/// A whole effect pass over a drawing state at tick `t`: every queued effect
/// is applied once, in order, each seeing the state the previous one left;
/// the second component is the list that remains after pruning the effects
/// that reported `EffectFinish` on this pass.
pub open spec fn run_effects_spec(s: DrawState, es: Seq<EffectFn>, t: Clock) -> (
    DrawState,
    Seq<EffectFn>,
)
    decreases es.len(),
{
    if es.len() == 0 {
        (s, Seq::empty())
    } else {
        let step = effect_step_spec(s, es[0], t);
        let rest = run_effects_spec(step.0, es.skip(1), t);
        (
            rest.0,
            if step.1 == EffectFnStatus::EffectFinish {
                rest.1
            } else {
                seq![es[0]] + rest.1
            },
        )
    }
}

/// The drawing state after applying every effect in order, with no pruning.
pub open spec fn run_all_spec(s: DrawState, es: Seq<EffectFn>, t: Clock) -> DrawState
    decreases es.len(),
{
    if es.len() == 0 {
        s
    } else {
        run_all_spec(effect_step_spec(s, es[0], t).0, es.skip(1), t)
    }
}

/// The status each effect reports during a pass, in order.
pub open spec fn statuses_spec(s: DrawState, es: Seq<EffectFn>, t: Clock) -> Seq<EffectFnStatus>
    decreases es.len(),
{
    if es.len() == 0 {
        Seq::empty()
    } else {
        seq![effect_step_spec(s, es[0], t).1] + statuses_spec(
            effect_step_spec(s, es[0], t).0,
            es.skip(1),
            t,
        )
    }
}

/// The subsequence of `es` whose status is `EffectContinue`, in order.
pub open spec fn select_continue_spec(es: Seq<EffectFn>, sts: Seq<EffectFnStatus>) -> Seq<EffectFn>
    decreases es.len(),
{
    if es.len() == 0 || sts.len() == 0 {
        Seq::empty()
    } else {
        let rest = select_continue_spec(es.skip(1), sts.skip(1));
        if sts[0] == EffectFnStatus::EffectContinue {
            seq![es[0]] + rest
        } else {
            rest
        }
    }
}

/// An effect that reports `EffectFinish` on a tick is still applied on that
/// tick: a whole effect pass moves the drawing state exactly as applying
/// every queued effect would, pruning or not.
pub proof fn lemma_effects_all_applied(s: DrawState, es: Seq<EffectFn>, t: Clock)
    ensures
        run_effects_spec(s, es, t).0 == run_all_spec(s, es, t),
    decreases es.len(),
{
    if es.len() > 0 {
        lemma_effects_all_applied(effect_step_spec(s, es[0], t).0, es.skip(1), t);
    }
}

/// After a pass, the queue holds exactly the effects that reported
/// `EffectContinue` on that pass, in their original order; every effect that
/// reported `EffectFinish` is gone.
pub proof fn lemma_effects_finish_pruned(s: DrawState, es: Seq<EffectFn>, t: Clock)
    ensures
        run_effects_spec(s, es, t).1 == select_continue_spec(es, statuses_spec(s, es, t)),
    decreases es.len(),
{
    if es.len() > 0 {
        let step = effect_step_spec(s, es[0], t);
        lemma_effects_finish_pruned(step.0, es.skip(1), t);
        let sts = statuses_spec(s, es, t);
        assert(sts.skip(1) =~= statuses_spec(step.0, es.skip(1), t));
        assert(sts[0] == step.1);
    }
}

/// A position function installed at tick `now` is evaluated at elapsed time
/// zero when the object moves at that same tick: animations start from their
/// zero-based origin, not from the object's birth.
pub proof fn lemma_move_at_install_time(
    pre: DrawState,
    post: DrawState,
    mv: MovableEssential,
    f: MoveFn,
    now: Clock,
)
    requires
        mv.move_func == Some(f),
        mv.mf_set_time == now,
        post == pre.with_dest(move_fn_eval_spec(f, pre.param.dest, (now - mv.mf_set_time) as u64)),
    ensures
        post.param.dest == move_fn_eval_spec(f, pre.param.dest, 0),
{
}

/// Can take per-tick effects: an effect pass applies every queued effect and
/// prunes the finished ones.
pub trait Effectable: MovableObject {
    /// The queued effects, in registration order.
    spec fn effects_spec(&self) -> Seq<EffectFn>;

    /// Run one effect pass at tick `t`.
    fn effect(&mut self, t: Clock)
        ensures
            final(self).state_spec() == run_effects_spec(
                old(self).state_spec(),
                old(self).effects_spec(),
                t,
            ).0,
            final(self).effects_spec() == run_effects_spec(
                old(self).state_spec(),
                old(self).effects_spec(),
                t,
            ).1,
            final(self).mov_spec() == old(self).mov_spec(),
            final(self).texture_spec() == old(self).texture_spec(),
            final(self).birth_time_spec() == old(self).birth_time_spec(),
    ;
}

/// Can have effects added and cleared.
pub trait HasGenericEffect: Effectable {
    /// Append effects to the queue; existing effects stay.
    fn add_effect(&mut self, effect: Vec<GenericEffectFn>)
        ensures
            final(self).effects_spec() == old(self).effects_spec() + effect@,
            final(self).state_spec() == old(self).state_spec(),
            final(self).mov_spec() == old(self).mov_spec(),
            final(self).back_color_spec() == old(self).back_color_spec(),
            final(self).texture_spec() == old(self).texture_spec(),
            final(self).birth_time_spec() == old(self).birth_time_spec(),
    ;

    /// Drop every queued effect.
    fn clear_effect(&mut self)
        ensures
            final(self).effects_spec() == Seq::<EffectFn>::empty(),
            final(self).state_spec() == old(self).state_spec(),
            final(self).mov_spec() == old(self).mov_spec(),
            final(self).back_color_spec() == old(self).back_color_spec(),
            final(self).texture_spec() == old(self).texture_spec(),
            final(self).birth_time_spec() == old(self).birth_time_spec(),
    ;
}

/// Attaches a position function to any texture-style drawable.
pub struct MovableWrap<T: TextureObject> {
    pub texture_object: Box<T>,
    pub mv_essential: MovableEssential,
    pub birth_time: Clock,
}

impl<T: TextureObject> MovableWrap<T> {
    pub fn new(texture_object: Box<T>, mf: Option<MoveFn>, t: Clock) -> (r: MovableWrap<T>)
        ensures
            r.texture_object == texture_object,
            r.mv_essential == (MovableEssential {
                move_func: mf,
                mf_set_time: t,
                init_position: texture_object.state_spec().param.dest,
            }),
            r.birth_time == t,
    {
        let pos = texture_object.get_position();
        MovableWrap { texture_object, mv_essential: MovableEssential::new(mf, t, pos), birth_time: t }
    }

    pub fn ref_wrapped_object(&self) -> (r: &Box<T>)
        ensures
            r == &self.texture_object,
    {
        &self.texture_object
    }

    /// Borrow the wrapped drawable for mutation; the movable fields stay.
    pub fn ref_wrapped_object_mut(&mut self) -> (r: &mut Box<T>)
        ensures
            *r == old(self).texture_object,
            final(self).texture_object == *final(r),
            final(self).mv_essential == old(self).mv_essential,
            final(self).birth_time == old(self).birth_time,
    {
        &mut self.texture_object
    }

    pub fn move_wrapped_object(self) -> (r: Box<T>)
        ensures
            r == self.texture_object,
    {
        self.texture_object
    }
}

impl<T: TextureObject> DrawableComponent for MovableWrap<T> {
    open spec fn state_spec(&self) -> DrawState {
        self.texture_object.state_spec()
    }

    open spec fn back_color_spec(&self) -> Color {
        self.texture_object.back_color_spec()
    }

    open spec fn texture_spec(&self) -> Option<Texture> {
        self.texture_object.texture_spec()
    }

    open spec fn draw_spec(&self) -> Seq<DrawCommandView> {
        self.texture_object.draw_spec()
    }

    fn draw(&self) -> (cmds: Vec<DrawCommand>) {
        self.texture_object.draw()
    }

    fn conceal(&mut self) {
        self.texture_object.conceal();
    }

    fn appear(&mut self) {
        self.texture_object.appear();
    }

    fn is_visible(&self) -> (r: bool) {
        self.texture_object.is_visible()
    }

    fn set_drawing_depth(&mut self, depth: i8) {
        self.texture_object.set_drawing_depth(depth);
    }

    fn get_drawing_depth(&self) -> (d: i8) {
        self.texture_object.get_drawing_depth()
    }
}

impl<T: TextureObject> DrawableObject for MovableWrap<T> {
    fn set_position(&mut self, pos: Point2) {
        self.texture_object.set_position(pos);
    }

    fn get_position(&self) -> (p: Point2) {
        self.texture_object.get_position()
    }

    fn move_diff(&mut self, offset: Vector2) {
        self.texture_object.move_diff(offset);
    }
}

impl<T: TextureObject> TextureObject for MovableWrap<T> {
    open spec fn color_sets_back() -> bool {
        T::color_sets_back()
    }

    fn set_scale(&mut self, scale: Vector2) {
        self.texture_object.set_scale(scale);
    }

    fn get_scale(&self) -> (s: Vector2) {
        self.texture_object.get_scale()
    }

    fn set_rotation(&mut self, rad_milli: i64) {
        self.texture_object.set_rotation(rad_milli);
    }

    fn get_rotation(&self) -> (r: i64) {
        self.texture_object.get_rotation()
    }

    fn set_crop(&mut self, crop: Rect) {
        self.texture_object.set_crop(crop);
    }

    fn get_crop(&self) -> (c: Rect) {
        self.texture_object.get_crop()
    }

    fn set_drawing_color(&mut self, color: Color) {
        self.texture_object.set_drawing_color(color);
    }

    fn get_drawing_color(&self) -> (c: Color) {
        self.texture_object.get_drawing_color()
    }

    fn set_alpha(&mut self, alpha: u8) {
        self.texture_object.set_alpha(alpha);
    }

    fn get_alpha(&self) -> (a: u8) {
        self.texture_object.get_alpha()
    }

    fn set_transform_offset(&mut self, offset: Point2) {
        self.texture_object.set_transform_offset(offset);
    }

    fn get_transform_offset(&self) -> (o: Point2) {
        self.texture_object.get_transform_offset()
    }

    fn replace_texture(&mut self, texture: Texture) {
        self.texture_object.replace_texture(texture);
    }

    fn set_color(&mut self, color: Color) {
        self.texture_object.set_color(color);
    }

    fn get_color(&self) -> (c: Color) {
        self.texture_object.get_color()
    }
}

impl<T: TextureObject> HasBirthTime for MovableWrap<T> {
    open spec fn birth_time_spec(&self) -> Clock {
        self.birth_time
    }

    fn get_birth_time(&self) -> (t: Clock) {
        self.birth_time
    }
}

impl<T: TextureObject> MovableObject for MovableWrap<T> {
    open spec fn mov_spec(&self) -> MovableEssential {
        self.mv_essential
    }

    fn move_with_func(&mut self, t: Clock) {
        match &self.mv_essential.move_func {
            Some(f) => {
                let f = *f;
                let cur = self.texture_object.get_position();
                let next = move_fn_eval(&f, cur, t - self.mv_essential.mf_set_time);
                self.texture_object.set_position(next);
            },
            None => {},
        }
    }

    fn override_move_func(&mut self, move_fn: Option<MoveFn>, now: Clock) {
        self.mv_essential.move_func = move_fn;
        self.mv_essential.mf_set_time = now;
    }

    fn mf_start_timing(&self) -> (t: Clock) {
        self.mv_essential.mf_set_time
    }

    fn is_stop(&self) -> (r: bool) {
        self.mv_essential.move_func.is_none()
    }

    fn apply_effect(&mut self, e: &EffectFn, t: Clock) -> (st: EffectFnStatus) {
        match e {
            EffectFn::HideAt { at } => if t >= *at {
                self.texture_object.conceal();
                EffectFnStatus::EffectFinish
            } else {
                EffectFnStatus::EffectContinue
            },
            EffectFn::AppearAt { at } => if t >= *at {
                self.texture_object.appear();
                EffectFnStatus::EffectFinish
            } else {
                EffectFnStatus::EffectContinue
            },
            EffectFn::DriftUntil { velocity, until } => {
                self.texture_object.move_diff(*velocity);
                if t >= *until {
                    EffectFnStatus::EffectFinish
                } else {
                    EffectFnStatus::EffectContinue
                }
            },
            EffectFn::FadeTo { target, step } => {
                let a = self.texture_object.get_alpha();
                let a2: u8 = if a > *target {
                    if a - *target < *step {
                        *target
                    } else {
                        a - *step
                    }
                } else {
                    if *target - a < *step {
                        *target
                    } else {
                        a + *step
                    }
                };
                self.texture_object.set_alpha(a2);
                if a2 == *target {
                    EffectFnStatus::EffectFinish
                } else {
                    EffectFnStatus::EffectContinue
                }
            },
        }
    }
}

/// Wraps a movable object and layers a prunable effect queue over it.
pub struct EffectableWrap<T: MovableObject> {
    pub movable_object: T,
    pub geffect_essential: HasGenericEffectEssential,
}

impl<T: MovableObject> EffectableWrap<T> {
    pub fn new(movable_object: T, effects: Vec<GenericEffectFn>) -> (r: EffectableWrap<T>)
        ensures
            r.movable_object == movable_object,
            r.effects_spec() == effects@,
    {
        EffectableWrap { movable_object, geffect_essential: HasGenericEffectEssential::new(effects) }
    }

    pub fn ref_wrapped_object(&self) -> (r: &T)
        ensures
            r == &self.movable_object,
    {
        &self.movable_object
    }

    /// Borrow the wrapped movable object for mutation; the effect queue
    /// stays.
    pub fn ref_wrapped_object_mut(&mut self) -> (r: &mut T)
        ensures
            *r == old(self).movable_object,
            final(self).movable_object == *final(r),
            final(self).geffect_essential == old(self).geffect_essential,
    {
        &mut self.movable_object
    }

    pub fn move_wrapped_object(self) -> (r: Box<T>)
        ensures
            r == self.movable_object,
    {
        Box::new(self.movable_object)
    }
}

impl<T: MovableObject> DrawableComponent for EffectableWrap<T> {
    open spec fn state_spec(&self) -> DrawState {
        self.movable_object.state_spec()
    }

    open spec fn back_color_spec(&self) -> Color {
        self.movable_object.back_color_spec()
    }

    open spec fn texture_spec(&self) -> Option<Texture> {
        self.movable_object.texture_spec()
    }

    open spec fn draw_spec(&self) -> Seq<DrawCommandView> {
        self.movable_object.draw_spec()
    }

    fn draw(&self) -> (cmds: Vec<DrawCommand>) {
        self.movable_object.draw()
    }

    fn conceal(&mut self) {
        self.movable_object.conceal();
    }

    fn appear(&mut self) {
        self.movable_object.appear();
    }

    fn is_visible(&self) -> (r: bool) {
        self.movable_object.is_visible()
    }

    fn set_drawing_depth(&mut self, depth: i8) {
        self.movable_object.set_drawing_depth(depth);
    }

    fn get_drawing_depth(&self) -> (d: i8) {
        self.movable_object.get_drawing_depth()
    }
}

impl<T: MovableObject> DrawableObject for EffectableWrap<T> {
    fn set_position(&mut self, pos: Point2) {
        self.movable_object.set_position(pos);
    }

    fn get_position(&self) -> (p: Point2) {
        self.movable_object.get_position()
    }

    fn move_diff(&mut self, offset: Vector2) {
        self.movable_object.move_diff(offset);
    }
}

impl<T: MovableObject> TextureObject for EffectableWrap<T> {
    open spec fn color_sets_back() -> bool {
        T::color_sets_back()
    }

    fn set_scale(&mut self, scale: Vector2) {
        self.movable_object.set_scale(scale);
    }

    fn get_scale(&self) -> (s: Vector2) {
        self.movable_object.get_scale()
    }

    fn set_rotation(&mut self, rad_milli: i64) {
        self.movable_object.set_rotation(rad_milli);
    }

    fn get_rotation(&self) -> (r: i64) {
        self.movable_object.get_rotation()
    }

    fn set_crop(&mut self, crop: Rect) {
        self.movable_object.set_crop(crop);
    }

    fn get_crop(&self) -> (c: Rect) {
        self.movable_object.get_crop()
    }

    fn set_drawing_color(&mut self, color: Color) {
        self.movable_object.set_drawing_color(color);
    }

    fn get_drawing_color(&self) -> (c: Color) {
        self.movable_object.get_drawing_color()
    }

    fn set_alpha(&mut self, alpha: u8) {
        self.movable_object.set_alpha(alpha);
    }

    fn get_alpha(&self) -> (a: u8) {
        self.movable_object.get_alpha()
    }

    fn set_transform_offset(&mut self, offset: Point2) {
        self.movable_object.set_transform_offset(offset);
    }

    fn get_transform_offset(&self) -> (o: Point2) {
        self.movable_object.get_transform_offset()
    }

    fn replace_texture(&mut self, texture: Texture) {
        self.movable_object.replace_texture(texture);
    }

    fn set_color(&mut self, color: Color) {
        self.movable_object.set_color(color);
    }

    fn get_color(&self) -> (c: Color) {
        self.movable_object.get_color()
    }
}

impl<T: MovableObject> HasBirthTime for EffectableWrap<T> {
    open spec fn birth_time_spec(&self) -> Clock {
        self.movable_object.birth_time_spec()
    }

    fn get_birth_time(&self) -> (t: Clock) {
        self.movable_object.get_birth_time()
    }
}

impl<T: MovableObject> MovableObject for EffectableWrap<T> {
    open spec fn mov_spec(&self) -> MovableEssential {
        self.movable_object.mov_spec()
    }

    fn move_with_func(&mut self, t: Clock) {
        self.movable_object.move_with_func(t);
    }

    fn override_move_func(&mut self, move_fn: Option<MoveFn>, now: Clock) {
        self.movable_object.override_move_func(move_fn, now);
    }

    fn mf_start_timing(&self) -> (t: Clock) {
        self.movable_object.mf_start_timing()
    }

    fn is_stop(&self) -> (r: bool) {
        self.movable_object.is_stop()
    }

    fn apply_effect(&mut self, e: &EffectFn, t: Clock) -> (st: EffectFnStatus) {
        self.movable_object.apply_effect(e, t)
    }
}

impl<T: MovableObject> Effectable for EffectableWrap<T> {
    open spec fn effects_spec(&self) -> Seq<EffectFn> {
        self.geffect_essential.effects_spec()
    }

    fn effect(&mut self, t: Clock) {
        let ghost orig_state = self.movable_object.state_spec();
        let ghost orig_list = self.geffect_essential.effects_list@;
        let mut kept: Vec<EffectFn> = Vec::new();
        let n = self.geffect_essential.effects_list.len();
        let mut i: usize = 0;
        proof {
            assert(orig_list.skip(0) =~= orig_list);
            assert(kept@ + run_effects_spec(orig_state, orig_list, t).1 =~= run_effects_spec(
                orig_state,
                orig_list,
                t,
            ).1);
        }
        while i < n
            invariant
                i <= n,
                n == orig_list.len(),
                self.geffect_essential.effects_list@ == orig_list,
                self.movable_object.mov_spec() == old(self).movable_object.mov_spec(),
                self.movable_object.texture_spec() == old(self).movable_object.texture_spec(),
                self.movable_object.birth_time_spec() == old(self).movable_object.birth_time_spec(),
                run_effects_spec(orig_state, orig_list, t).0 == run_effects_spec(
                    self.movable_object.state_spec(),
                    orig_list.skip(i as int),
                    t,
                ).0,
                run_effects_spec(orig_state, orig_list, t).1 == kept@ + run_effects_spec(
                    self.movable_object.state_spec(),
                    orig_list.skip(i as int),
                    t,
                ).1,
            decreases n - i,
        {
            let ghost pre_state = self.movable_object.state_spec();
            let ghost suffix = orig_list.skip(i as int);
            let e = self.geffect_essential.effects_list[i];
            let st = self.movable_object.apply_effect(&e, t);
            proof {
                assert(suffix[0] == orig_list[i as int]);
                assert(suffix.skip(1) =~= orig_list.skip(i as int + 1));
            }
            if st == EffectFnStatus::EffectContinue {
                kept.push(e);
            }
            proof {
                assert(run_effects_spec(orig_state, orig_list, t).1 == kept@ + run_effects_spec(
                    self.movable_object.state_spec(),
                    orig_list.skip(i as int + 1),
                    t,
                ).1);
            }
            i += 1;
        }
        proof {
            assert(orig_list.skip(n as int) =~= Seq::<EffectFn>::empty());
            assert(kept@ + Seq::<EffectFn>::empty() =~= kept@);
        }
        self.geffect_essential.effects_list = kept;
    }
}

impl<T: MovableObject> HasGenericEffect for EffectableWrap<T> {
    fn add_effect(&mut self, effect: Vec<GenericEffectFn>) {
        let mut effect = effect;
        self.geffect_essential.effects_list.append(&mut effect);
    }

    fn clear_effect(&mut self) {
        self.geffect_essential.effects_list.clear();
    }
}

/// A movable, effect-capable single texture.
pub type SimpleObject = EffectableWrap<MovableUniTexture>;

/// A movable, effect-capable text run.
pub type SimpleText = EffectableWrap<MovableText>;

} // verus!
