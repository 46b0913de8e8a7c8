//! Off-screen render-target stacking: a sub-screen owns a canvas, and a
//! `ScreenStack` tracks which target is active while drawing code nests
//! redirections. Stacking pushes the previously active target; popping
//! restores it, falling back to the window when nothing is stacked.
//!
//! The embedding application owns the host context: after each stack or pop
//! it binds the current target's canvas (or the window) and its coordinate
//! space, and clears freshly stacked canvases to their background color.

use vstd::prelude::*;
use crate::numeric::{Point2, Rect, Vector2, Vector2u, sub_clamped};
use crate::graphics::{
    Canvas, Color, DrawParam, DrawState, DrawableComponent, DrawableObject,
    DrawableObjectEssential, Texture,
};
use crate::graphics::object::{DrawCommand, DrawCommandView, TextureObject};

verus! {

/// An off-screen render target: a canvas handle plus the drawing state used
/// when the canvas itself is painted onto its parent.
#[derive(Clone, Copy, PartialEq, Eq, Structural, Debug)]
pub struct SubScreen {
    pub canvas: Canvas,
    pub drwob_essential: DrawableObjectEssential,
    pub draw_param: DrawParam,
    pub size: Vector2,
    pub back_color: Color,
}

impl SubScreen {
    /// The sub-screen `new` builds: visible, at `pos`'s origin, with `pos`'s
    /// extent and the default draw transform.
    pub open spec fn new_spec(canvas: Canvas, pos: Rect, depth: i8, back_color: Color) -> SubScreen {
        SubScreen {
            canvas,
            drwob_essential: DrawableObjectEssential { visible: true, drawing_depth: depth },
            draw_param: DrawParam { dest: Point2 { x: pos.x, y: pos.y }, ..DrawParam::default_spec() },
            size: Vector2 { x: pos.w, y: pos.h },
            back_color,
        }
    }

    /// Wrap a host canvas as a sub-screen placed at `pos`'s origin with
    /// `pos`'s extent.
    pub fn new(canvas: Canvas, pos: Rect, depth: i8, back_color: Color) -> (r: SubScreen)
        ensures
            r == SubScreen::new_spec(canvas, pos, depth, back_color),
    {
        let mut dparam = DrawParam::new();
        dparam.dest = Point2 { x: pos.x, y: pos.y };
        SubScreen {
            canvas,
            drwob_essential: DrawableObjectEssential::new(true, depth),
            draw_param: dparam,
            size: Vector2 { x: pos.w, y: pos.h },
            back_color,
        }
    }

    /// Translate an absolute point into this screen's local coordinates.
    pub fn relative_point(&self, abs_pos: Point2) -> (p: Point2)
        ensures
            p == (Point2 {
                x: crate::numeric::clamp_i64(abs_pos.x - self.draw_param.dest.x),
                y: crate::numeric::clamp_i64(abs_pos.y - self.draw_param.dest.y),
            }),
    {
        Point2 {
            x: sub_clamped(abs_pos.x, self.draw_param.dest.x),
            y: sub_clamped(abs_pos.y, self.draw_param.dest.y),
        }
    }

    /// Whether an absolute point falls inside this screen's canvas area.
    pub fn contains(&self, point: Point2) -> (r: bool)
        ensures
            r == (Rect {
                x: self.draw_param.dest.x,
                y: self.draw_param.dest.y,
                w: self.canvas.width as i64,
                h: self.canvas.height as i64,
            }).contains_spec(point),
    {
        let rect = Rect::new(
            self.draw_param.dest.x,
            self.draw_param.dest.y,
            self.canvas.width as i64,
            self.canvas.height as i64,
        );
        rect.contains(point)
    }

    /// The canvas extent in pixels.
    pub fn get_texture_size(&self) -> (s: Vector2u)
        ensures
            s == (Vector2u { x: self.canvas.width, y: self.canvas.height }),
    {
        Vector2u { x: self.canvas.width, y: self.canvas.height }
    }
}

impl DrawableComponent for SubScreen {
    open spec fn state_spec(&self) -> DrawState {
        DrawState { essential: self.drwob_essential, param: self.draw_param }
    }

    open spec fn back_color_spec(&self) -> Color {
        self.back_color
    }

    open spec fn texture_spec(&self) -> Option<Texture> {
        None
    }

    open spec fn draw_spec(&self) -> Seq<DrawCommandView> {
        if self.drwob_essential.visible {
            seq![DrawCommandView::CanvasBlit { canvas: self.canvas, param: self.draw_param }]
        } else {
            Seq::empty()
        }
    }

    fn draw(&self) -> (cmds: Vec<DrawCommand>) {
        let mut cmds: Vec<DrawCommand> = Vec::new();
        if self.drwob_essential.visible {
            cmds.push(DrawCommand::CanvasBlit { canvas: self.canvas, param: self.draw_param });
        }
        proof {
            assert(cmds.deep_view() =~= self.draw_spec());
        }
        cmds
    }

    fn conceal(&mut self) {
        self.drwob_essential.visible = false;
    }

    fn appear(&mut self) {
        self.drwob_essential.visible = true;
    }

    fn is_visible(&self) -> (r: bool) {
        self.drwob_essential.visible
    }

    fn set_drawing_depth(&mut self, depth: i8) {
        self.drwob_essential.drawing_depth = depth;
    }

    fn get_drawing_depth(&self) -> (d: i8) {
        self.drwob_essential.drawing_depth
    }
}

impl DrawableObject for SubScreen {
    fn set_position(&mut self, pos: Point2) {
        self.draw_param.dest = pos;
    }

    fn get_position(&self) -> (p: Point2) {
        self.draw_param.dest
    }

    fn move_diff(&mut self, offset: Vector2) {
        self.draw_param.dest = self.draw_param.dest.moved(offset);
    }
}

impl TextureObject for SubScreen {
    open spec fn color_sets_back() -> bool {
        false
    }

    fn set_scale(&mut self, scale: Vector2) {
        self.draw_param.scale = scale;
    }

    fn get_scale(&self) -> (s: Vector2) {
        self.draw_param.scale
    }

    fn set_rotation(&mut self, rad_milli: i64) {
        self.draw_param.rotation = rad_milli;
    }

    fn get_rotation(&self) -> (r: i64) {
        self.draw_param.rotation
    }

    fn set_crop(&mut self, crop: Rect) {
        self.draw_param.src = crop;
    }

    fn get_crop(&self) -> (c: Rect) {
        self.draw_param.src
    }

    fn set_drawing_color(&mut self, color: Color) {
        self.draw_param.color = color;
        self.back_color = color;
    }

    fn get_drawing_color(&self) -> (c: Color) {
        self.back_color
    }

    fn set_alpha(&mut self, alpha: u8) {
        self.draw_param.color.a = alpha;
        self.back_color.a = alpha;
    }

    fn get_alpha(&self) -> (a: u8) {
        self.draw_param.color.a
    }

    fn set_transform_offset(&mut self, offset: Point2) {
        self.draw_param.offset = offset;
    }

    fn get_transform_offset(&self) -> (o: Point2) {
        self.draw_param.offset
    }

    fn replace_texture(&mut self, _texture: Texture) {
    }

    fn set_color(&mut self, color: Color) {
        self.draw_param.color = color;
    }

    fn get_color(&self) -> (c: Color) {
        self.draw_param.color
    }
}

/// The render-target bookkeeping: the stack of previously active sub-screens
/// plus the currently active target; `None` means the real window surface.
pub struct ScreenStack {
    pub stack: Vec<SubScreen>,
    pub current: Option<SubScreen>,
}

/// The mathematical model of a `ScreenStack`.
pub struct StackModel {
    pub stack: Seq<SubScreen>,
    pub current: Option<SubScreen>,
}

/// A target stack is well formed when drawing at the window means nothing is
/// stacked; every operation preserves this.
pub open spec fn stack_wf(m: StackModel) -> bool {
    m.current.is_none() ==> m.stack.len() == 0
}

/// One stacking operation, for stating what sequences of operations do.
#[derive(Clone, Copy, PartialEq, Eq, Structural, Debug)]
pub enum ScreenOp {
    Stack(SubScreen),
    Pop,
}

/// What one operation does to the model: stacking saves the active target
/// (when there is one) and activates the new screen; popping restores the
/// most recently saved target, or the window when nothing is stacked.
pub open spec fn apply_screen_op(m: StackModel, op: ScreenOp) -> StackModel {
    match op {
        ScreenOp::Stack(s) => StackModel {
            stack: match m.current {
                Some(c) => m.stack.push(c),
                None => m.stack,
            },
            current: Some(s),
        },
        ScreenOp::Pop => if m.stack.len() > 0 {
            StackModel { stack: m.stack.drop_last(), current: Some(m.stack.last()) }
        } else {
            StackModel { stack: m.stack, current: None }
        },
    }
}

/// A sequence of operations, applied first to last.
pub open spec fn apply_screen_ops(m: StackModel, ops: Seq<ScreenOp>) -> StackModel
    decreases ops.len(),
{
    if ops.len() == 0 {
        m
    } else {
        apply_screen_ops(apply_screen_op(m, ops[0]), ops.skip(1))
    }
}

pub open spec fn op_delta(op: ScreenOp) -> int {
    match op {
        ScreenOp::Stack(_) => 1,
        ScreenOp::Pop => -1,
    }
}

/// Stacks minus pops over a whole sequence.
pub open spec fn net_depth(ops: Seq<ScreenOp>) -> int
    decreases ops.len(),
{
    if ops.len() == 0 {
        0
    } else {
        op_delta(ops[0]) + net_depth(ops.skip(1))
    }
}

/// A sequence is balanced when every stack has exactly one matching pop:
/// pops never outnumber stacks in any prefix, and the whole sequence nets to
/// zero.
pub open spec fn balanced_ops(ops: Seq<ScreenOp>) -> bool {
    net_depth(ops) == 0 && forall|i: int|
        0 <= i <= ops.len() ==> net_depth(#[trigger] ops.take(i)) >= 0
}

pub proof fn lemma_net_depth_concat(s1: Seq<ScreenOp>, s2: Seq<ScreenOp>)
    ensures
        net_depth(s1 + s2) == net_depth(s1) + net_depth(s2),
    decreases s1.len(),
{
    if s1.len() == 0 {
        assert(s1 + s2 =~= s2);
    } else {
        assert((s1 + s2).skip(1) =~= s1.skip(1) + s2);
        lemma_net_depth_concat(s1.skip(1), s2);
    }
}

pub proof fn lemma_apply_screen_ops_concat(m: StackModel, s1: Seq<ScreenOp>, s2: Seq<ScreenOp>)
    ensures
        apply_screen_ops(m, s1 + s2) == apply_screen_ops(apply_screen_ops(m, s1), s2),
    decreases s1.len(),
{
    if s1.len() == 0 {
        assert(s1 + s2 =~= s2);
    } else {
        assert((s1 + s2).skip(1) =~= s1.skip(1) + s2);
        lemma_apply_screen_ops_concat(apply_screen_op(m, s1[0]), s1.skip(1), s2);
    }
}

/// The running depth after one more operation.
proof fn lemma_net_depth_take_step(ops: Seq<ScreenOp>, i: int)
    requires
        0 <= i < ops.len(),
    ensures
        net_depth(ops.take(i + 1)) == net_depth(ops.take(i)) + op_delta(ops[i]),
{
    assert(ops.take(i + 1) =~= ops.take(i) + seq![ops[i]]);
    lemma_net_depth_concat(ops.take(i), seq![ops[i]]);
    assert(seq![ops[i]].skip(1) =~= Seq::<ScreenOp>::empty());
    assert(net_depth(Seq::<ScreenOp>::empty()) == 0);
    assert(net_depth(seq![ops[i]]) == op_delta(ops[i]));
}

/// The first index at which a balanced-prefix run returns to depth zero.
proof fn find_first_zero(ops: Seq<ScreenOp>, k: int) -> (j: int)
    requires
        2 <= k <= ops.len(),
        net_depth(ops) == 0,
        forall|i: int| 1 <= i < k ==> net_depth(#[trigger] ops.take(i)) > 0,
    ensures
        k <= j <= ops.len(),
        net_depth(ops.take(j)) == 0,
        forall|i: int| 1 <= i < j ==> net_depth(#[trigger] ops.take(i)) > 0,
    decreases ops.len() - k,
{
    if net_depth(ops.take(k)) == 0 {
        k
    } else {
        assert(net_depth(ops.take(k)) != 0);
        if net_depth(ops.take(k)) < 0 {
            // impossible: the previous prefix was positive and one operation
            // changes the depth by one
            assert(net_depth(ops.take(k - 1)) > 0);
            lemma_net_depth_take_step(ops, k - 1);
            assert(false);
        }
        assert(ops.take(ops.len() as int) =~= ops);
        assert(k < ops.len());
        find_first_zero(ops, k + 1)
    }
}

/// Balanced stacking restores the active target: after any balanced sequence
/// of stack and pop operations, both the active render target and the saved
/// stack are exactly what they were before the sequence began.
pub proof fn lemma_balanced_ops_restore(m: StackModel, ops: Seq<ScreenOp>)
    requires
        stack_wf(m),
        balanced_ops(ops),
    ensures
        apply_screen_ops(m, ops) == m,
    decreases ops.len(),
{
    if ops.len() == 0 {
    } else {
        // the first operation must be a stack
        lemma_net_depth_take_step(ops, 0);
        assert(ops.take(0) =~= Seq::<ScreenOp>::empty());
        assert(net_depth(Seq::<ScreenOp>::empty()) == 0);
        assert(net_depth(ops.take(1)) >= 0);
        assert(net_depth(ops.take(1)) == op_delta(ops[0]));
        assert(ops[0] is Stack);
        assert(net_depth(ops.take(1)) == 1);
        // a single operation cannot be balanced
        if ops.len() == 1 {
            assert(ops.take(1) =~= ops);
            assert(false);
        }
        // find where the run first returns to depth zero
        let j = find_first_zero(ops, 2);
        // the operation closing the run must be a pop
        lemma_net_depth_take_step(ops, j - 1);
        assert(net_depth(ops.take(j - 1)) == 1) by {
            assert(net_depth(ops.take(j - 1)) > 0);
            assert(net_depth(ops.take(j)) == 0);
            if op_delta(ops[j - 1]) == 1 {
                assert(false);
            }
        }
        assert(ops[j - 1] == ScreenOp::Pop);
        // the middle of the run is itself balanced
        let mid = ops.subrange(1, j - 1);
        assert forall|i: int| 0 <= i <= mid.len() implies net_depth(#[trigger] mid.take(i)) >= 0 by {
            assert(ops.take(i + 1) =~= ops.take(1) + mid.take(i));
            lemma_net_depth_concat(ops.take(1), mid.take(i));
            assert(net_depth(ops.take(i + 1)) >= (if i + 1 < j {
                1int
            } else {
                0int
            }));
        }
        assert(net_depth(mid) == 0) by {
            assert(ops.take(j - 1) =~= ops.take(1) + mid);
            lemma_net_depth_concat(ops.take(1), mid);
            assert(net_depth(ops.take(1)) == 1);
        }
        // run the decomposition: stack, balanced middle, pop, balanced rest
        let m1 = apply_screen_op(m, ops[0]);
        assert(stack_wf(m1));
        lemma_balanced_ops_restore(m1, mid);
        let rest = ops.skip(j);
        assert(ops =~= (ops.take(1) + mid + seq![ScreenOp::Pop]) + rest);
        lemma_apply_screen_ops_concat(m, ops.take(1) + mid + seq![ScreenOp::Pop], rest);
        assert(apply_screen_ops(m, ops.take(1) + mid + seq![ScreenOp::Pop]) == m) by {
            lemma_apply_screen_ops_concat(m, ops.take(1) + mid, seq![ScreenOp::Pop]);
            lemma_apply_screen_ops_concat(m, ops.take(1), mid);
            assert(apply_screen_ops(m, ops.take(1)) == m1) by {
                let first = ops.take(1);
                assert(first.len() == 1);
                assert(first[0] == ops[0]);
                assert(first.skip(1) =~= Seq::<ScreenOp>::empty());
                assert(apply_screen_ops(m, first) == apply_screen_ops(
                    apply_screen_op(m, ops[0]),
                    Seq::<ScreenOp>::empty(),
                ));
                assert(apply_screen_ops(m1, Seq::<ScreenOp>::empty()) == m1);
            }
            assert(apply_screen_ops(m1, seq![ScreenOp::Pop]) == m) by {
                assert(seq![ScreenOp::Pop].skip(1) =~= Seq::<ScreenOp>::empty());
                assert(apply_screen_ops(m1, seq![ScreenOp::Pop]) == apply_screen_ops(
                    apply_screen_op(m1, ScreenOp::Pop),
                    Seq::<ScreenOp>::empty(),
                ));
                match m.current {
                    Some(c) => {
                        assert(m1.stack == m.stack.push(c));
                        assert(m1.stack.len() > 0);
                        assert(m1.stack.drop_last() =~= m.stack);
                    },
                    None => {
                        assert(m.stack.len() == 0);
                    },
                }
            }
        }
        // the rest is balanced on its own
        assert(net_depth(rest) == 0) by {
            assert(ops =~= ops.take(j) + rest);
            lemma_net_depth_concat(ops.take(j), rest);
        }
        assert forall|i: int| 0 <= i <= rest.len() implies net_depth(#[trigger] rest.take(i)) >= 0 by {
            assert(ops.take(j + i) =~= ops.take(j) + rest.take(i));
            lemma_net_depth_concat(ops.take(j), rest.take(i));
        }
        lemma_balanced_ops_restore(m, rest);
    }
}

impl ScreenStack {
    /// The model: the saved targets and the active one.
    pub open spec fn model(&self) -> StackModel {
        StackModel { stack: self.stack@, current: self.current }
    }

    /// An empty stack: drawing goes to the window.
    pub fn new() -> (r: ScreenStack)
        ensures
            r.model() == (StackModel { stack: Seq::<SubScreen>::empty(), current: None::<SubScreen> }),
    {
        let r = ScreenStack { stack: Vec::new(), current: None };
        proof {
            assert(r.model().stack =~= Seq::<SubScreen>::empty());
        }
        r
    }
}

/// Replace the active render target without touching the saved stack;
/// `None` directs drawing at the window. Returns the previously active
/// target.
pub fn reset_stacking_screen(screens: &mut ScreenStack, new_screen: Option<&SubScreen>) -> (prev:
    Option<SubScreen>)
    ensures
        final(screens).model().stack == old(screens).model().stack,
        final(screens).model().current == (match new_screen {
            Some(s) => Some(*s),
            None => None::<SubScreen>,
        }),
        prev == old(screens).model().current,
{
    let prev = screens.current;
    screens.current = match new_screen {
        Some(s) => Some(*s),
        None => None,
    };
    prev
}

/// Make `new_screen` the active render target, saving the previously active
/// one on the stack. The embedding application then binds the new canvas,
/// clears it to its background color and sets its local coordinate space.
pub fn stack_screen(screens: &mut ScreenStack, new_screen: &SubScreen)
    ensures
        final(screens).model() == apply_screen_op(
            old(screens).model(),
            ScreenOp::Stack(*new_screen),
        ),
{
    let last_screen = reset_stacking_screen(screens, Some(new_screen));
    match last_screen {
        Some(last) => screens.stack.push(last),
        None => {},
    }
}

/// Restore the most recently stacked render target and return it; when
/// nothing is stacked, direct drawing back at the window and return nothing.
pub fn pop_screen(screens: &mut ScreenStack) -> (r: Option<SubScreen>)
    ensures
        final(screens).model() == apply_screen_op(old(screens).model(), ScreenOp::Pop),
        r == (if old(screens).model().stack.len() > 0 {
            Some(old(screens).model().stack.last())
        } else {
            None::<SubScreen>
        }),
{
    let last_cur_screen = screens.stack.pop();
    match last_cur_screen {
        Some(last) => {
            screens.current = Some(last);
            Some(last)
        },
        None => {
            screens.current = None;
            None
        },
    }
}

} // verus!
