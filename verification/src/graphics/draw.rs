//! The screen-relative draw transform: a target region on the plane, and the
//! clipping arithmetic that confines a draw call to it.

use vstd::prelude::*;
use crate::numeric::{Point2, Rect, Vector2u, clamp_i64, add_clamped};
use crate::graphics::DrawParam;

verus! {

/// A rectangular drawing region: where it starts on the plane and how large
/// it is in pixels.
#[derive(Clone, Copy, PartialEq, Eq, Structural, Debug)]
pub struct StackScreen {
    pub position: Point2,
    pub size: Vector2u,
}

impl StackScreen {
    /// The corner opposite the origin: position plus size, saturating at the
    /// range of `i64`.
    pub fn end_point(&self) -> (p: Point2)
        ensures
            p == (Point2 {
                x: clamp_i64(self.position.x + self.size.x),
                y: clamp_i64(self.position.y + self.size.y),
            }),
    {
        Point2 {
            x: add_clamped(self.position.x, self.size.x as i64),
            y: add_clamped(self.position.y, self.size.y as i64),
        }
    }
}

/// The draw parameters confined to a target screen: the destination is
/// displaced into the screen, and where the original destination falls
/// outside the screen or before its origin, the source rectangle is cut back
/// proportionally. The returned source rectangle holds the begin ratios in
/// its origin and the end ratios in its extent fields, in thousandths.
pub open spec fn clipped_draw_param_spec(
    param: DrawParam,
    bounds: Option<Rect>,
    screen: StackScreen,
) -> DrawParam {
    let dest = Point2 {
        x: clamp_i64(param.dest.x + screen.position.x),
        y: clamp_i64(param.dest.y + screen.position.y),
    };
    match bounds {
        None => DrawParam { dest, ..param },
        Some(b) => {
            let end_x = clamp_i64(screen.position.x + screen.size.x);
            let end_y = clamp_i64(screen.position.y + screen.size.y);
            let begin_x = if param.dest.x < 0 {
                clamp_i64((-param.dest.x) * 1000 / (b.w as int))
            } else {
                0
            };
            let begin_y = if param.dest.y < 0 {
                clamp_i64((-param.dest.y) * 1000 / (b.h as int))
            } else {
                0
            };
            let end_ratio_x = if param.dest.x > end_x {
                clamp_i64(1000 - (param.dest.x - end_x) * 1000 / (b.w as int))
            } else {
                1000
            };
            let end_ratio_y = if param.dest.y > end_y {
                clamp_i64(1000 - (param.dest.y - end_y) * 1000 / (b.h as int))
            } else {
                1000
            };
            DrawParam {
                dest,
                src: Rect { x: begin_x, y: begin_y, w: end_ratio_x, h: end_ratio_y },
                ..param
            }
        },
    }
}

/// Confine a draw call to the target screen. `bounds` is the drawable's own
/// extent where it has one; its sides must be positive.
pub fn clipped_draw_param(param: DrawParam, bounds: Option<Rect>, screen: StackScreen) -> (r:
    DrawParam)
    requires
        match bounds {
            Some(b) => b.w > 0 && b.h > 0,
            None => true,
        },
    ensures
        r == clipped_draw_param_spec(param, bounds, screen),
{
    let dest = Point2 {
        x: add_clamped(param.dest.x, screen.position.x),
        y: add_clamped(param.dest.y, screen.position.y),
    };
    match bounds {
        None => DrawParam { dest, ..param },
        Some(b) => {
            let end = screen.end_point();
            let begin_x: i64 = if param.dest.x < 0 {
                crate::numeric::clamp128((-(param.dest.x as i128)) * 1000 / (b.w as i128))
            } else {
                0
            };
            let begin_y: i64 = if param.dest.y < 0 {
                crate::numeric::clamp128((-(param.dest.y as i128)) * 1000 / (b.h as i128))
            } else {
                0
            };
            let end_ratio_x: i64 = if param.dest.x > end.x {
                crate::numeric::clamp128(
                    1000 - (param.dest.x as i128 - end.x as i128) * 1000 / (b.w as i128),
                )
            } else {
                1000
            };
            let end_ratio_y: i64 = if param.dest.y > end.y {
                crate::numeric::clamp128(
                    1000 - (param.dest.y as i128 - end.y as i128) * 1000 / (b.h as i128),
                )
            } else {
                1000
            };
            DrawParam {
                dest,
                src: Rect { x: begin_x, y: begin_y, w: end_ratio_x, h: end_ratio_y },
                ..param
            }
        },
    }
}

} // verus!
