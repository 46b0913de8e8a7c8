//! A debug text overlay: a bounded ring of the most recent text lines,
//! painted onto a sub-screen. Pushing a line scrolls the existing lines up
//! one row and drops the oldest lines beyond the limit.

use vstd::prelude::*;
use crate::numeric::{Point2, Rect, Vector2, clamp_i64};
use crate::graphics::{Canvas, Color, DrawParam, DrawableComponent, DrawState, Texture};
use crate::graphics::object::{DrawCommand, DrawCommandView, FontInformation, MovableText, TextureObject};
use crate::graphics::object::sub_screen::SubScreen;

verus! {

/// An overlay entry displaced one row further up: only the draw destination
/// moves.
pub open spec fn shifted_text_spec(e: MovableText, dy: i64) -> MovableText {
    MovableText {
        draw_param: DrawParam {
            dest: e.draw_param.dest.moved_spec(Vector2 { x: 0, y: dy }),
            ..e.draw_param
        },
        ..e
    }
}

/// Where a freshly pushed line is painted: a small indent from the left,
/// one row above the overlay's bottom edge.
pub open spec fn entry_position_spec(rect: Rect, scale_y: u32) -> Point2 {
    Point2 { x: 10, y: clamp_i64(rect.h - scale_y - 5) }
}

/// How many lines an overlay of the given width shows by default, one per
/// glyph height.
pub open spec fn initial_text_limit_spec(rect_w: i64, scale_y: u32) -> int {
    if scale_y == 0 || rect_w < 0 {
        0
    } else if rect_w / (scale_y as i64) > usize::MAX {
        usize::MAX as int
    } else {
        rect_w / (scale_y as i64)
    }
}

/// The commands a list of overlay entries emits, in order.
pub open spec fn entries_draw_spec(entries: Seq<MovableText>) -> Seq<DrawCommandView>
    decreases entries.len(),
{
    if entries.len() == 0 {
        Seq::empty()
    } else {
        entries[0].draw_spec() + entries_draw_spec(entries.skip(1))
    }
}

/// The debug overlay: its font, the line limit, the visible lines (oldest
/// first), the sub-screen it is painted on, and the overlay area.
pub struct DebugScreen {
    pub font_info: FontInformation,
    pub text_limit: usize,
    pub text: Vec<MovableText>,
    pub screen: SubScreen,
    pub rect: Rect,
}

impl DebugScreen {
    /// A fresh overlay on the given canvas and area, with no lines yet and a
    /// limit of one line per glyph height of the area's width.
    pub fn new(canvas: Canvas, rect: Rect, font_info: FontInformation) -> (r: DebugScreen)
        ensures
            r.font_info == font_info,
            r.text_limit as int == initial_text_limit_spec(rect.w, font_info.scale.y),
            r.text@ == Seq::<MovableText>::empty(),
            r.screen == SubScreen::new_spec(canvas, rect, 0, Color::from_rgba_u32_spec(0x000000a0)),
            r.rect == rect,
    {
        let limit: usize = if font_info.scale.y == 0 || rect.w < 0 {
            0
        } else {
            let q: u64 = (rect.w as u64) / (font_info.scale.y as u64);
            if q > usize::MAX as u64 {
                usize::MAX
            } else {
                q as usize
            }
        };
        DebugScreen {
            font_info,
            text_limit: limit,
            text: Vec::new(),
            screen: SubScreen::new(canvas, rect, 0, Color::from_rgba_u32(0x000000a0)),
            rect,
        }
    }

    /// Recolor the overlay's painted color.
    pub fn set_back_color(&mut self, color: Color)
        ensures
            *final(self) == (DebugScreen {
                screen: SubScreen {
                    draw_param: DrawParam { color, ..old(self).screen.draw_param },
                    ..old(self).screen
                },
                ..*old(self)
            }),
    {
        self.screen.draw_param.color = color;
    }

    /// Change how many lines stay visible; existing lines are trimmed only
    /// on the next push.
    pub fn set_text_limit(&mut self, limit: usize)
        ensures
            *final(self) == (DebugScreen { text_limit: limit, ..*old(self) }),
    {
        self.text_limit = limit;
    }

    /// Swap in a fresh sub-screen for a new overlay area; the lines and the
    /// limit stay.
    pub fn replace_screen(&mut self, canvas: Canvas, rect: Rect)
        ensures
            *final(self) == (DebugScreen {
                screen: SubScreen::new_spec(canvas, rect, 0, Color::from_rgba_u32_spec(0x000000a0)),
                ..*old(self)
            }),
    {
        self.screen = SubScreen::new(canvas, rect, 0, Color::from_rgba_u32(0x000000a0));
    }

    /// The visible lines, oldest first.
    pub fn get_texts(&self) -> (r: &Vec<MovableText>)
        ensures
            r == &self.text,
    {
        &self.text
    }

    /// Push one line: existing lines scroll up one row, the new line is
    /// painted at the bottom, and only the most recent `text_limit` lines
    /// survive, oldest dropped.
    pub fn push_text(&mut self, text: &str)
        ensures
            ({
                let dy = (-(old(self).font_info.scale.y as int)) as i64;
                let old_len = old(self).text@.len() as int;
                let limit = old(self).text_limit as int;
                let kept = if old_len + 1 > limit {
                    limit
                } else {
                    old_len + 1
                };
                &&& final(self).text@.len() == kept
                &&& forall|j: int|
                    0 <= j < kept - 1 ==> final(self).text@[j] == shifted_text_spec(
                        old(self).text@[old_len - (kept - 1) + j],
                        dy,
                    )
                &&& (kept > 0 ==> {
                    let last = final(self).text@[kept - 1];
                    &&& last.text@ == text@
                    &&& last.font_info == old(self).font_info
                    &&& last.state_spec() == (DrawState {
                        essential: crate::graphics::DrawableObjectEssential {
                            visible: true,
                            drawing_depth: 0,
                        },
                        param: DrawParam {
                            dest: entry_position_spec(old(self).rect, old(self).font_info.scale.y),
                            color: old(self).font_info.color,
                            ..DrawParam::default_spec()
                        },
                    })
                })
            }),
            final(self).font_info == old(self).font_info,
            final(self).text_limit == old(self).text_limit,
            final(self).screen == old(self).screen,
            final(self).rect == old(self).rect,
    {
        let y = crate::numeric::sub_clamped(
            crate::numeric::sub_clamped(self.rect.h, self.font_info.scale.y as i64),
            5,
        );
        proof {
            assert(y == entry_position_spec(self.rect, self.font_info.scale.y).y);
        }
        let entry = MovableText::new(
            text.to_owned(),
            Point2 { x: 10, y },
            Vector2 { x: 1000, y: 1000 },
            0,
            0,
            None,
            self.font_info,
            0,
        );
        let dy: i64 = -(self.font_info.scale.y as i64);
        let ghost orig = self.text@;
        let mut shifted: Vec<MovableText> = Vec::new();
        while self.text.len() > 0
            invariant
                shifted@.len() + self.text@.len() == orig.len(),
                forall|j: int|
                    0 <= j < shifted@.len() ==> shifted@[j] == shifted_text_spec(orig[j], dy),
                forall|j: int|
                    0 <= j < self.text@.len() ==> self.text@[j] == orig[shifted@.len() + j],
                self.font_info == old(self).font_info,
                self.text_limit == old(self).text_limit,
                self.screen == old(self).screen,
                self.rect == old(self).rect,
                dy == -(old(self).font_info.scale.y as i64),
            decreases self.text@.len(),
        {
            let mut e = self.text.remove(0);
            e.draw_param.dest = e.draw_param.dest.moved(Vector2 { x: 0, y: dy });
            shifted.push(e);
        }
        self.text = shifted;
        self.text.push(entry);
        let ghost appended = self.text@;
        while self.text.len() > self.text_limit
            invariant
                self.text@.len() <= appended.len(),
                self.text@.len() >= self.text_limit || self.text@.len() == appended.len(),
                self.text@ == appended.skip(appended.len() - self.text@.len()),
                self.font_info == old(self).font_info,
                self.text_limit == old(self).text_limit,
                self.screen == old(self).screen,
                self.rect == old(self).rect,
            decreases self.text@.len(),
        {
            proof {
                assert(appended.skip(appended.len() - self.text@.len()).skip(1) =~= appended.skip(
                    appended.len() - (self.text@.len() - 1),
                ));
            }
            self.text.remove(0);
        }
        proof {
            assert(self.text@.len() > 0 ==> self.text@[self.text@.len() - 1] == appended[appended.len()
                - 1]);
        }
    }
}

impl DrawableComponent for DebugScreen {
    open spec fn state_spec(&self) -> DrawState {
        self.screen.state_spec()
    }

    open spec fn back_color_spec(&self) -> Color {
        self.screen.back_color_spec()
    }

    open spec fn texture_spec(&self) -> Option<Texture> {
        None
    }

    open spec fn draw_spec(&self) -> Seq<DrawCommandView> {
        if self.screen.drwob_essential.visible {
            entries_draw_spec(self.text@) + self.screen.draw_spec()
        } else {
            Seq::empty()
        }
    }

    /// The lines' commands (to be painted onto the overlay canvas between a
    /// stack and a pop of the sub-screen), then the sub-screen's own
    /// commands.
    fn draw(&self) -> (cmds: Vec<DrawCommand>) {
        let mut cmds: Vec<DrawCommand> = Vec::new();
        if self.screen.is_visible() {
            let n = self.text.len();
            let mut i: usize = 0;
            proof {
                assert(self.text@.skip(0) =~= self.text@);
                assert(cmds.deep_view() + entries_draw_spec(self.text@) =~= entries_draw_spec(
                    self.text@,
                ));
            }
            while i < n
                invariant
                    i <= n,
                    n == self.text@.len(),
                    entries_draw_spec(self.text@) == cmds.deep_view() + entries_draw_spec(
                        self.text@.skip(i as int),
                    ),
                decreases n - i,
            {
                let ghost suffix = self.text@.skip(i as int);
                let ghost pre = cmds.deep_view();
                let mut part = self.text[i].draw();
                proof {
                    assert(suffix[0] == self.text@[i as int]);
                    assert(suffix.skip(1) =~= self.text@.skip(i as int + 1));
                }
                cmds.append(&mut part);
                proof {
                    assert(cmds.deep_view() =~= pre + self.text@[i as int].draw_spec());
                }
                i += 1;
            }
            proof {
                assert(self.text@.skip(n as int) =~= Seq::<MovableText>::empty());
                assert(entries_draw_spec(Seq::<MovableText>::empty())
                    =~= Seq::<DrawCommandView>::empty());
            }
            let ghost pre = cmds.deep_view();
            let mut screen_cmds = self.screen.draw();
            cmds.append(&mut screen_cmds);
            proof {
                assert(cmds.deep_view() =~= pre + self.screen.draw_spec());
                assert(cmds.deep_view() =~= self.draw_spec());
            }
        }
        cmds
    }

    fn conceal(&mut self) {
        self.screen.conceal();
    }

    fn appear(&mut self) {
        self.screen.appear();
    }

    fn is_visible(&self) -> (r: bool) {
        self.screen.is_visible()
    }

    fn set_drawing_depth(&mut self, depth: i8) {
        self.screen.set_drawing_depth(depth);
    }

    fn get_drawing_depth(&self) -> (d: i8) {
        self.screen.get_drawing_depth()
    }
}

/// Build a debug overlay on the given canvas and area.
pub fn debug_screen_init(canvas: Canvas, rect: Rect, font_info: FontInformation) -> (r: DebugScreen)
    ensures
        r.font_info == font_info,
        r.text_limit as int == initial_text_limit_spec(rect.w, font_info.scale.y),
        r.text@ == Seq::<MovableText>::empty(),
        r.rect == rect,
{
    DebugScreen::new(canvas, rect, font_info)
}

/// Stop painting the overlay until it is shown again; the lines, the limit
/// and the area stay as they are.
pub fn debug_screen_hide(screen: &mut DebugScreen)
    ensures
        *final(screen) == (DebugScreen {
            screen: SubScreen {
                drwob_essential: crate::graphics::DrawableObjectEssential {
                    visible: false,
                    ..old(screen).screen.drwob_essential
                },
                ..old(screen).screen
            },
            ..*old(screen)
        }),
{
    screen.screen.drwob_essential.visible = false;
}

/// Paint the overlay again; the lines, the limit and the area stay as they
/// are.
pub fn debug_screen_appear(screen: &mut DebugScreen)
    ensures
        *final(screen) == (DebugScreen {
            screen: SubScreen {
                drwob_essential: crate::graphics::DrawableObjectEssential {
                    visible: true,
                    ..old(screen).screen.drwob_essential
                },
                ..old(screen).screen
            },
            ..*old(screen)
        }),
{
    screen.screen.drwob_essential.visible = true;
}

/// Push one line onto the overlay; the oldest lines beyond the limit drop.
pub fn debug_screen_push_text(screen: &mut DebugScreen, text: &str)
    ensures
        final(screen).text@.len() == (if old(screen).text@.len() + 1 > old(screen).text_limit {
            old(screen).text_limit as int
        } else {
            old(screen).text@.len() + 1int
        }),
        final(screen).text@.len() > 0 ==> final(screen).text@.last().text@ == text@,
{
    screen.push_text(text);
}

/// Change how many lines the overlay keeps.
pub fn debug_screen_set_limit(screen: &mut DebugScreen, limit: usize)
    ensures
        *final(screen) == (DebugScreen { text_limit: limit, ..*old(screen) }),
{
    screen.set_text_limit(limit);
}

/// Give the overlay a new area on a fresh canvas.
pub fn debug_screen_change_size(screen: &mut DebugScreen, canvas: Canvas, rect: Rect)
    ensures
        *final(screen) == (DebugScreen {
            screen: SubScreen::new_spec(canvas, rect, 0, Color::from_rgba_u32_spec(0x000000a0)),
            ..*old(screen)
        }),
{
    screen.replace_screen(canvas, rect);
}

/// Recolor the overlay.
pub fn debug_screen_change_color(screen: &mut DebugScreen, color: Color)
    ensures
        *final(screen) == (DebugScreen {
            screen: SubScreen {
                draw_param: DrawParam { color, ..old(screen).screen.draw_param },
                ..old(screen).screen
            },
            ..*old(screen)
        }),
{
    screen.set_back_color(color);
}

/// The commands the overlay emits this frame.
pub fn debug_screen_draw(screen: &DebugScreen) -> (cmds: Vec<DrawCommand>)
    ensures
        cmds.deep_view() == screen.draw_spec(),
{
    screen.draw()
}

} // verus!
