//! A vertical text menu: each entry is a vertical text column, laid out
//! right to left on a shared sub-screen sized to fit the entries.

use vstd::prelude::*;
use crate::numeric::{Point2, Rect, Vector2, clamp_i64, clamp128, step_offset_back};
use crate::graphics::{Canvas, Color, DrawState, DrawableComponent, DrawableObjectEssential, Texture};
use crate::graphics::object::{DrawCommand, DrawCommandView, FontInformation, VerticalText};
use crate::graphics::object::sub_screen::SubScreen;

verus! {

/// The tallest entry, in device units: each entry is as tall as its
/// character count times the glyph height.
pub open spec fn menu_max_item_height_spec(items: Seq<String>, scale_y: u32) -> int
    decreases items.len(),
{
    if items.len() == 0 {
        0
    } else {
        let h = items[0]@.len() * scale_y;
        let rest = menu_max_item_height_spec(items.skip(1), scale_y);
        if h > rest {
            h
        } else {
            rest
        }
    }
}

/// The menu's display area: wide enough for one column per entry plus the
/// padding, tall enough for the tallest entry plus the padding.
pub open spec fn menu_area_spec(
    position: Point2,
    padding: u32,
    items: Seq<String>,
    font_info: FontInformation,
) -> Rect {
    Rect {
        x: position.x,
        y: position.y,
        w: clamp_i64(items.len() * font_info.scale.x + padding),
        h: clamp_i64(menu_max_item_height_spec(items, font_info.scale.y) + padding),
    }
}

/// Where the j-th entry's column starts: columns run right to left from the
/// area's right edge, half the padding in.
pub open spec fn menu_item_position_spec(
    area: Rect,
    padding: u32,
    font_info: FontInformation,
    j: int,
) -> Point2 {
    Point2 {
        x: clamp_i64(clamp_i64(area.w - padding / 2 - font_info.scale.x) - j * font_info.scale.x),
        y: (padding / 2) as i64,
    }
}

/// The commands a list of menu entries emits, in order.
pub open spec fn menu_entries_draw_spec(entries: Seq<VerticalText>) -> Seq<DrawCommandView>
    decreases entries.len(),
{
    if entries.len() == 0 {
        Seq::empty()
    } else {
        entries[0].draw_spec() + menu_entries_draw_spec(entries.skip(1))
    }
}

/// A column-per-entry vertical text menu on its own sub-screen.
pub struct VerticalMenu {
    pub item_text: Vec<VerticalText>,
    pub canvas: SubScreen,
}

impl VerticalMenu {
    /// Lay the entries out right to left on a sub-screen over `canvas`,
    /// sized to fit them plus `padding` device units of margin.
    pub fn new(
        canvas: Canvas,
        position: Point2,
        padding: u32,
        item_text: Vec<String>,
        font_info: FontInformation,
    ) -> (r: VerticalMenu)
        ensures
            ({
                let area = menu_area_spec(position, padding, item_text@, font_info);
                &&& r.canvas == SubScreen::new_spec(canvas, area, 0, Color::from_rgba_u32_spec(0xff))
                &&& r.item_text@.len() == item_text@.len()
                &&& forall|j: int|
                    0 <= j < item_text@.len() ==> {
                        let entry = #[trigger] r.item_text@[j];
                        &&& entry.raw_text == item_text@[j]
                        &&& entry.font_info == font_info
                        &&& entry.state_spec() == (DrawState {
                            essential: DrawableObjectEssential { visible: true, drawing_depth: 0 },
                            param: crate::graphics::DrawParam {
                                dest: menu_item_position_spec(area, padding, font_info, j),
                                color: font_info.color,
                                ..crate::graphics::DrawParam::default_spec()
                            },
                        })
                    }
            }),
    {
        let ghost orig_items = item_text@;
        let n = item_text.len();
        // the tallest entry, for the area height
        let mut max_h: i128 = 0;
        let mut j: usize = 0;
        proof {
            assert(orig_items.skip(0) =~= orig_items);
        }
        while j < n
            invariant
                j <= n,
                n == orig_items.len(),
                item_text@ == orig_items,
                0 <= max_h,
                max_h <= 0xffff_ffff_ffff_ffff * 0x1_0000_0000,
                menu_max_item_height_spec(orig_items, font_info.scale.y) == (if max_h
                    > menu_max_item_height_spec(orig_items.skip(j as int), font_info.scale.y) {
                    max_h as int
                } else {
                    menu_max_item_height_spec(orig_items.skip(j as int), font_info.scale.y)
                }),
            decreases n - j,
        {
            let ghost suffix = orig_items.skip(j as int);
            let len = item_text[j].as_str().unicode_len();
            proof {
                let li = len as int;
                let si = font_info.scale.y as int;
                assert(li * si <= 0xffff_ffff_ffff_ffff * 0x1_0000_0000 && li * si >= 0)
                    by (nonlinear_arith)
                    requires
                        0 <= li,
                        li <= 0xffff_ffff_ffff_ffff,
                        0 <= si,
                        si < 0x1_0000_0000;
                assert(suffix[0] == orig_items[j as int]);
                assert(suffix.skip(1) =~= orig_items.skip(j as int + 1));
            }
            let h: i128 = (len as i128) * (font_info.scale.y as i128);
            if h > max_h {
                max_h = h;
            }
            j += 1;
        }
        proof {
            assert(orig_items.skip(n as int) =~= Seq::<String>::empty());
        }
        // the display area
        proof {
            let ni = n as int;
            let sx = font_info.scale.x as int;
            assert(ni * sx <= 0xffff_ffff_ffff_ffff * 0x1_0000_0000 && ni * sx >= 0)
                by (nonlinear_arith)
                requires
                    0 <= ni,
                    ni <= 0xffff_ffff_ffff_ffff,
                    0 <= sx,
                    sx < 0x1_0000_0000;
        }
        let w: i64 = clamp128((n as i128) * (font_info.scale.x as i128) + (padding as i128));
        let h: i64 = clamp128(max_h + (padding as i128));
        let canvas_area = Rect { x: position.x, y: position.y, w, h };
        let ghost area = menu_area_spec(position, padding, orig_items, font_info);
        proof {
            assert(canvas_area == area);
        }
        // the entries, right to left
        let x0: i64 = crate::numeric::sub_clamped(
            crate::numeric::sub_clamped(w, (padding / 2) as i64),
            font_info.scale.x as i64,
        );
        let y0: i64 = (padding / 2) as i64;
        let mut items = item_text;
        let mut built: Vec<VerticalText> = Vec::new();
        let mut j: usize = 0;
        while j < n
            invariant
                j <= n,
                n == orig_items.len(),
                built@.len() == j,
                items@ == orig_items.skip(j as int),
                x0 == clamp_i64(area.w - padding / 2 - font_info.scale.x),
                y0 == padding / 2,
                forall|k: int|
                    0 <= k < j ==> {
                        let entry = #[trigger] built@[k];
                        &&& entry.raw_text == orig_items[k]
                        &&& entry.font_info == font_info
                        &&& entry.state_spec() == (DrawState {
                            essential: DrawableObjectEssential { visible: true, drawing_depth: 0 },
                            param: crate::graphics::DrawParam {
                                dest: menu_item_position_spec(area, padding, font_info, k),
                                color: font_info.color,
                                ..crate::graphics::DrawParam::default_spec()
                            },
                        })
                    },
            decreases n - j,
        {
            proof {
                assert(orig_items.skip(j as int)[0] == orig_items[j as int]);
                assert(orig_items.skip(j as int).skip(1) =~= orig_items.skip(j as int + 1));
            }
            let raw_string = items.remove(0);
            let x = step_offset_back(x0, font_info.scale.x, j);
            let vtext = VerticalText::new(
                raw_string,
                Point2 { x, y: y0 },
                Vector2 { x: 1000, y: 1000 },
                0,
                0,
                font_info,
            );
            built.push(vtext);
            j += 1;
        }
        VerticalMenu {
            item_text: built,
            canvas: SubScreen::new(canvas, canvas_area, 0, Color::from_rgba_u32(0xff)),
        }
    }
}

impl DrawableComponent for VerticalMenu {
    open spec fn state_spec(&self) -> DrawState {
        self.canvas.state_spec()
    }

    open spec fn back_color_spec(&self) -> Color {
        self.canvas.back_color_spec()
    }

    open spec fn texture_spec(&self) -> Option<Texture> {
        None
    }

    open spec fn draw_spec(&self) -> Seq<DrawCommandView> {
        if self.canvas.drwob_essential.visible {
            menu_entries_draw_spec(self.item_text@) + self.canvas.draw_spec()
        } else {
            Seq::empty()
        }
    }

    /// The entries' commands (painted onto the menu canvas between a stack
    /// and a pop of the sub-screen), then the sub-screen's own commands.
    fn draw(&self) -> (cmds: Vec<DrawCommand>) {
        let mut cmds: Vec<DrawCommand> = Vec::new();
        if self.canvas.is_visible() {
            let n = self.item_text.len();
            let mut i: usize = 0;
            proof {
                assert(self.item_text@.skip(0) =~= self.item_text@);
                assert(cmds.deep_view() + menu_entries_draw_spec(self.item_text@)
                    =~= menu_entries_draw_spec(self.item_text@));
            }
            while i < n
                invariant
                    i <= n,
                    n == self.item_text@.len(),
                    menu_entries_draw_spec(self.item_text@) == cmds.deep_view()
                        + menu_entries_draw_spec(self.item_text@.skip(i as int)),
                decreases n - i,
            {
                let ghost suffix = self.item_text@.skip(i as int);
                let ghost pre = cmds.deep_view();
                let mut part = self.item_text[i].draw();
                proof {
                    assert(suffix[0] == self.item_text@[i as int]);
                    assert(suffix.skip(1) =~= self.item_text@.skip(i as int + 1));
                }
                cmds.append(&mut part);
                proof {
                    assert(cmds.deep_view() =~= pre + self.item_text@[i as int].draw_spec());
                }
                i += 1;
            }
            proof {
                assert(self.item_text@.skip(n as int) =~= Seq::<VerticalText>::empty());
                assert(menu_entries_draw_spec(Seq::<VerticalText>::empty())
                    =~= Seq::<DrawCommandView>::empty());
            }
            let ghost pre = cmds.deep_view();
            let mut canvas_cmds = self.canvas.draw();
            cmds.append(&mut canvas_cmds);
            proof {
                assert(cmds.deep_view() =~= pre + self.canvas.draw_spec());
                assert(cmds.deep_view() =~= self.draw_spec());
            }
        }
        cmds
    }

    fn conceal(&mut self) {
        self.canvas.conceal();
    }

    fn appear(&mut self) {
        self.canvas.appear();
    }

    fn is_visible(&self) -> (r: bool) {
        self.canvas.is_visible()
    }

    fn set_drawing_depth(&mut self, depth: i8) {
        self.canvas.set_drawing_depth(depth);
    }

    fn get_drawing_depth(&self) -> (d: i8) {
        self.canvas.get_drawing_depth()
    }
}

} // verus!
