//! A drop-shadow figure: a stroked rectangle outline painted as a mesh.

use vstd::prelude::*;
use crate::numeric::Rect;
use crate::graphics::{
    Color, DrawParam, DrawState, DrawableComponent, DrawableObjectEssential, Texture,
};
use crate::graphics::object::{DrawCommand, DrawCommandView};
use crate::graphics::object::shape::{DrawMode, MeshElement, MeshElementView};

verus! {

/// A rectangle outline of a given stroke width, used as a shadow around
/// another drawable's area.
pub struct ShadowShape {
    pub bounds: Rect,
    pub stroke_width: i64,
    pub shadow_color: Color,
    pub draw_param: DrawParam,
    pub drwob_essential: DrawableObjectEssential,
}

impl ShadowShape {
    pub fn new(width: i64, bounds: Rect, color: Color, depth: i8) -> (r: ShadowShape)
        ensures
            r.bounds == bounds,
            r.stroke_width == width,
            r.shadow_color == color,
            r.draw_param == DrawParam::default_spec(),
            r.drwob_essential == (DrawableObjectEssential { visible: true, drawing_depth: depth }),
    {
        ShadowShape {
            bounds,
            stroke_width: width,
            shadow_color: color,
            draw_param: DrawParam::new(),
            drwob_essential: DrawableObjectEssential::new(true, depth),
        }
    }
}

impl DrawableComponent for ShadowShape {
    open spec fn state_spec(&self) -> DrawState {
        DrawState { essential: self.drwob_essential, param: self.draw_param }
    }

    open spec fn back_color_spec(&self) -> Color {
        self.draw_param.color
    }

    open spec fn texture_spec(&self) -> Option<Texture> {
        None
    }

    open spec fn draw_spec(&self) -> Seq<DrawCommandView> {
        if self.drwob_essential.visible {
            seq![
                DrawCommandView::Mesh {
                    elements: seq![
                        MeshElementView::RectangleEl {
                            mode: DrawMode::Stroke { width: self.stroke_width },
                            bounds: self.bounds,
                            color: self.shadow_color,
                        },
                    ],
                    param: self.draw_param,
                },
            ]
        } else {
            Seq::empty()
        }
    }

    fn draw(&self) -> (cmds: Vec<DrawCommand>) {
        let mut cmds: Vec<DrawCommand> = Vec::new();
        if self.drwob_essential.visible {
            let mut elements: Vec<MeshElement> = Vec::new();
            elements.push(
                MeshElement::RectangleEl {
                    mode: DrawMode::Stroke { width: self.stroke_width },
                    bounds: self.bounds,
                    color: self.shadow_color,
                },
            );
            proof {
                assert(elements.deep_view() =~= seq![
                    MeshElementView::RectangleEl {
                        mode: DrawMode::Stroke { width: self.stroke_width },
                        bounds: self.bounds,
                        color: self.shadow_color,
                    },
                ]);
            }
            cmds.push(DrawCommand::Mesh { elements, param: self.draw_param });
        }
        proof {
            assert(cmds.deep_view() =~= self.draw_spec());
        }
        cmds
    }

    fn conceal(&mut self) {
        self.drwob_essential.visible = false;
    }

    fn appear(&mut self) {
        self.drwob_essential.visible = true;
    }

    fn is_visible(&self) -> (r: bool) {
        self.drwob_essential.visible
    }

    fn set_drawing_depth(&mut self, depth: i8) {
        self.drwob_essential.drawing_depth = depth;
    }

    fn get_drawing_depth(&self) -> (d: i8) {
        self.drwob_essential.drawing_depth
    }
}

} // verus!
