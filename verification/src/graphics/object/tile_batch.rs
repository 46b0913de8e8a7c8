//! Batched tile drawing from one shared image: tile coordinates are turned
//! into pixel source rectangles against the image, so many tiles can be
//! emitted as one batch command.

use vstd::prelude::*;
use crate::numeric::{Point2, Vector2, Vector2u};
use crate::graphics::{
    Color, DrawParam, DrawState, DrawableComponent, DrawableObject, DrawableObjectEssential,
    Texture,
};
use crate::graphics::object::{DrawCommand, DrawCommandView};

verus! {

/// A pixel-space source rectangle inside a texture.
#[derive(Clone, Copy, PartialEq, Eq, Structural, Debug)]
pub struct TileSrcRect {
    pub x: u64,
    pub y: u64,
    pub w: u64,
    pub h: u64,
}

/// One queued tile draw: where in the image to read (in pixels) and where,
/// how large and in what color to paint it.
#[derive(Clone, Copy, PartialEq, Eq, Structural, Debug)]
pub struct BatchEntry {
    pub src_px: TileSrcRect,
    pub dest: Point2,
    pub scale: Vector2,
    pub color: Color,
}

/// The pixel source rectangle of the tile at `tile_pos`: tile coordinates
/// scaled by the tile size. Dividing by the image size yields the normalized
/// source rectangle the host expects.
pub open spec fn tile_source_spec(tile_size: Vector2u, tile_pos: Vector2u) -> TileSrcRect {
    TileSrcRect {
        x: (tile_pos.x * tile_size.x) as u64,
        y: (tile_pos.y * tile_size.y) as u64,
        w: tile_size.x as u64,
        h: tile_size.y as u64,
    }
}

/// Cuts one shared image into fixed-size tiles and queues tile draws that
/// are emitted as one batch.
pub struct TileBatch {
    pub texture: Texture,
    pub image_size: Vector2u,
    pub tile_size: Vector2u,
    pub batch: Vec<BatchEntry>,
    pub drwob_essential: DrawableObjectEssential,
    pub draw_param: DrawParam,
}

impl TileBatch {
    /// A batch over `image`, cut into `tile_size` tiles, painted at `pos`.
    pub fn new(image: Texture, tile_size: Vector2u, pos: Point2, draw_depth: i8) -> (r: TileBatch)
        ensures
            r.texture == image,
            r.image_size == (Vector2u { x: image.width, y: image.height }),
            r.tile_size == tile_size,
            r.batch@ == Seq::<BatchEntry>::empty(),
            r.drwob_essential == (DrawableObjectEssential {
                visible: true,
                drawing_depth: draw_depth,
            }),
            r.draw_param == (DrawParam { dest: pos, ..DrawParam::default_spec() }),
    {
        let param = DrawParam::new().dest(pos);
        TileBatch {
            image_size: Vector2u { x: image.width, y: image.height },
            texture: image,
            tile_size,
            batch: Vec::new(),
            drwob_essential: DrawableObjectEssential::new(true, draw_depth),
            draw_param: param,
        }
    }

    /// The pixel source rectangle of the tile at `tile_pos`.
    pub fn tile_source_rect(&self, tile_pos: Vector2u) -> (r: TileSrcRect)
        ensures
            r == tile_source_spec(self.tile_size, tile_pos),
    {
        proof {
            let a = tile_pos.x as int;
            let b = self.tile_size.x as int;
            let c = tile_pos.y as int;
            let d = self.tile_size.y as int;
            assert(a * b < 0x1_0000_0000_0000_0000 && a * b >= 0 && c * d
                < 0x1_0000_0000_0000_0000 && c * d >= 0) by (nonlinear_arith)
                requires
                    0 <= a < 0x1_0000_0000,
                    0 <= b < 0x1_0000_0000,
                    0 <= c < 0x1_0000_0000,
                    0 <= d < 0x1_0000_0000;
        }
        TileSrcRect {
            x: (tile_pos.x as u64) * (self.tile_size.x as u64),
            y: (tile_pos.y as u64) * (self.tile_size.y as u64),
            w: self.tile_size.x as u64,
            h: self.tile_size.y as u64,
        }
    }

    /// Queue one tile draw: the tile at `tile_pos` painted at `dest_pos`
    /// with the given scale and color. Existing queued draws stay.
    pub fn add_batch_tile_position(
        &mut self,
        tile_pos: Vector2u,
        dest_pos: Point2,
        scale: Vector2,
        color: Color,
    )
        ensures
            final(self).batch@ == old(self).batch@.push(
                BatchEntry {
                    src_px: tile_source_spec(old(self).tile_size, tile_pos),
                    dest: dest_pos,
                    scale,
                    color,
                },
            ),
            final(self).texture == old(self).texture,
            final(self).image_size == old(self).image_size,
            final(self).tile_size == old(self).tile_size,
            final(self).drwob_essential == old(self).drwob_essential,
            final(self).draw_param == old(self).draw_param,
    {
        let src_px = self.tile_source_rect(tile_pos);
        self.batch.push(BatchEntry { src_px, dest: dest_pos, scale, color });
    }

    /// Drop every queued tile draw; clearing between frames is the caller's
    /// job.
    pub fn clear_batch(&mut self)
        ensures
            final(self).batch@ == Seq::<BatchEntry>::empty(),
            final(self).texture == old(self).texture,
            final(self).image_size == old(self).image_size,
            final(self).tile_size == old(self).tile_size,
            final(self).drwob_essential == old(self).drwob_essential,
            final(self).draw_param == old(self).draw_param,
    {
        self.batch.clear();
    }

    pub fn get_tile_size(&self) -> (r: Vector2u)
        ensures
            r == self.tile_size,
    {
        self.tile_size
    }
}

impl DrawableComponent for TileBatch {
    open spec fn state_spec(&self) -> DrawState {
        DrawState { essential: self.drwob_essential, param: self.draw_param }
    }

    open spec fn back_color_spec(&self) -> Color {
        self.draw_param.color
    }

    open spec fn texture_spec(&self) -> Option<Texture> {
        Some(self.texture)
    }

    open spec fn draw_spec(&self) -> Seq<DrawCommandView> {
        if self.drwob_essential.visible {
            self.batch@.map_values(
                |e: BatchEntry| DrawCommandView::Tile {
                    texture: self.texture,
                    entry: e,
                    param: self.draw_param,
                },
            )
        } else {
            Seq::empty()
        }
    }

    fn draw(&self) -> (cmds: Vec<DrawCommand>) {
        let mut cmds: Vec<DrawCommand> = Vec::new();
        if self.drwob_essential.visible {
            let n = self.batch.len();
            let mut i: usize = 0;
            while i < n
                invariant
                    i <= n,
                    n == self.batch@.len(),
                    cmds@.len() == i,
                    forall|j: int|
                        0 <= j < i ==> (#[trigger] cmds@[j]).deep_view() == (DrawCommandView::Tile {
                            texture: self.texture,
                            entry: self.batch@[j],
                            param: self.draw_param,
                        }),
                decreases n - i,
            {
                cmds.push(
                    DrawCommand::Tile {
                        texture: self.texture,
                        entry: self.batch[i],
                        param: self.draw_param,
                    },
                );
                i += 1;
            }
        }
        proof {
            assert(cmds.deep_view() =~= self.draw_spec());
        }
        cmds
    }

    fn conceal(&mut self) {
        self.drwob_essential.visible = false;
    }

    fn appear(&mut self) {
        self.drwob_essential.visible = true;
    }

    fn is_visible(&self) -> (r: bool) {
        self.drwob_essential.visible
    }

    fn set_drawing_depth(&mut self, depth: i8) {
        self.drwob_essential.drawing_depth = depth;
    }

    fn get_drawing_depth(&self) -> (d: i8) {
        self.drwob_essential.drawing_depth
    }
}

impl DrawableObject for TileBatch {
    fn set_position(&mut self, pos: Point2) {
        self.draw_param.dest = pos;
    }

    fn get_position(&self) -> (p: Point2) {
        self.draw_param.dest
    }

    fn move_diff(&mut self, offset: Vector2) {
        self.draw_param.dest = self.draw_param.dest.moved(offset);
    }
}

} // verus!
