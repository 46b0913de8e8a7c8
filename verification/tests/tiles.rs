use torifune::graphics::object::tile_batch::{BatchEntry, TileBatch, TileSrcRect};
use torifune::graphics::object::DrawCommand;
use torifune::graphics::{Color, DrawableComponent, Texture};
use torifune::numeric::{Point2, Vector2, Vector2u};

fn batch_16_on_64() -> TileBatch {
    TileBatch::new(
        Texture { id: 5, width: 64, height: 64 },
        Vector2u::new(16, 16),
        Point2::new(0, 0),
        0,
    )
}

#[test]
fn tile_source_rect_normalizes_as_expected() {
    let batch = batch_16_on_64();
    let src = batch.tile_source_rect(Vector2u::new(2, 1));
    assert_eq!(src, TileSrcRect { x: 32, y: 16, w: 16, h: 16 });
    // against the 64-pixel image this is origin (0.5, 0.25), extent (0.25, 0.25)
    let w = batch.image_size.x as f64;
    let h = batch.image_size.y as f64;
    assert_eq!(src.x as f64 / w, 0.5);
    assert_eq!(src.y as f64 / h, 0.25);
    assert_eq!(src.w as f64 / w, 0.25);
    assert_eq!(src.h as f64 / h, 0.25);
}

#[test]
fn queued_tiles_come_out_in_order_and_clear() {
    let mut batch = batch_16_on_64();
    batch.add_batch_tile_position(
        Vector2u::new(0, 0),
        Point2::new(10, 10),
        Vector2::new(1000, 1000),
        Color::new(255, 255, 255, 255),
    );
    batch.add_batch_tile_position(
        Vector2u::new(3, 3),
        Point2::new(20, 20),
        Vector2::new(1000, 1000),
        Color::new(255, 0, 0, 255),
    );
    assert_eq!(batch.batch.len(), 2);
    assert_eq!(
        batch.batch[1],
        BatchEntry {
            src_px: TileSrcRect { x: 48, y: 48, w: 16, h: 16 },
            dest: Point2::new(20, 20),
            scale: Vector2::new(1000, 1000),
            color: Color::new(255, 0, 0, 255),
        },
    );
    let cmds = batch.draw();
    assert_eq!(cmds.len(), 2);
    match &cmds[0] {
        DrawCommand::Tile { texture, entry, .. } => {
            assert_eq!(texture.id, 5);
            assert_eq!(entry.dest, Point2::new(10, 10));
        }
        _ => panic!("expected a tile command"),
    }
    batch.clear_batch();
    assert_eq!(batch.batch.len(), 0);
    assert_eq!(batch.draw().len(), 0);
    assert_eq!(batch.get_tile_size(), Vector2u::new(16, 16));
}
