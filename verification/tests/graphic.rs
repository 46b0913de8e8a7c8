use torifune::graphics::object::{
    DrawCommand, FontInformation, HasBirthTime, MovableText, TextureObject, UniTexture,
    VerticalText,
};
use torifune::graphics::object::sub_screen::SubScreen;
use torifune::graphics::{
    drawable_object_sort_with_depth, Canvas, Color, DrawableComponent, DrawableObject, Font,
    Texture,
};
use torifune::numeric::{Point2, Rect, Vector2, Vector2u};

#[test]
pub fn vertical_text() {}

fn sample_texture() -> Texture {
    Texture { id: 1, width: 64, height: 32 }
}

fn sample_font() -> FontInformation {
    FontInformation::new(
        Font { id: 3 },
        Vector2u::new(24, 24),
        Color::new(255, 255, 255, 255),
    )
}

#[test]
fn uni_texture_draw_emits_one_sprite() {
    let t = UniTexture::new(
        sample_texture(),
        Point2::new(4, 5),
        Vector2::new(1000, 1000),
        0,
        2,
    );
    let cmds = t.draw();
    assert_eq!(cmds.len(), 1);
    match &cmds[0] {
        DrawCommand::Sprite { texture, param } => {
            assert_eq!(texture.id, 1);
            assert_eq!(param.dest, Point2::new(4, 5));
            assert_eq!(param.rotation, 0);
        }
        _ => panic!("expected a sprite command"),
    }
}

#[test]
fn hidden_drawable_emits_nothing() {
    let mut t = UniTexture::new(
        sample_texture(),
        Point2::new(0, 0),
        Vector2::new(1000, 1000),
        0,
        0,
    );
    t.conceal();
    assert!(!t.is_visible());
    assert_eq!(t.draw().len(), 0);
}

#[test]
fn hide_twice_appear_once_leaves_visible() {
    let mut t = UniTexture::new(
        sample_texture(),
        Point2::new(0, 0),
        Vector2::new(1000, 1000),
        0,
        0,
    );
    t.conceal();
    t.conceal();
    t.appear();
    assert!(t.is_visible());
    assert_eq!(t.draw().len(), 1);
}

#[test]
fn depth_sort_orders_deeper_first() {
    let near = UniTexture::new(
        sample_texture(),
        Point2::new(0, 0),
        Vector2::new(1000, 1000),
        0,
        -3,
    );
    let far = UniTexture::new(
        sample_texture(),
        Point2::new(0, 0),
        Vector2::new(1000, 1000),
        0,
        7,
    );
    assert_eq!(
        drawable_object_sort_with_depth(&far, &near),
        std::cmp::Ordering::Less
    );
    assert_eq!(
        drawable_object_sort_with_depth(&near, &far),
        std::cmp::Ordering::Greater
    );
    assert_eq!(
        drawable_object_sort_with_depth(&near, &near),
        std::cmp::Ordering::Equal
    );
}

#[test]
fn vertical_text_draws_one_glyph_per_char() {
    let vt = VerticalText::new(
        String::from("abc"),
        Point2::new(100, 10),
        Vector2::new(1000, 1000),
        0,
        0,
        sample_font(),
    );
    let cmds = vt.draw();
    assert_eq!(cmds.len(), 3);
    let expected = [('a', 10), ('b', 34), ('c', 58)];
    for (i, cmd) in cmds.iter().enumerate() {
        match cmd {
            DrawCommand::Glyph { ch, font, param } => {
                assert_eq!(*ch, expected[i].0);
                assert_eq!(font.scale, Vector2u::new(24, 24));
                assert_eq!(param.dest, Point2::new(100, expected[i].1));
            }
            _ => panic!("expected a glyph command"),
        }
    }
}

#[test]
fn vertical_text_crop_limits_glyphs() {
    let mut vt = VerticalText::new(
        String::from("abc"),
        Point2::new(0, 0),
        Vector2::new(1000, 1000),
        0,
        0,
        sample_font(),
    );
    // half the height lets one of three glyphs through: 3 * 500 / 1000 = 1
    vt.set_crop(Rect::new(0, 0, 1000, 500));
    assert_eq!(vt.draw().len(), 1);
    vt.set_crop(Rect::new(0, 0, 1000, 0));
    assert_eq!(vt.draw().len(), 0);
}

#[test]
fn movable_text_keeps_its_content() {
    let mut mt = MovableText::new(
        String::from("hello"),
        Point2::new(1, 2),
        Vector2::new(1000, 1000),
        0,
        0,
        None,
        sample_font(),
        9,
    );
    assert_eq!(mt.get_text(), String::from("hello"));
    assert_eq!(mt.get_birth_time(), 9);
    mt.replace_text("bye");
    assert_eq!(mt.get_text(), String::from("bye"));
    let cmds = mt.draw();
    match &cmds[0] {
        DrawCommand::Text { content, .. } => assert_eq!(content, "bye"),
        _ => panic!("expected a text command"),
    }
}

#[test]
fn sub_screen_geometry() {
    let screen = SubScreen::new(
        Canvas { id: 9, width: 40, height: 30 },
        Rect::new(10, 20, 40, 30),
        0,
        Color::new(0, 0, 0, 160),
    );
    assert!(screen.contains(Point2::new(10, 20)));
    assert!(screen.contains(Point2::new(49, 49)));
    assert!(!screen.contains(Point2::new(50, 20)));
    assert_eq!(screen.relative_point(Point2::new(15, 27)), Point2::new(5, 7));
    assert_eq!(screen.get_texture_size(), Vector2u::new(40, 30));
}

#[test]
fn texture_object_setters_round_trip() {
    let mut t = UniTexture::new(
        sample_texture(),
        Point2::new(0, 0),
        Vector2::new(1000, 1000),
        0,
        0,
    );
    t.set_position(Point2::new(7, 8));
    assert_eq!(t.get_position(), Point2::new(7, 8));
    t.move_diff(Vector2::new(-2, 3));
    assert_eq!(t.get_position(), Point2::new(5, 11));
    t.set_scale(Vector2::new(2000, 500));
    assert_eq!(t.get_scale(), Vector2::new(2000, 500));
    t.set_rotation(3141);
    assert_eq!(t.get_rotation(), 3141);
    t.set_alpha(128);
    assert_eq!(t.get_alpha(), 128);
    t.set_drawing_color(Color::new(1, 2, 3, 4));
    assert_eq!(t.get_drawing_color(), Color::new(1, 2, 3, 4));
    t.replace_texture(Texture { id: 2, width: 8, height: 8 });
    match t.draw().first() {
        Some(DrawCommand::Sprite { texture, .. }) => assert_eq!(texture.id, 2),
        _ => panic!("expected a sprite command"),
    }
}

#[test]
fn color_unpacks_rgba() {
    let c = Color::from_rgba_u32(0x11223344);
    assert_eq!(c, Color::new(0x11, 0x22, 0x33, 0x44));
    let dark = Color::from_rgba_u32(0x000000a0);
    assert_eq!(dark, Color::new(0, 0, 0, 0xa0));
}

#[test]
fn position_arithmetic_saturates() {
    let p = Point2::new(i64::MAX - 1, i64::MIN + 1);
    let moved = p.moved(Vector2::new(10, -10));
    assert_eq!(moved, Point2::new(i64::MAX, i64::MIN));
}

#[test]
fn drawing_size_scales_the_texture() {
    let mut t = UniTexture::new(
        sample_texture(),
        Point2::new(10, 20),
        Vector2::new(1000, 1000),
        0,
        0,
    );
    assert_eq!(t.get_texture_size(), Vector2u::new(64, 32));
    assert_eq!(t.get_drawing_size(), Vector2::new(64, 32));
    t.set_scale(Vector2::new(500, 2000));
    assert_eq!(t.get_drawing_size(), Vector2::new(32, 64));
    assert_eq!(t.get_drawing_area(), Rect::new(10, 20, 32, 64));
}

#[test]
fn vertical_text_reports_its_extent() {
    let vt = VerticalText::new(
        String::from("abcd"),
        Point2::new(0, 0),
        Vector2::new(1000, 1000),
        0,
        0,
        sample_font(),
    );
    assert_eq!(vt.get_text(), "abcd");
    // one glyph wide, four glyphs tall
    assert_eq!(vt.get_texture_size(), Vector2::new(24, 96));
}
