use torifune::graphics::draw::{clipped_draw_param, StackScreen};
use torifune::graphics::object::shadow::ShadowShape;
use torifune::graphics::object::shape::{
    Circle, DrawableShape, DrawMode, FramedTextBalloon, MeshElement, MeshShape, Polygon,
    RadiusRect, Rectangle, Shape,
};
use torifune::graphics::object::menu::VerticalMenu;
use torifune::graphics::object::{DrawCommand, FontInformation};
use torifune::graphics::{Canvas, Color, DrawableComponent, DrawParam, Font};
use torifune::numeric::{Point2, Rect, Vector2, Vector2u};

fn white() -> Color {
    Color::new(255, 255, 255, 255)
}

#[test]
fn rectangle_builds_one_element() {
    let r = Rectangle::new(Rect::new(1, 2, 3, 4), DrawMode::Fill, white());
    let mut builder: Vec<MeshElement> = Vec::new();
    r.add_to_builder(&mut builder);
    assert_eq!(
        builder,
        vec![MeshElement::RectangleEl { mode: DrawMode::Fill, bounds: Rect::new(1, 2, 3, 4), color: white() }],
    );
}

#[test]
fn circle_radius_arithmetic() {
    let mut c = Circle::new(Point2::new(0, 0), 10, 100, DrawMode::Fill, white());
    c.add_radius(5);
    assert_eq!(c.get_radius(), 15);
    c.add_radius(i64::MAX);
    assert_eq!(c.get_radius(), i64::MAX);
}

#[test]
fn shape_enum_dispatches() {
    let p = Polygon::new(
        vec![Point2::new(0, 0), Point2::new(4, 0), Point2::new(0, 4)],
        DrawMode::Fill,
        white(),
    );
    let shape = Shape::Polygon(p);
    let mut builder: Vec<MeshElement> = Vec::new();
    shape.add_to_builder(&mut builder);
    match &builder[0] {
        MeshElement::PolygonEl { points, .. } => assert_eq!(points.len(), 3),
        _ => panic!("expected a polygon element"),
    }
}

#[test]
fn radius_rect_builds_five_rectangles_and_four_ellipses() {
    let rr = RadiusRect::new(
        Rect::new(0, 0, 100, 60),
        [Vector2::new(8, 8), Vector2::new(8, 8), Vector2::new(8, 8), Vector2::new(8, 8)],
        DrawMode::Fill,
        white(),
    );
    let mut builder: Vec<MeshElement> = Vec::new();
    rr.add_to_builder(&mut builder);
    assert_eq!(builder.len(), 9);
    let rects = builder
        .iter()
        .filter(|e| matches!(e, MeshElement::RectangleEl { .. }))
        .count();
    let ellipses = builder
        .iter()
        .filter(|e| matches!(e, MeshElement::EllipseEl { .. }))
        .count();
    assert_eq!(rects, 5);
    assert_eq!(ellipses, 4);
    match &builder[0] {
        MeshElement::RectangleEl { bounds, .. } => {
            // the core rectangle is inset by the corner radii
            assert_eq!(*bounds, Rect::new(8, 8, 84, 44));
        }
        _ => panic!("expected a rectangle element"),
    }
}

#[test]
fn drawable_shape_emits_a_mesh() {
    let shape = Rectangle::new(Rect::new(0, 0, 10, 10), DrawMode::Stroke { width: 2 }, white());
    let mut d = DrawableShape::new(shape, 1, white());
    let cmds = d.draw();
    assert_eq!(cmds.len(), 1);
    match &cmds[0] {
        DrawCommand::Mesh { elements, .. } => assert_eq!(elements.len(), 1),
        _ => panic!("expected a mesh command"),
    }
    d.conceal();
    assert_eq!(d.draw().len(), 0);
}

#[test]
fn framed_balloon_insets_its_inner_frame() {
    let balloon = FramedTextBalloon::new(
        Rect::new(10, 10, 100, 50),
        [Vector2::new(4, 4); 4],
        3,
        Color::new(200, 200, 200, 255),
        Color::new(20, 20, 20, 255),
        0,
    );
    assert_eq!(balloon.get_drawing_area(), Rect::new(10, 10, 100, 50));
    assert_eq!(balloon.inner.shape.pos_rect, Rect::new(13, 13, 94, 44));
    // the outer frame paints first, then the inner fill
    assert_eq!(balloon.draw().len(), 2);
}

#[test]
fn shadow_is_a_stroked_rectangle() {
    let shadow = ShadowShape::new(4, Rect::new(0, 0, 30, 30), Color::new(0, 0, 0, 128), 0);
    let cmds = shadow.draw();
    match &cmds[0] {
        DrawCommand::Mesh { elements, .. } => {
            assert_eq!(
                elements[0],
                MeshElement::RectangleEl {
                    mode: DrawMode::Stroke { width: 4 },
                    bounds: Rect::new(0, 0, 30, 30),
                    color: Color::new(0, 0, 0, 128),
                },
            );
        }
        _ => panic!("expected a mesh command"),
    }
}

#[test]
fn vertical_menu_lays_columns_right_to_left() {
    let font = FontInformation::new(Font { id: 1 }, Vector2u::new(10, 20), white());
    let menu = VerticalMenu::new(
        Canvas { id: 3, width: 24, height: 44 },
        Point2::new(5, 6),
        4,
        vec![String::from("ab"), String::from("c")],
        font,
    );
    // area: two 10-wide columns plus padding; tallest entry 2 * 20 plus padding
    assert_eq!(menu.canvas.size, Vector2::new(24, 44));
    assert_eq!(menu.item_text.len(), 2);
    assert_eq!(menu.item_text[0].get_text(), "ab");
    assert_eq!(menu.item_text[0].draw_param.dest, Point2::new(12, 2));
    assert_eq!(menu.item_text[1].draw_param.dest, Point2::new(2, 2));
}

#[test]
fn clipping_confines_a_draw_to_the_screen() {
    let screen = StackScreen { position: Point2::new(5, 5), size: Vector2u::new(20, 20) };
    assert_eq!(screen.end_point(), Point2::new(25, 25));
    let mut param = DrawParam::new();
    param.dest = Point2::new(-10, 0);
    let clipped = clipped_draw_param(param, Some(Rect::new(0, 0, 100, 50)), screen);
    // destination displaced into the screen, source cut back from the left
    assert_eq!(clipped.dest, Point2::new(-5, 5));
    assert_eq!(clipped.src.x, 100);
    assert_eq!(clipped.src.y, 0);
    assert_eq!(clipped.src.w, 1000);
    assert_eq!(clipped.src.h, 1000);

    let mut param = DrawParam::new();
    param.dest = Point2::new(30, 0);
    let clipped = clipped_draw_param(param, Some(Rect::new(0, 0, 100, 50)), screen);
    // past the right edge by five pixels: the end ratio shrinks by 5 / 100
    assert_eq!(clipped.src.w, 950);

    let clipped = clipped_draw_param(param, None, screen);
    assert_eq!(clipped.dest, Point2::new(35, 5));
    assert_eq!(clipped.src, DrawParam::new().src);
}
