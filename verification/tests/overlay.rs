use torifune::debug::{
    debug_screen_appear, debug_screen_change_color, debug_screen_change_size, debug_screen_draw,
    debug_screen_hide, debug_screen_init, debug_screen_push_text, debug_screen_set_limit,
    DebugScreen,
};
use torifune::graphics::object::{FontInformation};
use torifune::graphics::{Canvas, Color, Font};
use torifune::numeric::{Rect, Vector2u};

fn overlay() -> DebugScreen {
    debug_screen_init(
        Canvas { id: 1, width: 200, height: 100 },
        Rect::new(0, 0, 200, 100),
        FontInformation::new(Font { id: 1 }, Vector2u::new(10, 10), Color::new(255, 255, 255, 255)),
    )
}

fn lines(screen: &DebugScreen) -> Vec<String> {
    screen.get_texts().iter().map(|t| t.get_text()).collect()
}

#[test]
fn three_line_limit_keeps_the_newest_three() {
    let mut screen = overlay();
    debug_screen_set_limit(&mut screen, 3);
    for line in ["L1", "L2", "L3", "L4", "L5"] {
        debug_screen_push_text(&mut screen, line);
    }
    assert_eq!(lines(&screen), vec!["L3".to_string(), "L4".to_string(), "L5".to_string()]);
}

#[test]
fn default_limit_comes_from_the_area() {
    // one line per glyph height of the area's width: 200 / 10
    let screen = overlay();
    assert_eq!(screen.text_limit, 20);
}

#[test]
fn pushed_lines_scroll_up() {
    let mut screen = overlay();
    debug_screen_set_limit(&mut screen, 3);
    debug_screen_push_text(&mut screen, "first");
    debug_screen_push_text(&mut screen, "second");
    let texts = screen.get_texts();
    // the newest line sits one row above the bottom edge, earlier lines one
    // row higher each: y = 100 - 10 - 5 = 85, shifted up by 10
    assert_eq!(texts[1].draw_param.dest.y, 85);
    assert_eq!(texts[0].draw_param.dest.y, 75);
}

#[test]
fn hidden_overlay_draws_nothing() {
    let mut screen = overlay();
    debug_screen_push_text(&mut screen, "line");
    assert!(debug_screen_draw(&screen).len() > 0);
    debug_screen_hide(&mut screen);
    assert_eq!(debug_screen_draw(&screen).len(), 0);
    debug_screen_appear(&mut screen);
    // one text command plus the canvas blit
    assert_eq!(debug_screen_draw(&screen).len(), 2);
}

#[test]
fn overlay_recolor_and_resize() {
    let mut screen = overlay();
    debug_screen_change_color(&mut screen, Color::new(1, 2, 3, 4));
    assert_eq!(screen.screen.draw_param.color, Color::new(1, 2, 3, 4));
    debug_screen_change_size(
        &mut screen,
        Canvas { id: 2, width: 50, height: 50 },
        Rect::new(0, 0, 50, 50),
    );
    assert_eq!(screen.screen.canvas.id, 2);
}
