use torifune::graphics::object::sub_screen::{
    pop_screen, reset_stacking_screen, stack_screen, ScreenStack, SubScreen,
};
use torifune::graphics::{Canvas, Color};
use torifune::numeric::{Point2, Rect};

fn screen(id: u64) -> SubScreen {
    SubScreen::new(
        Canvas { id, width: 100, height: 100 },
        Rect::new(0, 0, 100, 100),
        0,
        Color::new(0, 0, 0, 255),
    )
}

#[test]
fn balanced_stack_pop_restores_the_window() {
    let mut screens = ScreenStack::new();
    let a = screen(1);
    let b = screen(2);

    stack_screen(&mut screens, &a);
    stack_screen(&mut screens, &b);
    let popped = pop_screen(&mut screens);
    assert_eq!(popped.map(|s| s.canvas.id), Some(1));
    let popped = pop_screen(&mut screens);
    assert_eq!(popped.map(|s| s.canvas.id), None);
    // back at the window: a further pop stays there
    assert!(pop_screen(&mut screens).is_none());
    assert!(screens.current.is_none());
    assert_eq!(screens.stack.len(), 0);
}

#[test]
fn balanced_nesting_restores_the_active_target() {
    let mut screens = ScreenStack::new();
    let base = screen(7);
    let overlay = screen(8);
    let inner = screen(9);

    reset_stacking_screen(&mut screens, Some(&base));
    stack_screen(&mut screens, &overlay);
    stack_screen(&mut screens, &inner);
    pop_screen(&mut screens);
    pop_screen(&mut screens);
    // the active target is what it was before the balanced sequence began
    assert_eq!(screens.current.map(|s| s.canvas.id), Some(7));
    assert_eq!(screens.stack.len(), 0);
}

#[test]
fn reset_returns_the_previous_target() {
    let mut screens = ScreenStack::new();
    let a = screen(1);
    let b = screen(2);
    assert!(reset_stacking_screen(&mut screens, Some(&a)).is_none());
    let prev = reset_stacking_screen(&mut screens, Some(&b));
    assert_eq!(prev.map(|s| s.canvas.id), Some(1));
    let prev = reset_stacking_screen(&mut screens, None);
    assert_eq!(prev.map(|s| s.canvas.id), Some(2));
}

#[test]
fn pop_returns_the_popped_target() {
    let mut screens = ScreenStack::new();
    let a = screen(4);
    let b = screen(5);
    stack_screen(&mut screens, &a);
    stack_screen(&mut screens, &b);
    // the most recently saved target comes back and becomes active
    let popped = pop_screen(&mut screens).unwrap();
    assert_eq!(popped.canvas.id, 4);
    assert_eq!(screens.current.map(|s| s.canvas.id), Some(4));
}
