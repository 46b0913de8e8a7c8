use torifune::graphics::object::{
    EffectableWrap, EffectFn, FontInformation, HasBirthTime, HasGenericEffect, Effectable,
    MovableObject, MovableText, MovableUniTexture, MovableWrap, MoveFn, SimpleObject, SimpleText,
    TextureObject, UniTexture,
};
use torifune::graphics::{Color, DrawableComponent, DrawableObject, Font, Texture};
use torifune::numeric::{Point2, Vector2, Vector2u};

fn movable_at(pos: Point2, mf: Option<MoveFn>, now: u64) -> MovableUniTexture {
    MovableUniTexture::new(
        Texture { id: 1, width: 16, height: 16 },
        pos,
        Vector2::new(1000, 1000),
        0,
        0,
        mf,
        now,
    )
}

#[test]
fn move_at_install_time_uses_elapsed_zero() {
    let mut obj = movable_at(Point2::new(3, 4), None, 0);
    assert!(obj.is_stop());
    let f = MoveFn::Linear { start: Point2::new(7, 9), velocity: Vector2::new(2, 5) };
    obj.override_move_func(Some(f), 100);
    assert!(!obj.is_stop());
    assert_eq!(obj.mf_start_timing(), 100);
    obj.move_with_func(100);
    // elapsed is zero at the installation tick: exactly f(object, 0)
    assert_eq!(obj.get_position(), Point2::new(7, 9));
    obj.move_with_func(110);
    assert_eq!(obj.get_position(), Point2::new(27, 59));
}

#[test]
fn drift_move_fn_steps_from_current_position() {
    let mut obj = movable_at(Point2::new(0, 0), Some(MoveFn::Drift(Vector2::new(1, 0))), 0);
    obj.move_with_func(0);
    obj.move_with_func(1);
    assert_eq!(obj.get_position(), Point2::new(2, 0));
}

#[test]
fn frozen_object_stays_put() {
    let mut obj = movable_at(Point2::new(5, 6), None, 0);
    obj.move_with_func(42);
    assert_eq!(obj.get_position(), Point2::new(5, 6));
}

#[test]
fn finishing_effect_applies_on_its_last_tick_and_is_pruned() {
    let inner = movable_at(Point2::new(0, 0), None, 0);
    let mut obj: SimpleObject = EffectableWrap::new(
        inner,
        vec![
            EffectFn::HideAt { at: 5 },
            EffectFn::DriftUntil { velocity: Vector2::new(1, 0), until: 10 },
        ],
    );
    obj.effect(4);
    // nothing finished yet: both effects stay, the drift already moved once
    assert!(obj.is_visible());
    assert_eq!(obj.geffect_essential.effects_list.len(), 2);
    assert_eq!(obj.get_position(), Point2::new(1, 0));
    obj.effect(5);
    // the hide fires on the tick it finishes, and is gone afterwards
    assert!(!obj.is_visible());
    assert_eq!(
        obj.geffect_essential.effects_list,
        vec![EffectFn::DriftUntil { velocity: Vector2::new(1, 0), until: 10 }],
    );
    assert_eq!(obj.get_position(), Point2::new(2, 0));
    obj.effect(10);
    // the drift still displaces on its finishing tick, then the list is empty
    assert_eq!(obj.get_position(), Point2::new(3, 0));
    assert_eq!(obj.geffect_essential.effects_list.len(), 0);
}

#[test]
fn fade_effect_steps_toward_target() {
    let inner = movable_at(Point2::new(0, 0), None, 0);
    let mut obj: SimpleObject =
        EffectableWrap::new(inner, vec![EffectFn::FadeTo { target: 100, step: 90 }]);
    assert_eq!(obj.get_alpha(), 255);
    obj.effect(0);
    assert_eq!(obj.get_alpha(), 165);
    assert_eq!(obj.geffect_essential.effects_list.len(), 1);
    obj.effect(1);
    // the step that reaches the target finishes the effect
    assert_eq!(obj.get_alpha(), 100);
    assert_eq!(obj.geffect_essential.effects_list.len(), 0);
}

#[test]
fn add_effect_appends_and_clear_empties() {
    let inner = movable_at(Point2::new(0, 0), None, 0);
    let mut obj: SimpleObject = EffectableWrap::new(inner, vec![EffectFn::HideAt { at: 1 }]);
    obj.add_effect(vec![EffectFn::AppearAt { at: 2 }]);
    assert_eq!(
        obj.geffect_essential.effects_list,
        vec![EffectFn::HideAt { at: 1 }, EffectFn::AppearAt { at: 2 }],
    );
    obj.clear_effect();
    assert_eq!(obj.geffect_essential.effects_list.len(), 0);
}

#[test]
fn wrapper_forwards_drawable_surface() {
    let inner = movable_at(Point2::new(2, 3), None, 7);
    let mut obj: SimpleObject = EffectableWrap::new(inner, vec![]);
    assert_eq!(obj.get_birth_time(), 7);
    obj.set_position(Point2::new(9, 9));
    assert_eq!(obj.get_position(), Point2::new(9, 9));
    obj.set_drawing_depth(-4);
    assert_eq!(obj.get_drawing_depth(), -4);
    obj.set_drawing_color(Color::new(9, 8, 7, 6));
    assert_eq!(obj.get_drawing_color(), Color::new(9, 8, 7, 6));
    assert_eq!(obj.draw().len(), 1);
}

#[test]
fn linear_motion_saturates_at_the_coordinate_range() {
    let mut obj = movable_at(
        Point2::new(0, 0),
        Some(MoveFn::Linear {
            start: Point2::new(i64::MAX - 5, 0),
            velocity: Vector2::new(i64::MAX, 0),
        }),
        0,
    );
    obj.move_with_func(1000);
    assert_eq!(obj.get_position(), Point2::new(i64::MAX, 0));
}

#[test]
fn movable_wrap_attaches_motion_to_a_texture() {
    let base = UniTexture::new(
        Texture { id: 2, width: 8, height: 8 },
        Point2::new(4, 4),
        Vector2::new(1000, 1000),
        0,
        0,
    );
    let mut wrapped = MovableWrap::new(Box::new(base), Some(MoveFn::Fixed(Point2::new(1, 1))), 3);
    assert_eq!(wrapped.get_birth_time(), 3);
    assert_eq!(wrapped.mf_start_timing(), 3);
    wrapped.move_with_func(10);
    assert_eq!(wrapped.get_position(), Point2::new(1, 1));
    let inner = wrapped.move_wrapped_object();
    assert_eq!(inner.get_position(), Point2::new(1, 1));
}

#[test]
fn simple_text_is_movable_and_effectable() {
    let font =
        FontInformation::new(Font { id: 1 }, Vector2u::new(12, 12), Color::new(9, 9, 9, 255));
    let mut label: SimpleText = EffectableWrap::new(
        MovableText::new(
            String::from("score"),
            Point2::new(0, 0),
            Vector2::new(1000, 1000),
            0,
            0,
            Some(MoveFn::Linear { start: Point2::new(0, 0), velocity: Vector2::new(0, -1) }),
            font,
            0,
        ),
        vec![EffectFn::HideAt { at: 3 }],
    );
    label.move_with_func(2);
    assert_eq!(label.get_position(), Point2::new(0, -2));
    label.effect(3);
    assert!(!label.is_visible());
    assert_eq!(label.draw().len(), 0);
}

#[test]
fn wrapped_object_can_be_mutated_in_place() {
    let inner = movable_at(Point2::new(0, 0), None, 0);
    let mut obj: SimpleObject = EffectableWrap::new(inner, vec![EffectFn::HideAt { at: 9 }]);
    obj.ref_wrapped_object_mut().set_position(Point2::new(6, 7));
    assert_eq!(obj.ref_wrapped_object().get_position(), Point2::new(6, 7));
    assert_eq!(obj.get_position(), Point2::new(6, 7));
    // the effect queue is untouched by the borrow
    assert_eq!(obj.geffect_essential.effects_list.len(), 1);
}
