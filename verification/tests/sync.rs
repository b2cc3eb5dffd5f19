use maple_overlay::geometry::Rect;
use maple_overlay::render::{plan_paint, PaintPlan};
use maple_overlay::state::AppState;
use maple_overlay::sync::{
    begin_tick, plan_tick, reconcile, Placement, TargetStatus, TickAction, TickStart,
    WindowCommand, TICK_MILLIS,
};

fn rect(left: i32, top: i32, right: i32, bottom: i32) -> Rect {
    Rect { left, top, right, bottom }
}

fn target(r: Rect, visible: bool, minimized: bool) -> Option<TargetStatus> {
    Some(TargetStatus { rect: r, visible, minimized })
}

#[test]
fn overlay_follows_a_visible_target_exactly() {
    let action = plan_tick(true, target(rect(100, 100, 900, 700), true, false));
    assert_eq!(
        action,
        TickAction::Follow(Placement { x: 100, y: 100, width: 800, height: 600 })
    );
}

#[test]
fn following_shows_without_activating_then_moves_then_invalidates() {
    let action = plan_tick(true, target(rect(100, 100, 900, 700), true, false));
    assert_eq!(
        action.commands(),
        vec![
            WindowCommand::ShowInactive,
            WindowCommand::MoveTo(Placement { x: 100, y: 100, width: 800, height: 600 }),
            WindowCommand::InvalidateAll,
        ]
    );
}

#[test]
fn hiding_is_one_call_and_idling_none() {
    assert_eq!(TickAction::Hide.commands(), vec![WindowCommand::Hide]);
    assert_eq!(TickAction::Idle.commands(), Vec::new());
    assert_eq!(
        plan_tick(true, target(rect(100, 100, 900, 700), true, true)).commands(),
        vec![WindowCommand::Hide]
    );
    assert_eq!(
        plan_tick(true, target(rect(100, 100, 100, 100), true, false)).commands(),
        vec![WindowCommand::Hide]
    );
    assert_eq!(plan_tick(false, None).commands(), Vec::new());
}

#[test]
fn reconcile_follows_a_visible_target_exactly() {
    let action = reconcile(target(rect(100, 100, 900, 700), true, false));
    assert_eq!(
        action,
        TickAction::Follow(Placement { x: 100, y: 100, width: 800, height: 600 })
    );
}

#[test]
fn overlay_follows_a_target_left_of_and_above_the_origin() {
    let action = reconcile(target(rect(-1920, -200, -640, 520), true, false));
    assert_eq!(
        action,
        TickAction::Follow(Placement { x: -1920, y: -200, width: 1280, height: 720 })
    );
}

#[test]
fn overlay_follows_the_widest_target() {
    let action = reconcile(target(rect(i32::MIN, i32::MIN, i32::MAX, i32::MAX), true, false));
    assert_eq!(
        action,
        TickAction::Follow(Placement {
            x: i32::MIN,
            y: i32::MIN,
            width: u32::MAX,
            height: u32::MAX
        })
    );
}

#[test]
fn minimized_target_hides_the_overlay_whatever_its_rectangle() {
    assert_eq!(reconcile(target(rect(100, 100, 900, 700), true, true)), TickAction::Hide);
    assert_eq!(reconcile(target(rect(100, 100, 900, 700), false, true)), TickAction::Hide);
    assert_eq!(reconcile(target(rect(-32000, -32000, -31840, -31972), true, true)), TickAction::Hide);
    assert_eq!(plan_tick(true, target(rect(0, 0, 1, 1), true, true)), TickAction::Hide);
}

#[test]
fn invisible_target_hides_the_overlay() {
    assert_eq!(reconcile(target(rect(100, 100, 900, 700), false, false)), TickAction::Hide);
}

#[test]
fn degenerate_rectangle_hides_the_overlay() {
    assert_eq!(reconcile(target(rect(100, 100, 100, 700), true, false)), TickAction::Hide);
    assert_eq!(reconcile(target(rect(100, 100, 900, 100), true, false)), TickAction::Hide);
    assert_eq!(reconcile(target(rect(100, 100, 99, 700), true, false)), TickAction::Hide);
    assert_eq!(reconcile(target(rect(100, 100, 900, 99), true, false)), TickAction::Hide);
    assert_eq!(reconcile(target(rect(0, 0, 0, 0), true, false)), TickAction::Hide);
    assert_eq!(reconcile(target(rect(i32::MAX, 0, i32::MIN, 10), true, false)), TickAction::Hide);
}

#[test]
fn smallest_rectangle_is_followed() {
    assert_eq!(
        reconcile(target(rect(5, 6, 6, 7), true, false)),
        TickAction::Follow(Placement { x: 5, y: 6, width: 1, height: 1 })
    );
}

#[test]
fn missing_target_hides_the_overlay() {
    assert_eq!(reconcile(None), TickAction::Hide);
    assert_eq!(plan_tick(true, None), TickAction::Hide);
}

#[test]
fn disabled_overlay_does_nothing_on_a_tick() {
    assert_eq!(plan_tick(false, None), TickAction::Idle);
    assert_eq!(plan_tick(false, target(rect(100, 100, 900, 700), true, false)), TickAction::Idle);
    assert_eq!(plan_tick(false, target(rect(100, 100, 900, 700), true, true)), TickAction::Idle);
}

#[test]
fn tick_begins_by_the_enable_flag() {
    let mut state = AppState::new();
    assert_eq!(begin_tick(&state), TickStart::Locate);
    state.toggle_overlay();
    assert_eq!(begin_tick(&state), TickStart::Idle);
    state.toggle_overlay();
    assert_eq!(begin_tick(&state), TickStart::Locate);
}

#[test]
fn toggling_off_suppresses_tick_and_paint_and_toggling_on_resumes_both() {
    let found = target(rect(100, 100, 900, 700), true, false);
    let client = rect(0, 0, 800, 600);
    let mut state = AppState::new();

    assert!(!state.toggle_overlay());
    assert_eq!(begin_tick(&state), TickStart::Idle);
    assert_eq!(plan_tick(state.overlay_enabled(), found), TickAction::Idle);
    assert_eq!(plan_paint(&state, client), PaintPlan::Defer);

    assert!(state.toggle_overlay());
    assert_eq!(begin_tick(&state), TickStart::Locate);
    assert_eq!(
        plan_tick(state.overlay_enabled(), found),
        TickAction::Follow(Placement { x: 100, y: 100, width: 800, height: 600 })
    );
    assert!(matches!(plan_paint(&state, client), PaintPlan::Draw(_)));
}

#[test]
fn overlay_snaps_to_each_new_rectangle() {
    let first = reconcile(target(rect(0, 0, 800, 600), true, false));
    let second = reconcile(target(rect(500, 400, 1524, 1168), true, false));
    assert_eq!(first, TickAction::Follow(Placement { x: 0, y: 0, width: 800, height: 600 }));
    assert_eq!(
        second,
        TickAction::Follow(Placement { x: 500, y: 400, width: 1024, height: 768 })
    );
}

#[test]
fn native_extents_are_the_extents_where_they_fit() {
    let p = Placement { x: 100, y: 100, width: 800, height: 600 };
    assert_eq!(p.native_width(), 800);
    assert_eq!(p.native_height(), 600);
    let p = Placement { x: 0, y: 0, width: 2147483647, height: 1 };
    assert_eq!(p.native_width(), i32::MAX);
    assert_eq!(p.native_height(), 1);
}

#[test]
fn native_extents_stop_at_the_largest() {
    let p = Placement { x: 0, y: 0, width: 2147483648, height: u32::MAX };
    assert_eq!(p.native_width(), i32::MAX);
    assert_eq!(p.native_height(), i32::MAX);
}

#[test]
fn tick_interval_is_sixteen_milliseconds() {
    assert_eq!(TICK_MILLIS, 16);
}
