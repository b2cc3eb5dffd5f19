use maple_overlay::events::{
    on_overlay_event, on_settings_event, OverlayEvent, OverlayReaction, SettingsEvent,
    SettingsReaction, CONFIRM_CONTROL, HOTKEY_SETTINGS, HOTKEY_TOGGLE,
};
use maple_overlay::geometry::Rect;
use maple_overlay::render::PaintPlan;
use maple_overlay::state::{AppState, Handle, SettingsRequest, SettingsWindow};

fn window(n: isize) -> SettingsWindow {
    SettingsWindow {
        window: Handle(n),
        nickname_field: Handle(n + 1),
        credential_field: Handle(n + 2),
    }
}

#[test]
fn hotkey_numbers_are_fixed() {
    assert_eq!(HOTKEY_TOGGLE, 1);
    assert_eq!(HOTKEY_SETTINGS, 2);
    assert_eq!(CONFIRM_CONTROL, 101);
}

#[test]
fn toggle_hotkey_hides_then_shows_the_overlay() {
    let mut state = AppState::new();
    let reaction = on_overlay_event(&mut state, OverlayEvent::Hotkey(1));
    assert_eq!(reaction, OverlayReaction::SetShown(false));
    assert!(!state.overlay_enabled());
    let reaction = on_overlay_event(&mut state, OverlayEvent::Hotkey(1));
    assert_eq!(reaction, OverlayReaction::SetShown(true));
    assert!(state.overlay_enabled());
}

#[test]
fn settings_hotkey_creates_once_and_reveals_afterwards() {
    let mut state = AppState::new();
    let reaction = on_overlay_event(&mut state, OverlayEvent::Hotkey(2));
    assert_eq!(reaction, OverlayReaction::OpenSettings(SettingsRequest::Create));
    state.adopt_settings(window(500));
    let reaction = on_overlay_event(&mut state, OverlayEvent::Hotkey(2));
    assert_eq!(reaction, OverlayReaction::OpenSettings(SettingsRequest::Reveal(window(500))));
    let reaction = on_overlay_event(&mut state, OverlayEvent::Hotkey(2));
    assert_eq!(reaction, OverlayReaction::OpenSettings(SettingsRequest::Reveal(window(500))));
    assert!(state.overlay_enabled());
}

#[test]
fn unknown_hotkey_changes_nothing() {
    let mut state = AppState::new();
    for id in [0, 3, -1, i32::MAX, i32::MIN] {
        let reaction = on_overlay_event(&mut state, OverlayEvent::Hotkey(id));
        assert_eq!(reaction, OverlayReaction::Nothing);
    }
    assert!(state.overlay_enabled());
    assert!(state.is_running());
}

#[test]
fn paint_event_plans_a_frame() {
    let mut state = AppState::new();
    let client = Rect { left: 0, top: 0, right: 320, bottom: 200 };
    match on_overlay_event(&mut state, OverlayEvent::Paint(client)) {
        OverlayReaction::Paint(PaintPlan::Draw(frame)) => {
            assert_eq!(frame.width, 320);
            assert_eq!(frame.height, 200);
            assert_eq!(
                frame.label,
                "Maple Overlay ON (Ctrl + F1)\nNickname: None\nAPI Key: None\nResolution: 320x200"
            );
        }
        other => panic!("no frame: {:?}", other),
    }
}

#[test]
fn paint_event_defers_while_disabled() {
    let mut state = AppState::new();
    on_overlay_event(&mut state, OverlayEvent::Hotkey(1));
    let client = Rect { left: 0, top: 0, right: 320, bottom: 200 };
    let reaction = on_overlay_event(&mut state, OverlayEvent::Paint(client));
    assert_eq!(reaction, OverlayReaction::Paint(PaintPlan::Defer));
}

#[test]
fn destroying_the_overlay_stops_the_run() {
    let mut state = AppState::new();
    let reaction = on_overlay_event(&mut state, OverlayEvent::Destroyed);
    assert_eq!(reaction, OverlayReaction::Quit);
    assert!(!state.is_running());
    on_overlay_event(&mut state, OverlayEvent::Hotkey(1));
    on_overlay_event(&mut state, OverlayEvent::Other);
    assert!(!state.is_running());
}

#[test]
fn other_events_are_left_to_the_default() {
    let mut state = AppState::new();
    let reaction = on_overlay_event(&mut state, OverlayEvent::Other);
    assert_eq!(reaction, OverlayReaction::Default);
    assert!(state.is_running());
    assert!(state.overlay_enabled());
}

#[test]
fn confirm_control_commits() {
    assert_eq!(on_settings_event(SettingsEvent::Command(101)), SettingsReaction::Commit);
}

#[test]
fn confirm_control_is_named_by_the_low_word() {
    assert_eq!(on_settings_event(SettingsEvent::Command(0x0003_0065)), SettingsReaction::Commit);
    assert_eq!(on_settings_event(SettingsEvent::Command(0x0065_0000)), SettingsReaction::Nothing);
    assert_eq!(on_settings_event(SettingsEvent::Command(usize::MAX)), SettingsReaction::Nothing);
}

#[test]
fn other_controls_do_nothing() {
    assert_eq!(on_settings_event(SettingsEvent::Command(0)), SettingsReaction::Nothing);
    assert_eq!(on_settings_event(SettingsEvent::Command(100)), SettingsReaction::Nothing);
    assert_eq!(on_settings_event(SettingsEvent::Command(102)), SettingsReaction::Nothing);
}

#[test]
fn closing_the_settings_window_hides_it() {
    assert_eq!(on_settings_event(SettingsEvent::Close), SettingsReaction::Hide);
}

#[test]
fn other_settings_events_are_left_to_the_default() {
    assert_eq!(on_settings_event(SettingsEvent::Other), SettingsReaction::Default);
}
