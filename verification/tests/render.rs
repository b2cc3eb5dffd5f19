use maple_overlay::color::{GLYPH_COLOR, KEY_COLOR, OUTLINE_COLOR};
use maple_overlay::geometry::Rect;
use maple_overlay::render::{
    compose_frame, compose_label, compose_passes, plan_paint, Align, Frame, PaintPlan, TextPass,
    TextStyle, ANCHOR_DIVISOR, FONT_HEIGHT, FONT_WEIGHT, OUTLINE_PASSES,
};
use maple_overlay::state::AppState;

fn units(s: &str) -> Vec<u16> {
    s.encode_utf16().collect()
}

fn rect(left: i32, top: i32, right: i32, bottom: i32) -> Rect {
    Rect { left, top, right, bottom }
}

fn outline(left: i32, top: i32, right: i32, bottom: i32) -> TextPass {
    TextPass { rect: rect(left, top, right, bottom), color: OUTLINE_COLOR }
}

#[test]
fn label_shows_placeholders_where_nothing_is_set() {
    let label = compose_label("", false, 800, 600);
    assert_eq!(
        label,
        "Maple Overlay ON (Ctrl + F1)\nNickname: None\nAPI Key: None\nResolution: 800x600"
    );
}

#[test]
fn label_lines_are_never_empty_where_nothing_is_set() {
    let mut state = AppState::new();
    state.commit_fields(&units(""), &units(""));
    let plan = plan_paint(&state, rect(0, 0, 640, 480));
    let frame = match plan {
        PaintPlan::Draw(frame) => frame,
        other => panic!("no frame: {:?}", other),
    };
    let lines: Vec<&str> = frame.label.split('\n').collect();
    assert_eq!(lines.len(), 4);
    assert_eq!(lines[1], "Nickname: None");
    assert_eq!(lines[2], "API Key: None");
    for line in lines {
        assert!(!line.is_empty());
    }
}

#[test]
fn label_masks_the_credential() {
    let mut state = AppState::new();
    state.commit_fields(&units(""), &units("abc123"));
    let plan = plan_paint(&state, rect(0, 0, 800, 600));
    let frame = match plan {
        PaintPlan::Draw(frame) => frame,
        other => panic!("no frame: {:?}", other),
    };
    assert_eq!(
        frame.label,
        "Maple Overlay ON (Ctrl + F1)\nNickname: None\nAPI Key: ********\nResolution: 800x600"
    );
    assert!(!frame.label.contains("abc123"));
}

#[test]
fn label_is_the_same_for_every_credential_that_is_set() {
    let a = {
        let mut state = AppState::new();
        state.commit_fields(&units("Alice"), &units("abc123"));
        plan_paint(&state, rect(0, 0, 800, 600))
    };
    let b = {
        let mut state = AppState::new();
        state.commit_fields(&units("Alice"), &units("a wholly different and longer key"));
        plan_paint(&state, rect(0, 0, 800, 600))
    };
    assert_eq!(a, b);
}

#[test]
fn label_shows_the_nickname() {
    assert_eq!(
        compose_label("Alice", true, 1920, 1080),
        "Maple Overlay ON (Ctrl + F1)\nNickname: Alice\nAPI Key: ********\nResolution: 1920x1080"
    );
}

#[test]
fn label_shows_a_zero_resolution() {
    assert_eq!(
        compose_label("x", false, 0, 0),
        "Maple Overlay ON (Ctrl + F1)\nNickname: x\nAPI Key: None\nResolution: 0x0"
    );
}

#[test]
fn passes_are_eight_outlines_and_then_the_label() {
    let passes = compose_passes(rect(0, 30, 800, 600));
    assert_eq!(
        passes,
        vec![
            outline(-1, 29, 799, 599),
            outline(-1, 30, 799, 600),
            outline(-1, 31, 799, 601),
            outline(0, 29, 800, 599),
            outline(0, 31, 800, 601),
            outline(1, 29, 801, 599),
            outline(1, 30, 801, 600),
            outline(1, 31, 801, 601),
            TextPass { rect: rect(0, 30, 800, 600), color: GLYPH_COLOR },
        ]
    );
    assert_eq!(passes.len(), OUTLINE_PASSES + 1);
}

#[test]
fn outline_covers_each_neighbour_once() {
    let at = rect(10, 20, 30, 40);
    let passes = compose_passes(at);
    let mut offsets: Vec<(i32, i32)> = passes[..8]
        .iter()
        .map(|p| (p.rect.left - at.left, p.rect.top - at.top))
        .collect();
    for p in &passes[..8] {
        assert_eq!(p.rect.right - p.rect.left, 20);
        assert_eq!(p.rect.bottom - p.rect.top, 20);
        assert_eq!(p.color, OUTLINE_COLOR);
    }
    offsets.sort();
    assert_eq!(
        offsets,
        vec![(-1, -1), (-1, 0), (-1, 1), (0, -1), (0, 1), (1, -1), (1, 0), (1, 1)]
    );
}

#[test]
fn frame_is_anchored_a_twentieth_down() {
    let frame = compose_frame("Alice", false, 800, 600);
    assert_eq!(frame.width, 800);
    assert_eq!(frame.height, 600);
    assert_eq!(frame.background, KEY_COLOR);
    assert_eq!(frame.passes.len(), 9);
    assert_eq!(frame.passes[8], TextPass { rect: rect(0, 30, 800, 600), color: GLYPH_COLOR });
    assert_eq!(frame.passes[0], outline(-1, 29, 799, 599));
    assert_eq!(ANCHOR_DIVISOR, 20);
}

#[test]
fn frame_sets_the_label_bold_and_centred() {
    let frame = compose_frame("Alice", false, 800, 600);
    assert_eq!(
        frame.style,
        TextStyle { font_height: FONT_HEIGHT, font_weight: FONT_WEIGHT, align: Align::Center }
    );
    assert_eq!(FONT_HEIGHT, 20);
    assert_eq!(FONT_WEIGHT, 700);
}

#[test]
fn frame_anchor_rounds_down() {
    let frame = compose_frame("", false, 100, 39);
    assert_eq!(frame.passes[8].rect, rect(0, 1, 100, 39));
    let frame = compose_frame("", false, 100, 19);
    assert_eq!(frame.passes[8].rect, rect(0, 0, 100, 19));
}

#[test]
fn frame_of_an_empty_client_area() {
    let frame = compose_frame("", false, 0, 0);
    assert_eq!(frame.passes[8].rect, rect(0, 0, 0, 0));
    assert_eq!(frame.passes[0].rect, rect(-1, -1, -1, -1));
    assert_eq!(frame.passes[7].rect, rect(1, 1, 1, 1));
    assert!(frame.label.ends_with("Resolution: 0x0"));
}

#[test]
fn frame_of_the_largest_client_area() {
    let side = i32::MAX - 1;
    let frame = compose_frame("", false, side, side);
    assert_eq!(frame.passes[7].rect, rect(1, side / 20 + 1, i32::MAX, i32::MAX));
    assert!(frame.label.ends_with("Resolution: 2147483646x2147483646"));
}

#[test]
fn paint_is_deferred_while_disabled() {
    let mut state = AppState::new();
    state.toggle_overlay();
    assert_eq!(plan_paint(&state, rect(0, 0, 800, 600)), PaintPlan::Defer);
    assert_eq!(plan_paint(&state, rect(0, 0, -1, -1)), PaintPlan::Defer);
}

#[test]
fn paint_draws_the_whole_frame_while_enabled() {
    let mut state = AppState::new();
    state.commit_fields(&units(" Alice "), &units(" abc123 "));
    let plan = plan_paint(&state, rect(0, 0, 800, 600));
    assert_eq!(
        plan,
        PaintPlan::Draw(Frame {
            width: 800,
            height: 600,
            background: 0,
            style: TextStyle { font_height: 20, font_weight: 700, align: Align::Center },
            label: String::from(
                "Maple Overlay ON (Ctrl + F1)\nNickname: Alice\nAPI Key: ********\nResolution: 800x600"
            ),
            passes: vec![
                outline(-1, 29, 799, 599),
                outline(-1, 30, 799, 600),
                outline(-1, 31, 799, 601),
                outline(0, 29, 800, 599),
                outline(0, 31, 800, 601),
                outline(1, 29, 801, 599),
                outline(1, 30, 801, 600),
                outline(1, 31, 801, 601),
                TextPass { rect: rect(0, 30, 800, 600), color: 0x010101 },
            ],
        })
    );
}

#[test]
fn paint_measures_the_client_rectangle() {
    let state = AppState::new();
    let plan = plan_paint(&state, rect(5, 7, 105, 47));
    match plan {
        PaintPlan::Draw(frame) => {
            assert_eq!(frame.width, 100);
            assert_eq!(frame.height, 40);
            assert_eq!(frame.passes[8].rect, rect(0, 2, 100, 40));
            assert!(frame.label.ends_with("Resolution: 100x40"));
        }
        other => panic!("no frame: {:?}", other),
    }
}

#[test]
fn paint_is_empty_where_the_client_area_holds_no_frame() {
    let state = AppState::new();
    assert_eq!(plan_paint(&state, rect(0, 0, -1, 10)), PaintPlan::Empty);
    assert_eq!(plan_paint(&state, rect(0, 0, 10, -1)), PaintPlan::Empty);
    assert_eq!(plan_paint(&state, rect(0, 0, i32::MAX, 10)), PaintPlan::Empty);
    assert_eq!(plan_paint(&state, rect(0, 0, 10, i32::MAX)), PaintPlan::Empty);
    assert_eq!(plan_paint(&state, rect(i32::MIN, 0, i32::MAX, 10)), PaintPlan::Empty);
}

#[test]
fn paint_draws_at_the_edges_of_what_holds_a_frame() {
    let state = AppState::new();
    assert!(matches!(plan_paint(&state, rect(0, 0, 0, 0)), PaintPlan::Draw(_)));
    assert!(matches!(
        plan_paint(&state, rect(0, 0, i32::MAX - 1, i32::MAX - 1)),
        PaintPlan::Draw(_)
    ));
}
