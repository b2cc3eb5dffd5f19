//! What a repaint of the overlay draws.
//!
//! A frame is composed off screen and copied to the window in one step:
//! the background in the key colour, then the label eight times in the
//! outline colour, one pixel off in each direction, then the label itself
//! on top. This module says what the frame holds; the caller draws it.

use crate::color::{rgb, GLYPH_COLOR, KEY_COLOR, OUTLINE_COLOR};
use crate::geometry::Rect;
use crate::state::{AppModel, AppState};
use crate::text::{decimal, decimal_string};
use vstd::prelude::*;
use vstd::string::*;

verus! {

/// The label's top edge lies this fraction of the client height below the
/// top of the window.
pub const ANCHOR_DIVISOR: i32 = 20;

/// The number of outline passes: one for each neighbouring pixel.
pub const OUTLINE_PASSES: usize = 8;

/// The height of the label's font, in pixels.
pub const FONT_HEIGHT: i32 = 20;

/// The weight of the label's font: bold.
pub const FONT_WEIGHT: i32 = 700;

/// Where a line of text stands between the left and the right edge of its
/// rectangle.
#[derive(Clone, Copy, Debug, PartialEq, Eq, Structural)]
pub enum Align {
    Left,
    Center,
    Right,
}

/// How the label is set.
#[derive(Clone, Copy, Debug, PartialEq, Eq, Structural)]
pub struct TextStyle {
    pub font_height: i32,
    pub font_weight: i32,
    pub align: Align,
}

/// The label's style: a bold font of a legible size, each line centred.
pub open spec fn label_style() -> TextStyle {
    TextStyle { font_height: FONT_HEIGHT, font_weight: FONT_WEIGHT, align: Align::Center }
}

/// The first line of the label.
pub open spec fn banner() -> Seq<char> {
    "Maple Overlay ON (Ctrl + F1)"@
}

/// What the label shows for the nickname: the nickname, or a fixed word
/// where none is set.
pub open spec fn shown_nickname(nickname: Seq<char>) -> Seq<char> {
    if nickname.len() == 0 {
        "None"@
    } else {
        nickname
    }
}

/// What the label shows for the credential: a fixed mask where one is set,
/// a fixed word where none is. The credential itself never appears.
pub open spec fn shown_credential(has_credential: bool) -> Seq<char> {
    if has_credential {
        "********"@
    } else {
        "None"@
    }
}

/// The label: four lines, in this order.
pub open spec fn label_text(
    nickname: Seq<char>,
    has_credential: bool,
    width: nat,
    height: nat,
) -> Seq<char> {
    banner() + "\nNickname: "@ + shown_nickname(nickname) + "\nAPI Key: "@ + shown_credential(
        has_credential,
    ) + "\nResolution: "@ + decimal(width) + "x"@ + decimal(height)
}

/// Where the label is drawn in a client area of the given size: across the
/// whole width, from a twentieth of the height down to the bottom.
pub open spec fn text_rect(width: int, height: int) -> Rect {
    Rect { left: 0, top: (height / 20) as i32, right: width as i32, bottom: height as i32 }
}

/// The offset of the `k`-th outline pass. The passes go through the three
/// columns from left to right and in each from top to bottom, and leave
/// out the middle.
pub open spec fn outline_offset(k: int) -> (int, int) {
    let cell = if k < 4 {
        k
    } else {
        k + 1
    };
    (cell / 3 - 1, cell % 3 - 1)
}

/// The `k`-th outline pass for a label drawn at `at`.
pub open spec fn outline_pass(at: Rect, k: int) -> TextPass {
    TextPass {
        rect: at.spec_shifted(outline_offset(k).0, outline_offset(k).1),
        color: OUTLINE_COLOR,
    }
}

/// The eight outline passes for a label drawn at `at`.
pub open spec fn outline_passes(at: Rect) -> Seq<TextPass> {
    Seq::new(OUTLINE_PASSES as nat, |k: int| outline_pass(at, k))
}

/// All passes for a label drawn at `at`: the outline, then the label.
pub open spec fn passes_of(at: Rect) -> Seq<TextPass> {
    outline_passes(at).push(TextPass { rect: at, color: GLYPH_COLOR })
}

/// A client area of this size can hold a frame: no extent is negative, and
/// the outline, one pixel further out, still has coordinates.
pub open spec fn drawable(width: int, height: int) -> bool {
    0 <= width < i32::MAX && 0 <= height < i32::MAX
}

/// One drawing of the label: where, and in which colour.
#[derive(Clone, Copy, Debug, PartialEq, Eq, Structural)]
pub struct TextPass {
    pub rect: Rect,
    pub color: u32,
}

/// A frame as a mathematical value.
pub struct FrameModel {
    pub width: int,
    pub height: int,
    pub background: u32,
    pub style: TextStyle,
    pub label: Seq<char>,
    pub passes: Seq<TextPass>,
}

/// The frame for a client area of the given size.
pub open spec fn frame_of(
    nickname: Seq<char>,
    has_credential: bool,
    width: int,
    height: int,
) -> FrameModel {
    FrameModel {
        width,
        height,
        background: KEY_COLOR,
        style: label_style(),
        label: label_text(nickname, has_credential, width as nat, height as nat),
        passes: passes_of(text_rect(width, height)),
    }
}

/// What a repaint does, as a mathematical value.
pub enum PaintModel {
    Defer,
    Empty,
    Draw(FrameModel),
}

/// What a repaint does in the given state, for the given client rectangle.
pub open spec fn paint_model(state: AppModel, client: Rect) -> PaintModel {
    if !state.overlay_enabled {
        PaintModel::Defer
    } else if !drawable(client.spec_width(), client.spec_height()) {
        PaintModel::Empty
    } else {
        PaintModel::Draw(
            frame_of(
                state.nickname,
                state.credential.len() > 0,
                client.spec_width(),
                client.spec_height(),
            ),
        )
    }
}

/// One frame: a surface of `width` by `height` pixels filled with
/// `background`, on which `label` is drawn in `style` once for each pass,
/// in order, and which is then copied to the window in one step.
#[derive(Debug, PartialEq, Eq)]
pub struct Frame {
    pub width: i32,
    pub height: i32,
    pub background: u32,
    pub style: TextStyle,
    pub label: String,
    pub passes: Vec<TextPass>,
}

impl View for Frame {
    type V = FrameModel;

    open spec fn view(&self) -> FrameModel {
        FrameModel {
            width: self.width as int,
            height: self.height as int,
            background: self.background,
            style: self.style,
            label: self.label@,
            passes: self.passes@,
        }
    }
}

/// What a repaint does.
#[derive(Debug, PartialEq, Eq)]
pub enum PaintPlan {
    /// The overlay is disabled: draw nothing and leave the repaint to the
    /// window system's default handling.
    Defer,
    /// The client area cannot hold a frame: the repaint is done, with
    /// nothing drawn.
    Empty,
    /// Draw this frame.
    Draw(Frame),
}

impl View for PaintPlan {
    type V = PaintModel;

    open spec fn view(&self) -> PaintModel {
        match self {
            PaintPlan::Defer => PaintModel::Defer,
            PaintPlan::Empty => PaintModel::Empty,
            PaintPlan::Draw(frame) => PaintModel::Draw(frame@),
        }
    }
}

/// The number of outline passes that come before the cell in column `dx`
/// and row `dy`.
spec fn passes_before(dx: int, dy: int) -> int {
    let cell = 3 * (dx + 1) + (dy + 1);
    if cell <= 4 {
        cell
    } else {
        cell - 1
    }
}

/// Composes the label.
pub fn compose_label(nickname: &str, has_credential: bool, width: u32, height: u32) -> (label:
    String)
    ensures
        label@ == label_text(nickname@, has_credential, width as nat, height as nat),
{
    let mut label = String::from_str("Maple Overlay ON (Ctrl + F1)");
    label.append("\nNickname: ");
    if nickname.is_empty() {
        label.append("None");
    } else {
        label.append(nickname);
    }
    label.append("\nAPI Key: ");
    if has_credential {
        label.append("********");
    } else {
        label.append("None");
    }
    label.append("\nResolution: ");
    label.append(decimal_string(width).as_str());
    label.append("x");
    label.append(decimal_string(height).as_str());
    label
}

/// The passes for a label drawn at `at`: eight in the outline colour, one
/// pixel off in each direction, then the label itself.
pub fn compose_passes(at: Rect) -> (passes: Vec<TextPass>)
    requires
        i32::MIN < at.left < i32::MAX,
        i32::MIN < at.right < i32::MAX,
        i32::MIN < at.top < i32::MAX,
        i32::MIN < at.bottom < i32::MAX,
    ensures
        passes@ == passes_of(at),
{
    let outline = rgb(255, 255, 255);
    let mut passes: Vec<TextPass> = Vec::new();
    let mut dx: i32 = -1;
    while dx <= 1
        invariant
            -1 <= dx <= 2,
            outline == OUTLINE_COLOR,
            i32::MIN < at.left < i32::MAX,
            i32::MIN < at.right < i32::MAX,
            i32::MIN < at.top < i32::MAX,
            i32::MIN < at.bottom < i32::MAX,
            passes@ =~= Seq::new(passes_before(dx as int, -1) as nat, |k: int| outline_pass(at, k)),
        decreases 2 - dx,
    {
        let mut dy: i32 = -1;
        while dy <= 1
            invariant
                -1 <= dx <= 1,
                -1 <= dy <= 2,
                outline == OUTLINE_COLOR,
                i32::MIN < at.left < i32::MAX,
                i32::MIN < at.right < i32::MAX,
                i32::MIN < at.top < i32::MAX,
                i32::MIN < at.bottom < i32::MAX,
                passes@ =~= Seq::new(
                    passes_before(dx as int, dy as int) as nat,
                    |k: int| outline_pass(at, k),
                ),
            decreases 2 - dy,
        {
            if dx != 0 || dy != 0 {
                passes.push(TextPass { rect: at.shifted(dx, dy), color: outline });
            }
            dy = dy + 1;
        }
        dx = dx + 1;
    }
    passes.push(TextPass { rect: at, color: rgb(1, 1, 1) });
    passes
}

/// Composes the frame for a client area of the given size.
pub fn compose_frame(nickname: &str, has_credential: bool, width: i32, height: i32) -> (frame:
    Frame)
    requires
        drawable(width as int, height as int),
    ensures
        frame@ == frame_of(nickname@, has_credential, width as int, height as int),
{
    let at = Rect { left: 0, top: height / ANCHOR_DIVISOR, right: width, bottom: height };
    Frame {
        width,
        height,
        background: rgb(0, 0, 0),
        style: TextStyle { font_height: FONT_HEIGHT, font_weight: FONT_WEIGHT, align: Align::Center },
        label: compose_label(nickname, has_credential, width as u32, height as u32),
        passes: compose_passes(at),
    }
}

/// Decides what a repaint does. The state is read once, so the frame shows
/// one consistent state.
pub fn plan_paint(state: &AppState, client: Rect) -> (plan: PaintPlan)
    ensures
        plan@ == paint_model(state@, client),
{
    if !state.overlay_enabled() {
        return PaintPlan::Defer;
    }
    let width = client.width();
    let height = client.height();
    if width < 0 || width >= i32::MAX as i64 || height < 0 || height >= i32::MAX as i64 {
        return PaintPlan::Empty;
    }
    let has_credential = !state.credential().is_empty();
    PaintPlan::Draw(compose_frame(state.nickname(), has_credential, width as i32, height as i32))
}

/// No line of the label is blank where nothing is set: the nickname and
/// the credential are each shown as a word of four letters, and a
/// credential that is set as a mask of eight stars.
pub proof fn lemma_placeholders(nickname: Seq<char>, has_credential: bool)
    ensures
        shown_nickname(nickname).len() > 0,
        shown_credential(has_credential).len() > 0,
        shown_nickname(Seq::empty()) == seq!['N', 'o', 'n', 'e'],
        shown_credential(false) == seq!['N', 'o', 'n', 'e'],
        shown_credential(true) == seq!['*', '*', '*', '*', '*', '*', '*', '*'],
{
    reveal_strlit("None");
    reveal_strlit("********");
    assert("None"@ =~= seq!['N', 'o', 'n', 'e']);
    assert("********"@ =~= seq!['*', '*', '*', '*', '*', '*', '*', '*']);
}

/// The credential reaches the frame only as the fact that one is set: two
/// states that differ in nothing but the credential, each having one or
/// each having none, are painted alike.
pub proof fn lemma_credential_is_masked(state: AppModel, other_credential: Seq<char>, client: Rect)
    requires
        (state.credential.len() > 0) == (other_credential.len() > 0),
    ensures
        paint_model(AppModel { credential: other_credential, ..state }, client) == paint_model(
            state,
            client,
        ),
{
}

/// The outline passes are the eight neighbours of the label's place, each
/// once: every pass is one pixel off in at least one direction and at most
/// one pixel off in each, and no two passes are the same.
pub proof fn lemma_outline_offsets()
    ensures
        forall|k: int|
            0 <= k < OUTLINE_PASSES ==> {
                let (dx, dy) = #[trigger] outline_offset(k);
                -1 <= dx <= 1 && -1 <= dy <= 1 && (dx != 0 || dy != 0)
            },
        forall|j: int, k: int|
            0 <= j < k < OUTLINE_PASSES ==> #[trigger] outline_offset(j) != #[trigger] outline_offset(
                k,
            ),
{
}

} // verus!
