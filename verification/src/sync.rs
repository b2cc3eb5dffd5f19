//! The tick: once per interval the overlay is brought in line with the
//! target window.
//!
//! A tick reads the enable flag once. While the overlay is disabled the
//! tick does nothing. While it is enabled, the overlay follows a target
//! that is visible, not minimized and has an area, and hides otherwise.
//! The overlay snaps to the target's rectangle; nothing is smoothed.

use crate::geometry::Rect;
use crate::state::{AppModel, AppState};
use vstd::prelude::*;

verus! {

/// The pause between two ticks, in milliseconds.
pub const TICK_MILLIS: u32 = 16;

/// What the window system reports of the target window.
#[derive(Clone, Copy, Debug, PartialEq, Eq, Structural)]
pub struct TargetStatus {
    pub rect: Rect,
    pub visible: bool,
    pub minimized: bool,
}

/// A position and a size on the screen. The extents are never zero where
/// a tick hands one out.
#[derive(Clone, Copy, Debug, PartialEq, Eq, Structural)]
pub struct Placement {
    pub x: i32,
    pub y: i32,
    pub width: u32,
    pub height: u32,
}

impl Placement {
    /// An extent as the window system takes it: a signed number, so that an
    /// extent beyond the largest of these is given as the largest.
    pub open spec fn native(extent: u32) -> int {
        if extent <= i32::MAX {
            extent as int
        } else {
            i32::MAX as int
        }
    }

    /// The width as the window system takes it.
    pub fn native_width(self) -> (w: i32)
        ensures
            w == Self::native(self.width),
    {
        if self.width <= i32::MAX as u32 {
            self.width as i32
        } else {
            i32::MAX
        }
    }

    /// The height as the window system takes it.
    pub fn native_height(self) -> (h: i32)
        ensures
            h == Self::native(self.height),
    {
        if self.height <= i32::MAX as u32 {
            self.height as i32
        } else {
            i32::MAX
        }
    }
}

/// How a tick begins.
#[derive(Clone, Copy, Debug, PartialEq, Eq, Structural)]
pub enum TickStart {
    /// The overlay is disabled: the tick is over.
    Idle,
    /// Look for the target window, then call `reconcile`.
    Locate,
}

/// What a tick does to the overlay window.
#[derive(Clone, Copy, Debug, PartialEq, Eq, Structural)]
pub enum TickAction {
    /// Leave the overlay as it is.
    Idle,
    /// Hide the overlay. Hiding a hidden window changes nothing.
    Hide,
    /// Show the overlay without activating it, move and resize it to the
    /// placement, and invalidate all of it.
    Follow(Placement),
}

/// One call on the overlay window.
#[derive(Clone, Copy, Debug, PartialEq, Eq, Structural)]
pub enum WindowCommand {
    /// Hide the window.
    Hide,
    /// Show the window without activating it, so that it takes no focus.
    ShowInactive,
    /// Move and resize the window to the placement, and repaint it.
    MoveTo(Placement),
    /// Invalidate the whole window, background included, so that the next
    /// repaint draws all of it anew.
    InvalidateAll,
}

impl TickAction {
    /// The calls that carry the action out, in the order to make them.
    pub open spec fn spec_commands(self) -> Seq<WindowCommand> {
        match self {
            TickAction::Idle => seq![],
            TickAction::Hide => seq![WindowCommand::Hide],
            TickAction::Follow(placement) => seq![
                WindowCommand::ShowInactive,
                WindowCommand::MoveTo(placement),
                WindowCommand::InvalidateAll,
            ],
        }
    }

    /// The calls that carry the action out, in the order to make them.
    pub fn commands(self) -> (commands: Vec<WindowCommand>)
        ensures
            commands@ == self.spec_commands(),
    {
        let mut commands: Vec<WindowCommand> = Vec::new();
        match self {
            TickAction::Idle => {},
            TickAction::Hide => {
                commands.push(WindowCommand::Hide);
            },
            TickAction::Follow(placement) => {
                commands.push(WindowCommand::ShowInactive);
                commands.push(WindowCommand::MoveTo(placement));
                commands.push(WindowCommand::InvalidateAll);
            },
        }
        assert(commands@ =~= self.spec_commands());
        commands
    }
}

/// The overlay can follow this target: it is visible, not minimized, and
/// its rectangle has an area. A minimized target is never followed,
/// whatever its rectangle.
pub open spec fn followable(target: TargetStatus) -> bool {
    target.visible && !target.minimized && target.rect.spec_has_area()
}

/// The placement that covers `rect` exactly.
pub open spec fn placement_of(rect: Rect) -> Placement
    recommends
        rect.spec_has_area(),
{
    Placement {
        x: rect.left,
        y: rect.top,
        width: rect.spec_width() as u32,
        height: rect.spec_height() as u32,
    }
}

/// What an enabled overlay does, given what was found of the target.
pub open spec fn reconciled(found: Option<TargetStatus>) -> TickAction {
    match found {
        Some(target) if followable(target) => TickAction::Follow(placement_of(target.rect)),
        _ => TickAction::Hide,
    }
}

/// What a whole tick does.
pub open spec fn tick_action(enabled: bool, found: Option<TargetStatus>) -> TickAction {
    if enabled {
        reconciled(found)
    } else {
        TickAction::Idle
    }
}

/// How a tick begins in the given state.
pub open spec fn tick_start(state: AppModel) -> TickStart {
    if state.overlay_enabled {
        TickStart::Locate
    } else {
        TickStart::Idle
    }
}

/// Begins a tick: reads the enable flag, once.
pub fn begin_tick(state: &AppState) -> (start: TickStart)
    ensures
        start == tick_start(state@),
{
    if state.overlay_enabled() {
        TickStart::Locate
    } else {
        TickStart::Idle
    }
}

/// Decides what the enabled overlay does: `found` is the target's status,
/// or `None` where no window is the target.
pub fn reconcile(found: Option<TargetStatus>) -> (action: TickAction)
    ensures
        action == reconciled(found),
{
    match found {
        Some(target) => {
            if target.visible && !target.minimized && target.rect.has_area() {
                let rect = target.rect;
                TickAction::Follow(
                    Placement {
                        x: rect.left,
                        y: rect.top,
                        width: rect.width() as u32,
                        height: rect.height() as u32,
                    },
                )
            } else {
                TickAction::Hide
            }
        },
        None => TickAction::Hide,
    }
}

/// Decides what a whole tick does.
pub fn plan_tick(enabled: bool, found: Option<TargetStatus>) -> (action: TickAction)
    ensures
        action == tick_action(enabled, found),
{
    if enabled {
        reconcile(found)
    } else {
        TickAction::Idle
    }
}

/// The overlay window as the calls on it leave it.
pub struct Overlay {
    pub shown: bool,
    pub placement: Placement,
}

impl Overlay {
    /// The overlay after one call.
    pub open spec fn after_command(self, command: WindowCommand) -> Overlay {
        match command {
            WindowCommand::Hide => Overlay { shown: false, ..self },
            WindowCommand::ShowInactive => Overlay { shown: true, ..self },
            WindowCommand::MoveTo(placement) => Overlay { placement, ..self },
            WindowCommand::InvalidateAll => self,
        }
    }

    /// The overlay after a series of calls.
    pub open spec fn after_commands(self, commands: Seq<WindowCommand>) -> Overlay
        decreases commands.len(),
    {
        if commands.len() == 0 {
            self
        } else {
            self.after_command(commands.first()).after_commands(commands.drop_first())
        }
    }

    /// The overlay after a tick's action.
    pub open spec fn after(self, action: TickAction) -> Overlay {
        self.after_commands(action.spec_commands())
    }

    /// The overlay after the toggle hotkey set the enable flag to
    /// `enabled`: the toggle shows or hides the window at once.
    pub open spec fn after_toggle(self, enabled: bool) -> Overlay {
        Overlay { shown: enabled, ..self }
    }
}

/// What each action leaves of the overlay: nothing changes when idle, the
/// window is hidden where it was on a hide, and it is shown at the
/// placement on a follow.
pub proof fn lemma_after(before: Overlay, action: TickAction)
    ensures
        before.after(action) == (match action {
            TickAction::Idle => before,
            TickAction::Hide => Overlay { shown: false, ..before },
            TickAction::Follow(placement) => Overlay { shown: true, placement },
        }),
{
    reveal_with_fuel(Overlay::after_commands, 4);
    match action {
        TickAction::Idle => {},
        TickAction::Hide => {
            let commands = action.spec_commands();
            assert(commands.drop_first() =~= Seq::<WindowCommand>::empty());
        },
        TickAction::Follow(placement) => {
            let commands = action.spec_commands();
            assert(commands.drop_first() =~= seq![
                WindowCommand::MoveTo(placement),
                WindowCommand::InvalidateAll,
            ]);
            assert(commands.drop_first().drop_first() =~= seq![WindowCommand::InvalidateAll]);
            assert(commands.drop_first().drop_first().drop_first() =~= Seq::<
                WindowCommand,
            >::empty());
        },
    }
}

/// A minimized target hides the enabled overlay, whatever rectangle is
/// reported for it and whether or not it counts as visible.
pub proof fn lemma_minimized_hides(rect: Rect, visible: bool)
    ensures
        reconciled(Some(TargetStatus { rect, visible, minimized: true })) == TickAction::Hide,
{
}

/// A target whose rectangle has no width or no height hides the enabled
/// overlay, and a tick never hands out a placement without an area.
pub proof fn lemma_degenerate_hides(enabled: bool, found: Option<TargetStatus>)
    ensures
        found matches Some(target) && !target.rect.spec_has_area() ==> reconciled(found)
            == TickAction::Hide,
        tick_action(enabled, found) matches TickAction::Follow(p) ==> p.width > 0 && p.height > 0,
{
}

/// Where a tick follows the target, the placement is the target's
/// rectangle, edge for edge.
pub proof fn lemma_follow_is_exact(enabled: bool, found: Option<TargetStatus>)
    ensures
        tick_action(enabled, found) matches TickAction::Follow(p) ==> {
            &&& enabled
            &&& found matches Some(target)
            &&& followable(target)
            &&& p.x == target.rect.left
            &&& p.y == target.rect.top
            &&& p.x + p.width == target.rect.right
            &&& p.y + p.height == target.rect.bottom
        },
{
}

} // verus!
