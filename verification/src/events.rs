//! The events of the two windows, and what each one leads to.
//!
//! The caller turns each message of the window system into an event,
//! hands it in together with the shared state, and carries out the
//! reaction that comes back.

use crate::geometry::Rect;
use crate::render::{paint_model, plan_paint, PaintModel, PaintPlan};
use crate::state::{AppModel, AppState, SettingsRequest};
use vstd::prelude::*;

verus! {

/// The hotkey that toggles the overlay.
pub const HOTKEY_TOGGLE: i32 = 1;

/// The hotkey that opens the settings window.
pub const HOTKEY_SETTINGS: i32 = 2;

/// The control that confirms the settings.
pub const CONFIRM_CONTROL: usize = 101;

/// An event of the overlay window.
#[derive(Clone, Copy, Debug, PartialEq, Eq, Structural)]
pub enum OverlayEvent {
    /// A registered hotkey was pressed; the number is the one it was
    /// registered with.
    Hotkey(i32),
    /// The window is to be repainted; the rectangle is its client area.
    Paint(Rect),
    /// The window was destroyed.
    Destroyed,
    /// Any other message.
    Other,
}

/// What the caller does after an event of the overlay window.
#[derive(Debug, PartialEq, Eq)]
pub enum OverlayReaction {
    /// Show the overlay window, or hide it.
    SetShown(bool),
    /// Open the settings window as the request says.
    OpenSettings(SettingsRequest),
    /// Repaint as the plan says.
    Paint(PaintPlan),
    /// Ask the message loop to end.
    Quit,
    /// The event is dealt with; there is nothing to do.
    Nothing,
    /// Leave the message to the window system's default handling.
    Default,
}

/// A reaction as a mathematical value.
pub enum ReactionModel {
    SetShown(bool),
    OpenSettings(SettingsRequest),
    Paint(PaintModel),
    Quit,
    Nothing,
    Default,
}

impl View for OverlayReaction {
    type V = ReactionModel;

    open spec fn view(&self) -> ReactionModel {
        match self {
            OverlayReaction::SetShown(shown) => ReactionModel::SetShown(*shown),
            OverlayReaction::OpenSettings(request) => ReactionModel::OpenSettings(*request),
            OverlayReaction::Paint(plan) => ReactionModel::Paint(plan@),
            OverlayReaction::Quit => ReactionModel::Quit,
            OverlayReaction::Nothing => ReactionModel::Nothing,
            OverlayReaction::Default => ReactionModel::Default,
        }
    }
}

/// The state after an event of the overlay window.
pub open spec fn state_after(state: AppModel, event: OverlayEvent) -> AppModel {
    match event {
        OverlayEvent::Hotkey(id) if id == HOTKEY_TOGGLE => state.toggled(),
        OverlayEvent::Destroyed => state.stopped(),
        _ => state,
    }
}

/// The reaction to an event of the overlay window.
pub open spec fn reaction_to(state: AppModel, event: OverlayEvent) -> ReactionModel {
    match event {
        OverlayEvent::Hotkey(id) => if id == HOTKEY_TOGGLE {
            ReactionModel::SetShown(!state.overlay_enabled)
        } else if id == HOTKEY_SETTINGS {
            ReactionModel::OpenSettings(state.settings_request())
        } else {
            ReactionModel::Nothing
        },
        OverlayEvent::Paint(client) => ReactionModel::Paint(paint_model(state, client)),
        OverlayEvent::Destroyed => ReactionModel::Quit,
        OverlayEvent::Other => ReactionModel::Default,
    }
}

/// Handles an event of the overlay window: changes the state as the event
/// asks and says what the caller has to do.
pub fn on_overlay_event(state: &mut AppState, event: OverlayEvent) -> (reaction: OverlayReaction)
    ensures
        final(state)@ == state_after(old(state)@, event),
        reaction@ == reaction_to(old(state)@, event),
{
    match event {
        OverlayEvent::Hotkey(id) => {
            if id == HOTKEY_TOGGLE {
                OverlayReaction::SetShown(state.toggle_overlay())
            } else if id == HOTKEY_SETTINGS {
                OverlayReaction::OpenSettings(state.settings_request())
            } else {
                OverlayReaction::Nothing
            }
        },
        OverlayEvent::Paint(client) => OverlayReaction::Paint(plan_paint(state, client)),
        OverlayEvent::Destroyed => {
            state.stop();
            OverlayReaction::Quit
        },
        OverlayEvent::Other => OverlayReaction::Default,
    }
}

/// An event of the settings window.
#[derive(Clone, Copy, Debug, PartialEq, Eq, Structural)]
pub enum SettingsEvent {
    /// A control sent a command; the number is the message's first
    /// parameter, whose low word names the control.
    Command(usize),
    /// The user asked to close the window.
    Close,
    /// Any other message.
    Other,
}

/// What the caller does after an event of the settings window.
#[derive(Clone, Copy, Debug, PartialEq, Eq, Structural)]
pub enum SettingsReaction {
    /// Read both entry fields, hand their contents to
    /// `AppState::commit_fields`, and hide the window.
    Commit,
    /// Hide the window; it is not destroyed.
    Hide,
    /// The event is dealt with; there is nothing to do.
    Nothing,
    /// Leave the message to the window system's default handling.
    Default,
}

/// The control that a command's first parameter names: its low word.
pub open spec fn control_of(parameter: usize) -> int {
    parameter as int % 0x1_0000
}

/// The reaction to an event of the settings window.
pub open spec fn settings_reaction_to(event: SettingsEvent) -> SettingsReaction {
    match event {
        SettingsEvent::Command(parameter) => if control_of(parameter) == CONFIRM_CONTROL {
            SettingsReaction::Commit
        } else {
            SettingsReaction::Nothing
        },
        SettingsEvent::Close => SettingsReaction::Hide,
        SettingsEvent::Other => SettingsReaction::Default,
    }
}

/// Handles an event of the settings window.
pub fn on_settings_event(event: SettingsEvent) -> (reaction: SettingsReaction)
    ensures
        reaction == settings_reaction_to(event),
{
    match event {
        SettingsEvent::Command(parameter) => {
            assert(parameter & 0xffff == parameter % 0x1_0000) by (bit_vector);
            if parameter & 0xffff == CONFIRM_CONTROL {
                SettingsReaction::Commit
            } else {
                SettingsReaction::Nothing
            }
        },
        SettingsEvent::Close => SettingsReaction::Hide,
        SettingsEvent::Other => SettingsReaction::Default,
    }
}

/// The run flag never comes back: after any event of the overlay window
/// the state runs only if it ran before, and it stops exactly when the
/// window was destroyed.
pub proof fn lemma_running_only_falls(state: AppModel, event: OverlayEvent)
    ensures
        state_after(state, event).running ==> state.running,
        state_after(state, event).running == (state.running && event != OverlayEvent::Destroyed),
{
}

} // verus!
