//! The overlay as a whole: the shared state, the overlay window, and the
//! steps that change them.
//!
//! Nothing here runs. The module puts the decisions of the other modules
//! together into one state machine and states what holds of every state
//! that the machine can reach.

use crate::events::{reaction_to, state_after, OverlayEvent, ReactionModel, HOTKEY_TOGGLE};
use crate::geometry::Rect;
use crate::render::{paint_model, PaintModel};
use crate::state::{AppModel, SettingsWindow, CREDENTIAL_LIMIT, NICKNAME_LIMIT};
use crate::sync::{followable, lemma_after, placement_of, tick_action, tick_start, Overlay,
    Placement, TargetStatus, TickAction, TickStart};
use crate::utf16::lemma_field_text;
use vstd::prelude::*;

verus! {

/// The shared state together with the overlay window.
pub struct System {
    pub state: AppModel,
    pub overlay: Overlay,
}

/// One step of the system.
pub enum Step {
    /// An event of the overlay window, with its reaction carried out.
    Overlay(OverlayEvent),
    /// The settings window was created, on a request to create it.
    SettingsCreated(SettingsWindow),
    /// The user confirmed the entry fields, which held these code units.
    Confirmed { nickname: Seq<u16>, credential: Seq<u16> },
    /// A tick; `found` is the status of the target window, if there is one.
    Tick { found: Option<TargetStatus> },
}

impl System {
    /// The system at startup: the state as it starts, and the overlay
    /// window shown where it was created.
    pub open spec fn initial() -> System {
        System {
            state: AppModel::initial(),
            overlay: Overlay { shown: true, placement: Placement { x: 0, y: 0, width: 100, height: 100 } },
        }
    }

    /// The system after one step.
    pub open spec fn next(self, step: Step) -> System {
        match step {
            Step::Overlay(event) => System {
                state: state_after(self.state, event),
                overlay: match reaction_to(self.state, event) {
                    ReactionModel::SetShown(shown) => self.overlay.after_toggle(shown),
                    _ => self.overlay,
                },
            },
            Step::SettingsCreated(created) => System {
                state: self.state.adopted(created),
                ..self
            },
            Step::Confirmed { nickname, credential } => System {
                state: self.state.committed(nickname, credential),
                ..self
            },
            Step::Tick { found } => System {
                overlay: self.overlay.after(tick_action(self.state.overlay_enabled, found)),
                ..self
            },
        }
    }

    /// The system after a series of steps.
    pub open spec fn run(self, steps: Seq<Step>) -> System
        decreases steps.len(),
    {
        if steps.len() == 0 {
            self
        } else {
            self.run(steps.drop_last()).next(steps.last())
        }
    }

    /// The state is well formed, and a disabled overlay is hidden.
    pub open spec fn consistent(self) -> bool {
        self.state.wf() && (!self.state.overlay_enabled ==> !self.overlay.shown)
    }
}

/// The system starts consistent, and every step keeps it so.
pub proof fn lemma_step_keeps_consistent(system: System, step: Step)
    requires
        system.consistent(),
    ensures
        System::initial().consistent(),
        system.next(step).consistent(),
{
    match step {
        Step::Confirmed { nickname, credential } => {
            lemma_field_text(nickname, NICKNAME_LIMIT as nat);
            lemma_field_text(credential, CREDENTIAL_LIMIT as nat);
        },
        Step::Tick { found } => {
            lemma_after(system.overlay, tick_action(system.state.overlay_enabled, found));
        },
        _ => {},
    }
}

/// Every state that the system reaches from its start is consistent: the
/// texts are trimmed and within their limits, and the overlay is hidden
/// whenever it is disabled.
pub proof fn lemma_reachable_is_consistent(steps: Seq<Step>)
    ensures
        System::initial().run(steps).consistent(),
    decreases steps.len(),
{
    if steps.len() == 0 {
        lemma_step_keeps_consistent(System::initial(), Step::Tick { found: None });
    } else {
        lemma_reachable_is_consistent(steps.drop_last());
        lemma_step_keeps_consistent(System::initial().run(steps.drop_last()), steps.last());
    }
}

/// After a tick the overlay is shown exactly when it is enabled and its
/// target can be followed, and then it covers the target's rectangle
/// edge for edge. So a minimized target leaves the overlay hidden,
/// whatever rectangle is reported for it, and so does a rectangle without
/// width or height; and a disabled overlay stays hidden and unmoved.
pub proof fn lemma_after_tick(system: System, found: Option<TargetStatus>)
    requires
        system.consistent(),
    ensures
        ({
            let after = system.next(Step::Tick { found });
            let follows = system.state.overlay_enabled && found is Some && followable(found->0);
            &&& after.state == system.state
            &&& after.overlay.shown == follows
            &&& follows ==> after.overlay.placement == placement_of(found->0.rect)
            &&& !system.state.overlay_enabled ==> after.overlay == system.overlay
            &&& found is Some && found->0.minimized ==> !after.overlay.shown
            &&& found is Some && !found->0.rect.spec_has_area() ==> !after.overlay.shown
            &&& found is None ==> !after.overlay.shown
        }),
{
    lemma_after(system.overlay, tick_action(system.state.overlay_enabled, found));
}

/// Disabling the overlay hides it and suppresses both the tick and the
/// drawing: the next tick begins idle and leaves the overlay as it is, and
/// a repaint draws nothing. Enabling it again changes nothing else in the
/// state and brings both back at once: the next repaint draws what it drew
/// before, and the next tick puts the overlay on its target.
pub proof fn lemma_toggle_suppresses_and_resumes(
    system: System,
    found: Option<TargetStatus>,
    client: Rect,
)
    requires
        system.consistent(),
        system.state.overlay_enabled,
    ensures
        ({
            let toggle = Step::Overlay(OverlayEvent::Hotkey(HOTKEY_TOGGLE));
            let off = system.next(toggle);
            let idle = off.next(Step::Tick { found });
            let on = idle.next(toggle);
            let resumed = on.next(Step::Tick { found });
            let follows = found is Some && followable(found->0);
            &&& !off.state.overlay_enabled
            &&& !off.overlay.shown
            &&& tick_start(off.state) == TickStart::Idle
            &&& tick_action(off.state.overlay_enabled, found) == TickAction::Idle
            &&& idle == off
            &&& paint_model(off.state, client) == PaintModel::Defer
            &&& on.state == system.state
            &&& tick_start(on.state) == TickStart::Locate
            &&& paint_model(on.state, client) == paint_model(system.state, client)
            &&& paint_model(on.state, client) != PaintModel::Defer
            &&& resumed.overlay.shown == follows
            &&& follows ==> resumed.overlay.placement == placement_of(found->0.rect)
        }),
{
    let toggle = Step::Overlay(OverlayEvent::Hotkey(HOTKEY_TOGGLE));
    let off = system.next(toggle);
    lemma_after(off.overlay, TickAction::Idle);
    let on = off.next(Step::Tick { found }).next(toggle);
    lemma_after(on.overlay, tick_action(true, found));
}

/// The run flag only falls: after any series of steps the system runs only
/// if it ran before, and no step after the overlay window was destroyed
/// sets it running again.
pub proof fn lemma_stopped_stays_stopped(system: System, steps: Seq<Step>)
    ensures
        system.run(steps).state.running ==> system.state.running,
    decreases steps.len(),
{
    if steps.len() > 0 {
        lemma_stopped_stays_stopped(system, steps.drop_last());
    }
}

/// A settings window, once it exists, is the settings window for good: no
/// series of steps replaces or removes it, so that at most one is ever
/// kept.
pub proof fn lemma_settings_window_is_kept(system: System, steps: Seq<Step>)
    requires
        system.state.settings is Some,
    ensures
        system.run(steps).state.settings == system.state.settings,
    decreases steps.len(),
{
    if steps.len() > 0 {
        lemma_settings_window_is_kept(system, steps.drop_last());
    }
}

/// The texts change only when the entry fields are confirmed: every other
/// step leaves the nickname and the credential as they are.
pub proof fn lemma_texts_change_on_confirmation_only(system: System, step: Step)
    ensures
        !(step is Confirmed) ==> system.next(step).state.nickname == system.state.nickname
            && system.next(step).state.credential == system.state.credential,
{
}

} // verus!
