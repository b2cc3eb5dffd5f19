//! The application's shared state: the run and enable flags, the texts the
//! user entered, and the settings window once it exists.
//!
//! One value of `AppState` lives for the whole run. The caller keeps it
//! behind one lock and hands it to every handler; nothing here is global.

use crate::text::{is_whitespace, lemma_trimmed_edges, trimmed};
use crate::utf16::{captured, field_text, lemma_field_text, read_field, utf16_len, utf16_lossy};
use vstd::prelude::*;

verus! {

/// The most code units a nickname holds.
pub const NICKNAME_LIMIT: usize = 63;

/// The most code units a credential holds.
pub const CREDENTIAL_LIMIT: usize = 127;

/// A window handle as the window system gives it. Zero is no window.
#[derive(Clone, Copy, Debug, PartialEq, Eq, Structural)]
pub struct Handle(pub isize);

impl Handle {
    /// This is the zero handle.
    pub open spec fn spec_is_null(self) -> bool {
        self.0 == 0
    }

    /// Whether this is the zero handle, which names no window.
    #[verifier::when_used_as_spec(spec_is_null)]
    pub fn is_null(self) -> (b: bool)
        ensures
            b == self.spec_is_null(),
    {
        self.0 == 0
    }
}

/// The settings window and its two entry fields.
#[derive(Clone, Copy, Debug, PartialEq, Eq, Structural)]
pub struct SettingsWindow {
    pub window: Handle,
    pub nickname_field: Handle,
    pub credential_field: Handle,
}

/// What has to happen for the settings window to be open.
#[derive(Clone, Copy, Debug, PartialEq, Eq, Structural)]
pub enum SettingsRequest {
    /// No settings window exists yet: create one, then hand it to
    /// `AppState::adopt_settings`.
    Create,
    /// The settings window exists: show it and bring it to the front.
    Reveal(SettingsWindow),
}

/// The state as a mathematical value.
pub struct AppModel {
    pub running: bool,
    pub overlay_enabled: bool,
    pub nickname: Seq<char>,
    pub credential: Seq<char>,
    pub settings: Option<SettingsWindow>,
}

impl AppModel {
    /// The state at startup: running, enabled, nothing entered, no
    /// settings window.
    pub open spec fn initial() -> AppModel {
        AppModel {
            running: true,
            overlay_enabled: true,
            nickname: Seq::empty(),
            credential: Seq::empty(),
            settings: None,
        }
    }

    /// Both texts are trimmed and within their limits, and a settings
    /// window that exists has a handle.
    pub open spec fn wf(self) -> bool {
        &&& utf16_len(self.nickname) <= NICKNAME_LIMIT
        &&& utf16_len(self.credential) <= CREDENTIAL_LIMIT
        &&& trimmed(self.nickname) == self.nickname
        &&& trimmed(self.credential) == self.credential
        &&& (self.settings matches Some(w) ==> !w.window.is_null())
    }

    /// The state after the toggle hotkey.
    pub open spec fn toggled(self) -> AppModel {
        AppModel { overlay_enabled: !self.overlay_enabled, ..self }
    }

    /// The state after the overlay window was destroyed.
    pub open spec fn stopped(self) -> AppModel {
        AppModel { running: false, ..self }
    }

    /// The state after the user confirmed the two entry fields, whose
    /// contents are given as code units.
    pub open spec fn committed(self, nickname: Seq<u16>, credential: Seq<u16>) -> AppModel {
        AppModel {
            nickname: field_text(nickname, NICKNAME_LIMIT as nat),
            credential: field_text(credential, CREDENTIAL_LIMIT as nat),
            ..self
        }
    }

    /// What opening the settings window asks for.
    pub open spec fn settings_request(self) -> SettingsRequest {
        match self.settings {
            Some(w) => SettingsRequest::Reveal(w),
            None => SettingsRequest::Create,
        }
    }

    /// The state after a settings window was created. A window that
    /// exists already stays; a window without a handle is not kept.
    pub open spec fn adopted(self, created: SettingsWindow) -> AppModel {
        if self.settings is None && !created.window.is_null() {
            AppModel { settings: Some(created), ..self }
        } else {
            self
        }
    }

    /// The state after the settings window was opened: the request was
    /// made and carried out, and `created` is what a `Create` request made
    /// the window system create.
    pub open spec fn opened(self, created: SettingsWindow) -> AppModel {
        match self.settings_request() {
            SettingsRequest::Create => self.adopted(created),
            SettingsRequest::Reveal(_) => self,
        }
    }
}

/// The shared state.
pub struct AppState {
    running: bool,
    overlay_enabled: bool,
    nickname: String,
    credential: String,
    settings: Option<SettingsWindow>,
}

impl View for AppState {
    type V = AppModel;

    closed spec fn view(&self) -> AppModel {
        AppModel {
            running: self.running,
            overlay_enabled: self.overlay_enabled,
            nickname: self.nickname@,
            credential: self.credential@,
            settings: self.settings,
        }
    }
}

impl Default for AppState {
    /// The state at startup.
    fn default() -> (state: AppState)
        ensures
            state@ == AppModel::initial(),
            state@.wf(),
    {
        AppState::new()
    }
}

impl AppState {
    #[verifier::type_invariant]
    spec fn inv(self) -> bool {
        self@.wf()
    }

    /// The state at startup.
    pub fn new() -> (state: AppState)
        ensures
            state@ == AppModel::initial(),
            state@.wf(),
    {
        AppState {
            running: true,
            overlay_enabled: true,
            nickname: String::new(),
            credential: String::new(),
            settings: None,
        }
    }

    /// True until the overlay window was destroyed.
    pub fn is_running(&self) -> (b: bool)
        ensures
            b == self@.running,
    {
        self.running
    }

    /// Whether the overlay draws and follows its target.
    pub fn overlay_enabled(&self) -> (b: bool)
        ensures
            b == self@.overlay_enabled,
    {
        self.overlay_enabled
    }

    /// The nickname; empty where none is set.
    pub fn nickname(&self) -> (text: &str)
        ensures
            text@ == self@.nickname,
            self@.wf(),
    {
        proof {
            use_type_invariant(self);
        }
        self.nickname.as_str()
    }

    /// The credential; empty where none is set.
    pub fn credential(&self) -> (text: &str)
        ensures
            text@ == self@.credential,
            self@.wf(),
    {
        proof {
            use_type_invariant(self);
        }
        self.credential.as_str()
    }

    /// The settings window, once it exists.
    pub fn settings(&self) -> (w: Option<SettingsWindow>)
        ensures
            w == self@.settings,
            self@.wf(),
    {
        proof {
            use_type_invariant(self);
        }
        self.settings
    }

    /// Flips the enable flag and returns its new value, which is also
    /// whether the overlay window is to be shown.
    pub fn toggle_overlay(&mut self) -> (enabled: bool)
        ensures
            final(self)@ == old(self)@.toggled(),
            final(self)@.wf(),
            enabled == final(self)@.overlay_enabled,
    {
        proof {
            use_type_invariant(&*self);
        }
        self.overlay_enabled = !self.overlay_enabled;
        self.overlay_enabled
    }

    /// Records that the overlay window was destroyed.
    pub fn stop(&mut self)
        ensures
            final(self)@ == old(self)@.stopped(),
            final(self)@.wf(),
    {
        proof {
            use_type_invariant(&*self);
        }
        self.running = false;
    }

    /// Takes over the contents of the two entry fields, given as code
    /// units: each is cut to its limit, decoded and trimmed.
    pub fn commit_fields(&mut self, nickname: &[u16], credential: &[u16])
        ensures
            final(self)@ == old(self)@.committed(nickname@, credential@),
            final(self)@.wf(),
    {
        proof {
            use_type_invariant(&*self);
        }
        let nickname_text = read_field(nickname, NICKNAME_LIMIT);
        let credential_text = read_field(credential, CREDENTIAL_LIMIT);
        self.nickname = nickname_text;
        self.credential = credential_text;
    }

    /// What has to happen for the settings window to be open. The state
    /// does not change.
    pub fn settings_request(&self) -> (request: SettingsRequest)
        ensures
            request == self@.settings_request(),
    {
        match self.settings {
            Some(w) => SettingsRequest::Reveal(w),
            None => SettingsRequest::Create,
        }
    }

    /// Records the settings window that was created on a `Create`
    /// request.
    pub fn adopt_settings(&mut self, created: SettingsWindow)
        ensures
            final(self)@ == old(self)@.adopted(created),
            final(self)@.wf(),
    {
        proof {
            use_type_invariant(&*self);
        }
        if self.settings.is_none() && !created.window.is_null() {
            self.settings = Some(created);
        }
    }
}

/// Every change of the state keeps it well formed.
pub proof fn lemma_wf_is_kept(
    state: AppModel,
    nickname: Seq<u16>,
    credential: Seq<u16>,
    created: SettingsWindow,
)
    requires
        state.wf(),
    ensures
        AppModel::initial().wf(),
        state.toggled().wf(),
        state.stopped().wf(),
        state.committed(nickname, credential).wf(),
        state.adopted(created).wf(),
        state.opened(created).wf(),
{
    lemma_field_text(nickname, NICKNAME_LIMIT as nat);
    lemma_field_text(credential, CREDENTIAL_LIMIT as nat);
}

/// Opening the settings window twice in a row creates at most one window.
/// Once a window exists, by an earlier opening or because the first
/// opening created one, the second opening asks only to reveal that
/// window, keeps it, and leaves the state as it is.
pub proof fn lemma_open_twice(state: AppModel, first: SettingsWindow, second: SettingsWindow)
    requires
        state.settings is Some || !first.window.is_null(),
    ensures
        state.opened(first).settings is Some,
        state.opened(first).settings == (if state.settings is Some {
            state.settings
        } else {
            Some(first)
        }),
        state.opened(first).settings_request() == SettingsRequest::Reveal(
            state.opened(first).settings->0,
        ),
        state.opened(first).opened(second) == state.opened(first),
{
}

/// What was confirmed is what is read afterwards: each text is the entry
/// field's content, cut to the field's limit, decoded and trimmed, so that
/// it has no whitespace at either end. Content within the limit is taken
/// whole. Nothing else in the state changes.
pub proof fn lemma_commit_round_trip(state: AppModel, nickname: Seq<u16>, credential: Seq<u16>)
    ensures
        ({
            let after = state.committed(nickname, credential);
            &&& after.nickname == trimmed(utf16_lossy(captured(nickname, NICKNAME_LIMIT as nat)))
            &&& after.credential == trimmed(
                utf16_lossy(captured(credential, CREDENTIAL_LIMIT as nat)),
            )
            &&& nickname.len() <= NICKNAME_LIMIT ==> after.nickname == trimmed(
                utf16_lossy(nickname),
            )
            &&& credential.len() <= CREDENTIAL_LIMIT ==> after.credential == trimmed(
                utf16_lossy(credential),
            )
            &&& after.nickname.len() > 0 ==> !is_whitespace(after.nickname.first())
                && !is_whitespace(after.nickname.last())
            &&& after.credential.len() > 0 ==> !is_whitespace(after.credential.first())
                && !is_whitespace(after.credential.last())
            &&& after.overlay_enabled == state.overlay_enabled
            &&& after.running == state.running
            &&& after.settings == state.settings
        }),
{
    lemma_trimmed_edges(utf16_lossy(captured(nickname, NICKNAME_LIMIT as nat)));
    lemma_trimmed_edges(utf16_lossy(captured(credential, CREDENTIAL_LIMIT as nat)));
}

} // verus!
