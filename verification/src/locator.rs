//! Finding the target window among the top-level windows.
//!
//! A window is the target when it passes four checks, taken in this order
//! so that the cheapest comes first: it is visible; its class name is the
//! target's; it has no owner; and the path of its process's image ends
//! with the target's file name, whatever the case of the letters. The
//! first window that passes is the target.
//!
//! The caller asks the window system one question at a time and reports
//! each answer to a `Stage`, which says what to ask next, so that nothing
//! is asked of a window that has already failed.

use crate::state::Handle;
use crate::text::{ends_with, has_suffix, lowercase, lowercase_of, same_text};
use crate::utf16::{decode_utf16, is_plain, lemma_utf16_lossy_exact, plain_units, utf16_lossy};
use vstd::prelude::*;

verus! {

/// The class name of the target's window.
pub open spec fn target_class() -> Seq<char> {
    "MapleStoryClass"@
}

/// The file name of the target's image, in lower case.
pub open spec fn target_image() -> Seq<char> {
    "maplestory.exe"@
}

/// A class name, given as code units, is the target's.
pub open spec fn class_matches(name: Seq<u16>) -> bool {
    utf16_lossy(name) == target_class()
}

/// An image path, given as code units, ends with the target's file name
/// once it is put in lower case.
pub open spec fn image_matches(path: Seq<u16>) -> bool {
    has_suffix(lowercase_of(utf16_lossy(path)), target_image())
}

/// Whether `name` is exactly the target's class name.
pub fn is_target_class(name: &str) -> (b: bool)
    ensures
        b == (name@ == target_class()),
{
    same_text(name, "MapleStoryClass")
}

/// Whether `lowered`, an image path already in lower case, ends with the
/// target's file name.
pub fn is_target_image(lowered: &str) -> (b: bool)
    ensures
        b == has_suffix(lowered@, target_image()),
{
    ends_with(lowered, "maplestory.exe")
}

/// Whether the class name that `name` encodes is the target's.
pub fn class_units_match(name: &[u16]) -> (b: bool)
    ensures
        b == class_matches(name@),
{
    let text = decode_utf16(name);
    is_target_class(text.as_str())
}

/// Whether the image path that `path` encodes names the target's image.
pub fn image_units_match(path: &[u16]) -> (b: bool)
    ensures
        b == image_matches(path@),
{
    let text = decode_utf16(path);
    let lowered = lowercase(text.as_str());
    is_target_image(lowered.as_str())
}

/// How far the examination of one window has come. The first four say
/// what to ask of the window next; the last two are final.
#[derive(Clone, Copy, Debug, PartialEq, Eq, Structural)]
pub enum Stage {
    /// Ask whether the window is visible.
    Visibility,
    /// Ask for the window's class name.
    ClassName,
    /// Ask for the window's owner.
    Ownership,
    /// Ask for the path of the image of the window's process.
    ProcessImage,
    /// The window is not the target.
    Rejected,
    /// The window is the target.
    Accepted,
}

impl Stage {
    /// The stage after the answer on visibility.
    pub open spec fn spec_on_visibility(self, visible: bool) -> Stage {
        if self == Stage::Visibility && visible {
            Stage::ClassName
        } else {
            Stage::Rejected
        }
    }

    /// The stage after the answer on the class name.
    pub open spec fn spec_on_class_name(self, name: Seq<u16>) -> Stage {
        if self == Stage::ClassName && class_matches(name) {
            Stage::Ownership
        } else {
            Stage::Rejected
        }
    }

    /// The stage after the answer on the owner.
    pub open spec fn spec_on_owner(self, owner: Handle) -> Stage {
        if self == Stage::Ownership && owner.is_null() {
            Stage::ProcessImage
        } else {
            Stage::Rejected
        }
    }

    /// The stage after the answer on the process image.
    pub open spec fn spec_on_process_image(self, path: Option<Seq<u16>>) -> Stage {
        if self == Stage::ProcessImage && path is Some && image_matches(path->0) {
            Stage::Accepted
        } else {
            Stage::Rejected
        }
    }

    /// The examination is over.
    pub open spec fn spec_is_final(self) -> bool {
        self == Stage::Rejected || self == Stage::Accepted
    }

    /// The stage at which every window starts.
    pub fn start() -> (stage: Stage)
        ensures
            stage == Stage::Visibility,
    {
        Stage::Visibility
    }

    /// Whether the examination is over.
    #[verifier::when_used_as_spec(spec_is_final)]
    pub fn is_final(self) -> (b: bool)
        ensures
            b == self.spec_is_final(),
    {
        match self {
            Stage::Rejected | Stage::Accepted => true,
            _ => false,
        }
    }

    /// Takes the answer on visibility. An invisible window is rejected, and
    /// so is a window of which this was not the question to ask.
    pub fn on_visibility(self, visible: bool) -> (next: Stage)
        ensures
            next == self.spec_on_visibility(visible),
    {
        match self {
            Stage::Visibility => if visible {
                Stage::ClassName
            } else {
                Stage::Rejected
            },
            _ => Stage::Rejected,
        }
    }

    /// Takes the window's class name, as code units. A window of another
    /// class is rejected.
    pub fn on_class_name(self, name: &[u16]) -> (next: Stage)
        ensures
            next == self.spec_on_class_name(name@),
    {
        match self {
            Stage::ClassName => if class_units_match(name) {
                Stage::Ownership
            } else {
                Stage::Rejected
            },
            _ => Stage::Rejected,
        }
    }

    /// Takes the window's owner; the zero handle where it has none. An
    /// owned window is rejected, whatever its class.
    pub fn on_owner(self, owner: Handle) -> (next: Stage)
        ensures
            next == self.spec_on_owner(owner),
    {
        match self {
            Stage::Ownership => if owner.is_null() {
                Stage::ProcessImage
            } else {
                Stage::Rejected
            },
            _ => Stage::Rejected,
        }
    }

    /// Takes the path of the process image, as code units; `None` where the
    /// process could not be opened or would not give its path, which
    /// rejects the window like a path that does not match.
    pub fn on_process_image(self, path: Option<&[u16]>) -> (next: Stage)
        ensures
            next == self.spec_on_process_image(
                match path {
                    Some(units) => Some(units@),
                    None => None,
                },
            ),
    {
        match self {
            Stage::ProcessImage => match path {
                Some(units) => if image_units_match(units) {
                    Stage::Accepted
                } else {
                    Stage::Rejected
                },
                None => Stage::Rejected,
            },
            _ => Stage::Rejected,
        }
    }
}

/// All that the four checks read of one window.
#[derive(Debug, PartialEq, Eq)]
pub struct WindowFacts {
    pub handle: Handle,
    pub visible: bool,
    pub class_name: Vec<u16>,
    /// The window's owner; the zero handle where it has none.
    pub owner: Handle,
    /// The path of the process image; `None` where it could not be had.
    pub image_path: Option<Vec<u16>>,
}

impl WindowFacts {
    /// The image path as a sequence of code units.
    pub open spec fn image_units(self) -> Option<Seq<u16>> {
        match self.image_path {
            Some(path) => Some(path@),
            None => None,
        }
    }

    /// The window passes all four checks.
    pub open spec fn is_target(self) -> bool {
        &&& self.visible
        &&& class_matches(self.class_name@)
        &&& self.owner.is_null()
        &&& self.image_path matches Some(path) && image_matches(path@)
    }

    /// The stage that the four answers, given in order, lead to.
    pub open spec fn examined(self) -> Stage {
        Stage::Visibility.spec_on_visibility(self.visible).spec_on_class_name(
            self.class_name@,
        ).spec_on_owner(self.owner).spec_on_process_image(self.image_units())
    }

    /// Examines the window, stage by stage, and stops at the first check
    /// that fails.
    pub fn examine(&self) -> (stage: Stage)
        ensures
            stage == self.examined(),
            stage.is_final(),
            stage == Stage::Accepted <==> self.is_target(),
    {
        let mut stage = Stage::start().on_visibility(self.visible);
        if stage.is_final() {
            return stage;
        }
        stage = stage.on_class_name(self.class_name.as_slice());
        if stage.is_final() {
            return stage;
        }
        stage = stage.on_owner(self.owner);
        if stage.is_final() {
            return stage;
        }
        match &self.image_path {
            Some(path) => stage.on_process_image(Some(path.as_slice())),
            None => stage.on_process_image(None),
        }
    }
}

/// The handle of the first target among `windows`, if there is one.
pub open spec fn first_target(windows: Seq<WindowFacts>) -> Option<Handle>
    decreases windows.len(),
{
    if windows.len() == 0 {
        None
    } else if windows.first().is_target() {
        Some(windows.first().handle)
    } else {
        first_target(windows.drop_first())
    }
}

/// A walk through the top-level windows that keeps the first target it
/// meets.
#[derive(Clone, Copy, Debug, PartialEq, Eq, Structural)]
pub struct Search {
    pub found: Option<Handle>,
}

impl Search {
    /// The search after the window `window` was examined with the result
    /// `stage`: the first accepted window stays.
    pub open spec fn spec_after(self, window: Handle, stage: Stage) -> Search {
        if self.found is None && stage == Stage::Accepted {
            Search { found: Some(window) }
        } else {
            self
        }
    }

    /// A search that has met no window yet.
    pub fn new() -> (search: Search)
        ensures
            search.found is None,
    {
        Search { found: None }
    }

    /// Records the result of examining `window`, and says whether the walk
    /// is to go on: it ends with the first target.
    pub fn record(&mut self, window: Handle, stage: Stage) -> (go_on: bool)
        ensures
            *final(self) == old(self).spec_after(window, stage),
            go_on == (final(self).found is None),
    {
        if self.found.is_none() {
            match stage {
                Stage::Accepted => {
                    self.found = Some(window);
                },
                _ => {},
            }
        }
        self.found.is_none()
    }
}

/// The target among `windows`: the first window, in the order given, that
/// passes all four checks; `None` where no window does.
pub fn locate(windows: &Vec<WindowFacts>) -> (found: Option<Handle>)
    ensures
        found == first_target(windows@),
{
    let mut search = Search::new();
    let mut i: usize = 0;
    assert(windows@.subrange(0, windows.len() as int) =~= windows@);
    while i < windows.len()
        invariant
            i <= windows.len(),
            search.found is None,
            first_target(windows@) == first_target(windows@.subrange(i as int, windows.len() as int)),
        decreases windows.len() - i,
    {
        let window = &windows[i];
        let stage = window.examine();
        let go_on = search.record(window.handle, stage);
        proof {
            let rest = windows@.subrange(i as int, windows.len() as int);
            assert(rest.first() == windows@[i as int]);
            assert(rest.drop_first() =~= windows@.subrange(i as int + 1, windows.len() as int));
        }
        if !go_on {
            return search.found;
        }
        i = i + 1;
    }
    search.found
}

/// `locate` names a window only if that window is visible, has exactly the
/// target's class name, has no owner, and runs from an image whose path
/// ends with the target's file name once in lower case; and it names the
/// first such window. Where it names none, no window passes all four.
pub proof fn lemma_first_target(windows: Seq<WindowFacts>)
    ensures
        match first_target(windows) {
            Some(handle) => exists|i: int|
                {
                    &&& 0 <= i < windows.len()
                    &&& #[trigger] windows[i].handle == handle
                    &&& windows[i].visible
                    &&& utf16_lossy(windows[i].class_name@) == target_class()
                    &&& windows[i].owner.is_null()
                    &&& windows[i].image_path is Some
                    &&& has_suffix(
                        lowercase_of(utf16_lossy(windows[i].image_path->0@)),
                        target_image(),
                    )
                    &&& forall|j: int| 0 <= j < i ==> !#[trigger] windows[j].is_target()
                },
            None => forall|i: int| 0 <= i < windows.len() ==> !#[trigger] windows[i].is_target(),
        },
    decreases windows.len(),
{
    if windows.len() == 0 {
    } else if windows.first().is_target() {
        assert(windows[0].handle == first_target(windows)->0);
    } else {
        let rest = windows.drop_first();
        lemma_first_target(rest);
        match first_target(rest) {
            Some(handle) => {
                let i = choose|i: int|
                    {
                        &&& 0 <= i < rest.len()
                        &&& #[trigger] rest[i].handle == handle
                        &&& rest[i].is_target()
                        &&& forall|j: int| 0 <= j < i ==> !#[trigger] rest[j].is_target()
                    };
                assert(windows[i + 1] == rest[i]);
                assert forall|j: int| 0 <= j < i + 1 implies !#[trigger] windows[j].is_target() by {
                    if j > 0 {
                        assert(windows[j] == rest[j - 1]);
                    }
                }
                assert(windows[i + 1].handle == handle);
            },
            None => {
                assert forall|i: int| 0 <= i < windows.len() implies !#[trigger] windows[
                    i
                ].is_target() by {
                    if i > 0 {
                        assert(windows[i] == rest[i - 1]);
                    }
                }
            },
        }
    }
}

/// The class name matches exactly: of all series of code units only one
/// is taken for the target's class name, the one that spells it letter by
/// letter. No other case, no longer or shorter name and no damaged text
/// passes.
pub proof fn lemma_class_matches_exactly(name: Seq<u16>)
    ensures
        class_matches(name) <==> name == plain_units(target_class()),
        target_class().len() == 15,
{
    reveal_strlit("MapleStoryClass");
    assert(is_plain(target_class()));
    lemma_utf16_lossy_exact(name, target_class());
}

/// A window is accepted exactly when it passes all four checks; a window
/// that fails one is rejected, whatever the later answers are.
pub proof fn lemma_examined(window: WindowFacts)
    ensures
        window.examined() == Stage::Accepted <==> window.is_target(),
        window.examined() == Stage::Accepted || window.examined() == Stage::Rejected,
{
}

/// A window is accepted in one way only: by a matching image path, given
/// at the stage that asks for it. No other answer accepts, at any stage,
/// and a rejected window stays rejected whatever is answered.
pub proof fn lemma_acceptance(
    stage: Stage,
    visible: bool,
    name: Seq<u16>,
    owner: Handle,
    path: Option<Seq<u16>>,
)
    ensures
        stage.spec_on_visibility(visible) != Stage::Accepted,
        stage.spec_on_class_name(name) != Stage::Accepted,
        stage.spec_on_owner(owner) != Stage::Accepted,
        stage.spec_on_process_image(path) == Stage::Accepted <==> stage == Stage::ProcessImage
            && path is Some && image_matches(path->0),
        Stage::Rejected.spec_on_visibility(visible) == Stage::Rejected,
        Stage::Rejected.spec_on_class_name(name) == Stage::Rejected,
        Stage::Rejected.spec_on_owner(owner) == Stage::Rejected,
        Stage::Rejected.spec_on_process_image(path) == Stage::Rejected,
{
}

} // verus!
