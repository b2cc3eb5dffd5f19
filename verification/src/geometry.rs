//! Screen rectangles as the window system reports them, and the client
//! area a frame is drawn into.

use vstd::prelude::*;

verus! {

/// A rectangle by its edges, in pixels. `right` and `bottom` lie just
/// outside it, so that its width is `right - left`.
#[derive(Clone, Copy, Debug, PartialEq, Eq, Structural)]
pub struct Rect {
    pub left: i32,
    pub top: i32,
    pub right: i32,
    pub bottom: i32,
}

impl Rect {
    /// `right - left`, which may be zero or negative.
    pub open spec fn spec_width(self) -> int {
        self.right - self.left
    }

    /// `bottom - top`, which may be zero or negative.
    pub open spec fn spec_height(self) -> int {
        self.bottom - self.top
    }

    /// Both extents are strictly positive.
    pub open spec fn spec_has_area(self) -> bool {
        self.spec_width() > 0 && self.spec_height() > 0
    }

    /// The rectangle moved by `dx` to the right and `dy` down.
    pub open spec fn spec_shifted(self, dx: int, dy: int) -> Rect
        recommends
            i32::MIN <= self.left + dx <= i32::MAX,
            i32::MIN <= self.right + dx <= i32::MAX,
            i32::MIN <= self.top + dy <= i32::MAX,
            i32::MIN <= self.bottom + dy <= i32::MAX,
    {
        Rect {
            left: (self.left + dx) as i32,
            top: (self.top + dy) as i32,
            right: (self.right + dx) as i32,
            bottom: (self.bottom + dy) as i32,
        }
    }

    pub fn width(self) -> (w: i64)
        ensures
            w == self.spec_width(),
    {
        self.right as i64 - self.left as i64
    }

    pub fn height(self) -> (h: i64)
        ensures
            h == self.spec_height(),
    {
        self.bottom as i64 - self.top as i64
    }

    /// The rectangle moved by `dx` to the right and `dy` down.
    pub fn shifted(self, dx: i32, dy: i32) -> (r: Rect)
        requires
            i32::MIN <= self.left + dx <= i32::MAX,
            i32::MIN <= self.right + dx <= i32::MAX,
            i32::MIN <= self.top + dy <= i32::MAX,
            i32::MIN <= self.bottom + dy <= i32::MAX,
        ensures
            r == self.spec_shifted(dx as int, dy as int),
    {
        Rect {
            left: self.left + dx,
            top: self.top + dy,
            right: self.right + dx,
            bottom: self.bottom + dy,
        }
    }

    #[verifier::when_used_as_spec(spec_has_area)]
    pub fn has_area(self) -> (b: bool)
        ensures
            b == self.spec_has_area(),
    {
        self.right > self.left && self.bottom > self.top
    }
}

} // verus!
