use vstd::prelude::*;

verus! {

/// A rectangular region of the output image, in pixels, with inclusive
/// bounds on both axes.
#[derive(Clone, Copy, Debug, PartialEq, Eq, Structural)]
pub struct JRECT {
    pub left: u16,
    pub right: u16,
    pub top: u16,
    pub bottom: u16,
}

impl JRECT {
    /// The cleared rectangle: every bound is zero.
    pub open spec fn cleared() -> JRECT {
        JRECT { left: 0, right: 0, top: 0, bottom: 0 }
    }

    /// Creates a cleared rectangle.
    pub fn new() -> (r: JRECT)
        ensures
            r == JRECT::cleared(),
    {
        JRECT { left: 0, right: 0, top: 0, bottom: 0 }
    }
}

impl Default for JRECT {
    /// The default rectangle is the one `new` creates.
    fn default() -> (r: JRECT)
        ensures
            r == JRECT::cleared(),
    {
        JRECT::new()
    }
}

} // verus!
