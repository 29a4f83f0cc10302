//! Separators: a horizontal or vertical rule between groups.
use vstd::prelude::*;
use crate::foundation::Orientation;

verus! {

#[derive(Clone, Copy, Debug, PartialEq, Eq, Structural)]
pub struct Separator {
    pub orientation: Orientation,
}

impl Separator {
    /// A horizontal rule.
    pub fn new() -> (r: Self)
        ensures
            r.orientation == Orientation::Horizontal,
    {
        Separator { orientation: Orientation::Horizontal }
    }

    pub fn horizontal() -> (r: Self)
        ensures
            r.orientation == Orientation::Horizontal,
    {
        Separator { orientation: Orientation::Horizontal }
    }

    pub fn vertical() -> (r: Self)
        ensures
            r.orientation == Orientation::Vertical,
    {
        Separator { orientation: Orientation::Vertical }
    }
}

impl Default for Separator {
    fn default() -> (r: Self)
        ensures
            r.orientation == Orientation::Horizontal,
    {
        Separator::new()
    }
}

} // verus!
