//! Filter bars: a row of controls that default to the small size.
use vstd::prelude::*;
use crate::foundation::Size;

verus! {

#[derive(Clone, Copy, Debug)]
pub struct FilterBar {
    pub size: Size,
}

impl FilterBar {
    pub fn new() -> (r: Self)
        ensures
            r.size == Size::Small,
    {
        FilterBar { size: Size::Small }
    }

    pub fn size(self, size: Size) -> (r: Self)
        ensures
            r.size == size,
    {
        FilterBar { size }
    }
}

impl Default for FilterBar {
    fn default() -> (r: Self)
        ensures
            r.size == Size::Small,
    {
        FilterBar::new()
    }
}

} // verus!
