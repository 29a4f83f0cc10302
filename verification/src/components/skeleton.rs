//! Skeletons: placeholder bars shown while content loads.
use vstd::prelude::*;
use crate::foundation::Size;

verus! {

#[derive(Clone, Copy, Debug, PartialEq, Eq, Structural)]
pub struct Skeleton {
    pub size: Size,
    pub animated: bool,
}

impl Skeleton {
    /// A medium, shimmering placeholder.
    pub fn new() -> (r: Self)
        ensures
            r.size == Size::Medium,
            r.animated,
    {
        Skeleton { size: Size::Medium, animated: true }
    }

    pub fn size(self, size: Size) -> (r: Self)
        ensures
            r == (Skeleton { size, ..self }),
    {
        Skeleton { size, ..self }
    }

    pub fn animated(self, animated: bool) -> (r: Self)
        ensures
            r == (Skeleton { animated, ..self }),
    {
        Skeleton { animated, ..self }
    }
}

impl Default for Skeleton {
    fn default() -> (r: Self)
        ensures
            r.size == Size::Medium,
            r.animated,
    {
        Skeleton::new()
    }
}

} // verus!
