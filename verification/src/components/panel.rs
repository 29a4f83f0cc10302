//! Panels: a quieter surface than a card, with the same section styles.
use vstd::prelude::*;
use crate::components::card::SurfaceSectionStyle;

verus! {

#[derive(Clone, Debug)]
pub struct Panel {
    pub sections: SurfaceSectionStyle,
}

impl Panel {
    /// A panel with flat sections.
    pub fn new() -> (r: Self)
        ensures
            r.sections == SurfaceSectionStyle::flat_spec(),
    {
        Panel { sections: SurfaceSectionStyle::flat() }
    }

    pub fn section_style(self, sections: SurfaceSectionStyle) -> (r: Self)
        ensures
            r.sections == sections,
    {
        Panel { sections }
    }

    pub fn muted_sections(self) -> (r: Self)
        ensures
            r.sections == SurfaceSectionStyle::muted_spec(),
    {
        Panel { sections: SurfaceSectionStyle::muted() }
    }
}

impl Default for Panel {
    fn default() -> (r: Self)
        ensures
            r.sections == SurfaceSectionStyle::flat_spec(),
    {
        Panel::new()
    }
}

} // verus!
