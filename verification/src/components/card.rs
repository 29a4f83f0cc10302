//! Cards and the section styles shared by cards, panels, dialogs and sheets.
use vstd::prelude::*;

verus! {

/// Chrome of a header or footer section.
#[derive(Clone, Copy, Debug, PartialEq, Eq, Structural)]
pub enum SurfaceChrome {
    Flat,
    Muted,
}

/// How the header and footer sections of a surface are drawn.
#[derive(Clone, Copy, Debug, PartialEq, Eq, Structural)]
pub struct SurfaceSectionStyle {
    pub header: SurfaceChrome,
    pub footer: SurfaceChrome,
    pub dividers: bool,
}

impl SurfaceSectionStyle {
    pub open spec fn flat_spec() -> Self {
        SurfaceSectionStyle { header: SurfaceChrome::Flat, footer: SurfaceChrome::Flat, dividers: false }
    }

    pub open spec fn muted_spec() -> Self {
        SurfaceSectionStyle { header: SurfaceChrome::Muted, footer: SurfaceChrome::Muted, dividers: true }
    }

    /// Flat header and footer without dividers.
    pub fn flat() -> (r: Self)
        ensures
            r == Self::flat_spec(),
    {
        SurfaceSectionStyle { header: SurfaceChrome::Flat, footer: SurfaceChrome::Flat, dividers: false }
    }

    /// Muted header and footer separated by dividers.
    pub fn muted() -> (r: Self)
        ensures
            r == Self::muted_spec(),
    {
        SurfaceSectionStyle { header: SurfaceChrome::Muted, footer: SurfaceChrome::Muted, dividers: true }
    }
}

impl Default for SurfaceSectionStyle {
    fn default() -> (r: Self)
        ensures
            r == Self::flat_spec(),
    {
        Self::flat()
    }
}

/// A card surface.
#[derive(Clone, Debug)]
pub struct Card {
    pub sections: SurfaceSectionStyle,
}

impl Card {
    /// A card with flat sections.
    pub fn new() -> (r: Self)
        ensures
            r.sections == SurfaceSectionStyle::flat_spec(),
    {
        Card { sections: SurfaceSectionStyle::flat() }
    }

    pub fn section_style(self, sections: SurfaceSectionStyle) -> (r: Self)
        ensures
            r.sections == sections,
    {
        Card { sections }
    }

    pub fn muted_sections(self) -> (r: Self)
        ensures
            r.sections == SurfaceSectionStyle::muted_spec(),
    {
        Card { sections: SurfaceSectionStyle::muted() }
    }
}

impl Default for Card {
    fn default() -> (r: Self)
        ensures
            r.sections == SurfaceSectionStyle::flat_spec(),
    {
        Card::new()
    }
}

} // verus!
