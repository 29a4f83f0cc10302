//! Popovers and hover cards: overlays with an optional title and body,
//! opened on a side of their trigger.
use vstd::prelude::*;
use crate::components::card::SurfaceSectionStyle;
use crate::foundation::Placement;

verus! {

/// An overlay opened by clicking its trigger.
#[derive(Clone, Debug)]
pub struct Popover {
    pub title: Option<String>,
    pub body: Option<String>,
    pub placement: Placement,
    pub sections: SurfaceSectionStyle,
}

impl Popover {
    /// An empty popover below its trigger with flat sections.
    pub fn new() -> (r: Self)
        ensures
            r.title is None,
            r.body is None,
            r.placement == Placement::Bottom,
            r.sections == SurfaceSectionStyle::flat_spec(),
    {
        Popover { title: None, body: None, placement: Placement::Bottom, sections: SurfaceSectionStyle::flat() }
    }

    pub fn title(self, title: &str) -> (r: Self)
        ensures
            r == (Popover { title: r.title, ..self }),
            r.title matches Some(t) && t@ == title@,
    {
        Popover { title: Some(String::from_str(title)), ..self }
    }

    pub fn body(self, body: &str) -> (r: Self)
        ensures
            r == (Popover { body: r.body, ..self }),
            r.body matches Some(b) && b@ == body@,
    {
        Popover { body: Some(String::from_str(body)), ..self }
    }

    pub fn placement(self, placement: Placement) -> (r: Self)
        ensures
            r == (Popover { placement, ..self }),
    {
        Popover { placement, ..self }
    }

    pub fn section_style(self, sections: SurfaceSectionStyle) -> (r: Self)
        ensures
            r == (Popover { sections, ..self }),
    {
        Popover { sections, ..self }
    }

    pub fn muted_sections(self) -> (r: Self)
        ensures
            r == (Popover { sections: SurfaceSectionStyle::muted_spec(), ..self }),
    {
        Popover { sections: SurfaceSectionStyle::muted(), ..self }
    }
}

impl Default for Popover {
    fn default() -> (r: Self)
        ensures
            r.title is None,
            r.body is None,
            r.placement == Placement::Bottom,
            r.sections == SurfaceSectionStyle::flat_spec(),
    {
        Popover::new()
    }
}

/// An overlay opened while the pointer rests on its trigger.
#[derive(Clone, Debug)]
pub struct HoverCard {
    pub title: Option<String>,
    pub body: Option<String>,
    pub placement: Placement,
    pub sections: SurfaceSectionStyle,
}

impl HoverCard {
    /// An empty card to the right of its trigger with flat sections.
    pub fn new() -> (r: Self)
        ensures
            r.title is None,
            r.body is None,
            r.placement == Placement::Right,
            r.sections == SurfaceSectionStyle::flat_spec(),
    {
        HoverCard { title: None, body: None, placement: Placement::Right, sections: SurfaceSectionStyle::flat() }
    }

    pub fn title(self, title: &str) -> (r: Self)
        ensures
            r == (HoverCard { title: r.title, ..self }),
            r.title matches Some(t) && t@ == title@,
    {
        HoverCard { title: Some(String::from_str(title)), ..self }
    }

    pub fn body(self, body: &str) -> (r: Self)
        ensures
            r == (HoverCard { body: r.body, ..self }),
            r.body matches Some(b) && b@ == body@,
    {
        HoverCard { body: Some(String::from_str(body)), ..self }
    }

    pub fn placement(self, placement: Placement) -> (r: Self)
        ensures
            r == (HoverCard { placement, ..self }),
    {
        HoverCard { placement, ..self }
    }

    pub fn section_style(self, sections: SurfaceSectionStyle) -> (r: Self)
        ensures
            r == (HoverCard { sections, ..self }),
    {
        HoverCard { sections, ..self }
    }

    pub fn muted_sections(self) -> (r: Self)
        ensures
            r == (HoverCard { sections: SurfaceSectionStyle::muted_spec(), ..self }),
    {
        HoverCard { sections: SurfaceSectionStyle::muted(), ..self }
    }
}

impl Default for HoverCard {
    fn default() -> (r: Self)
        ensures
            r.title is None,
            r.body is None,
            r.placement == Placement::Right,
            r.sections == SurfaceSectionStyle::flat_spec(),
    {
        HoverCard::new()
    }
}

/// A header is drawn above the contents when there is a title or a body.
pub fn shows_header(title: &Option<String>, body: &Option<String>) -> (r: bool)
    ensures
        r == (title is Some || body is Some),
{
    title.is_some() || body.is_some()
}

} // verus!
