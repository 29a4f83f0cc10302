//! Disclosures and accordions: headers that open and close a body.
use vstd::prelude::*;
use crate::foundation::{Intent, Size};

verus! {

/// What a disclosure header shows at its trailing edge.
#[derive(Clone, Debug)]
pub enum TrailingContent {
    Text(String),
    Badge { label: String, intent: Intent },
    StatusDot { label: String, intent: Intent },
}

/// A collapsible section bound to an open flag.
#[derive(Debug)]
pub struct Disclosure<'a> {
    pub open: &'a mut bool,
    pub title: String,
    pub subtitle: Option<String>,
    pub trailing: Option<TrailingContent>,
    pub enabled: bool,
    pub size: Size,
}

/// The two disclosures carry the same configuration.
pub open spec fn same_disclosure(a: &Disclosure, b: &Disclosure) -> bool {
    &&& *a.open == *b.open
    &&& a.title == b.title
    &&& a.subtitle == b.subtitle
    &&& a.trailing == b.trailing
    &&& a.enabled == b.enabled
    &&& a.size == b.size
}

impl<'a> Disclosure<'a> {
    pub fn new(open: &'a mut bool, title: &str) -> (r: Self)
        ensures
            *r.open == *old(open),
            *final(open) == *final(r.open),
            r.title@ == title@,
            r.subtitle is None,
            r.trailing is None,
            r.enabled,
            r.size == Size::Medium,
    {
        Disclosure { open, title: String::from_str(title), subtitle: None, trailing: None, enabled: true, size: Size::Medium }
    }

    pub fn subtitle(self, subtitle: &str) -> (r: Self)
        ensures
            r.subtitle matches Some(s) && s@ == subtitle@,
            same_disclosure(&r, &Disclosure { subtitle: r.subtitle, ..self }),
            *final(r.open) == *final(self.open),
    {
        Disclosure { subtitle: Some(String::from_str(subtitle)), ..self }
    }

    pub fn trailing(self, trailing: &str) -> (r: Self)
        ensures
            r.trailing matches Some(TrailingContent::Text(t)) && t@ == trailing@,
            same_disclosure(&r, &Disclosure { trailing: r.trailing, ..self }),
            *final(r.open) == *final(self.open),
    {
        Disclosure { trailing: Some(TrailingContent::Text(String::from_str(trailing))), ..self }
    }

    pub fn trailing_badge(self, label: &str, intent: Intent) -> (r: Self)
        ensures
            r.trailing matches Some(TrailingContent::Badge { label: l, intent: i }) && l@ == label@ && i == intent,
            same_disclosure(&r, &Disclosure { trailing: r.trailing, ..self }),
            *final(r.open) == *final(self.open),
    {
        Disclosure { trailing: Some(TrailingContent::Badge { label: String::from_str(label), intent }), ..self }
    }

    pub fn trailing_status_dot(self, label: &str, intent: Intent) -> (r: Self)
        ensures
            r.trailing matches Some(TrailingContent::StatusDot { label: l, intent: i }) && l@ == label@ && i == intent,
            same_disclosure(&r, &Disclosure { trailing: r.trailing, ..self }),
            *final(r.open) == *final(self.open),
    {
        Disclosure { trailing: Some(TrailingContent::StatusDot { label: String::from_str(label), intent }), ..self }
    }

    pub fn enabled(self, enabled: bool) -> (r: Self)
        ensures
            same_disclosure(&r, &Disclosure { enabled, ..self }),
            *final(r.open) == *final(self.open),
    {
        Disclosure { enabled, ..self }
    }

    pub fn disabled(self) -> (r: Self)
        ensures
            same_disclosure(&r, &Disclosure { enabled: false, ..self }),
            *final(r.open) == *final(self.open),
    {
        Disclosure { enabled: false, ..self }
    }

    pub fn size(self, size: Size) -> (r: Self)
        ensures
            same_disclosure(&r, &Disclosure { size, ..self }),
            *final(r.open) == *final(self.open),
    {
        Disclosure { size, ..self }
    }

    /// A click on the header: an enabled disclosure opens or closes.
    pub fn click(self)
        ensures
            *final(self.open) == if self.enabled { !*old(self.open) } else { *old(self.open) },
    {
        if self.enabled {
            *self.open = !*self.open;
        }
    }
}

/// An item of an accordion.
#[derive(Clone, Debug)]
pub struct AccordionItem {
    pub title: String,
    pub subtitle: Option<String>,
    pub trailing: Option<TrailingContent>,
    pub enabled: bool,
}

impl AccordionItem {
    pub fn new(title: &str) -> (r: Self)
        ensures
            r.title@ == title@,
            r.subtitle is None,
            r.trailing is None,
            r.enabled,
    {
        AccordionItem { title: String::from_str(title), subtitle: None, trailing: None, enabled: true }
    }

    pub fn subtitle(self, subtitle: &str) -> (r: Self)
        ensures
            r.subtitle matches Some(s) && s@ == subtitle@,
            r == (AccordionItem { subtitle: r.subtitle, ..self }),
    {
        AccordionItem { subtitle: Some(String::from_str(subtitle)), ..self }
    }

    pub fn trailing(self, trailing: &str) -> (r: Self)
        ensures
            r.trailing matches Some(TrailingContent::Text(t)) && t@ == trailing@,
            r == (AccordionItem { trailing: r.trailing, ..self }),
    {
        AccordionItem { trailing: Some(TrailingContent::Text(String::from_str(trailing))), ..self }
    }

    pub fn trailing_badge(self, label: &str, intent: Intent) -> (r: Self)
        ensures
            r.trailing matches Some(TrailingContent::Badge { label: l, intent: i }) && l@ == label@ && i == intent,
            r == (AccordionItem { trailing: r.trailing, ..self }),
    {
        AccordionItem { trailing: Some(TrailingContent::Badge { label: String::from_str(label), intent }), ..self }
    }

    pub fn trailing_status_dot(self, label: &str, intent: Intent) -> (r: Self)
        ensures
            r.trailing matches Some(TrailingContent::StatusDot { label: l, intent: i }) && l@ == label@ && i == intent,
            r == (AccordionItem { trailing: r.trailing, ..self }),
    {
        AccordionItem { trailing: Some(TrailingContent::StatusDot { label: String::from_str(label), intent }), ..self }
    }

    pub fn enabled(self, enabled: bool) -> (r: Self)
        ensures
            r == (AccordionItem { enabled, ..self }),
    {
        AccordionItem { enabled, ..self }
    }

    pub fn disabled(self) -> (r: Self)
        ensures
            r == (AccordionItem { enabled: false, ..self }),
    {
        AccordionItem { enabled: false, ..self }
    }
}

impl From<&str> for AccordionItem {
    /// An enabled item titled `title`, as `AccordionItem::new` makes it.
    fn from(title: &str) -> (r: Self)
        ensures
            r.title@ == title@,
            r.subtitle is None,
            r.trailing is None,
            r.enabled,
    {
        AccordionItem::new(title)
    }
}

impl vstd::std_specs::convert::FromSpecImpl<&str> for AccordionItem {
    /// The conversion makes a new `String`, which no spec value names; its
    /// fields are stated on `from` itself.
    open spec fn obeys_from_spec() -> bool {
        false
    }

    open spec fn from_spec(v: &str) -> AccordionItem {
        arbitrary()
    }
}

impl From<String> for AccordionItem {
    /// An enabled item titled `title`, which it takes over.
    fn from(title: String) -> (r: Self)
        ensures
            r.title == title,
            r.subtitle is None,
            r.trailing is None,
            r.enabled,
    {
        AccordionItem { title, subtitle: None, trailing: None, enabled: true }
    }
}

impl vstd::std_specs::convert::FromSpecImpl<String> for AccordionItem {
    open spec fn obeys_from_spec() -> bool {
        true
    }

    open spec fn from_spec(v: String) -> AccordionItem {
        AccordionItem { title: v, subtitle: None, trailing: None, enabled: true }
    }
}

/// The open item after a click on item `clicked`: clicking the open item
/// closes it, clicking another opens that one (and closes the rest).
pub open spec fn toggled(current: Option<usize>, clicked: usize) -> Option<usize> {
    if current == Some(clicked) {
        None
    } else {
        Some(clicked)
    }
}

pub fn next_accordion_open(current: Option<usize>, clicked: usize) -> (r: Option<usize>)
    ensures
        r == toggled(current, clicked),
{
    match current {
        Some(open) => {
            if open == clicked {
                None
            } else {
                Some(clicked)
            }
        },
        None => Some(clicked),
    }
}

/// A click leaves the clicked item open or nothing open; clicking the same
/// item twice closes it again, except that an item that was open to begin
/// with is open again.
pub proof fn lemma_accordion_click_twice(current: Option<usize>, clicked: usize)
    ensures
        current != Some(clicked) ==> toggled(toggled(current, clicked), clicked) is None,
        current == Some(clicked) ==> toggled(toggled(current, clicked), clicked) == current,
        toggled(current, clicked) == Some(clicked) || toggled(current, clicked) is None,
{
}

/// A list of items of which at most one is open.
#[derive(Debug)]
pub struct Accordion<'a> {
    pub open: &'a mut Option<usize>,
    pub items: Vec<AccordionItem>,
    pub size: Size,
}

impl<'a> Accordion<'a> {
    pub fn new(open: &'a mut Option<usize>, items: Vec<AccordionItem>) -> (r: Self)
        ensures
            *r.open == *old(open),
            *final(open) == *final(r.open),
            r.items == items,
            r.size == Size::Medium,
    {
        Accordion { open, items, size: Size::Medium }
    }

    pub fn size(self, size: Size) -> (r: Self)
        ensures
            r.open == self.open,
            *final(r.open) == *final(self.open),
            r.items == self.items,
            r.size == size,
    {
        Accordion { size, ..self }
    }

    /// A click on the header of item `index`: an enabled item toggles.
    pub fn click(self, index: usize)
        requires
            index < self.items@.len(),
        ensures
            *final(self.open) == if self.items@[index as int].enabled {
                toggled(*old(self.open), index)
            } else {
                *old(self.open)
            },
    {
        if self.items[index].enabled {
            *self.open = next_accordion_open(*self.open, index);
        }
    }
}

} // verus!
