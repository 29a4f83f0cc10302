//! Links: text that opens an address, or acts as a button without one.
use vstd::prelude::*;
use crate::foundation::Size;

verus! {

#[derive(Clone, Debug)]
pub struct Link {
    pub label: String,
    pub url: Option<String>,
    pub size: Size,
}

impl Link {
    pub fn new(label: &str) -> (r: Self)
        ensures
            r.label@ == label@,
            r.url is None,
            r.size == Size::Medium,
    {
        Link { label: String::from_str(label), url: None, size: Size::Medium }
    }

    pub fn to(self, url: &str) -> (r: Self)
        ensures
            r.url matches Some(u) && u@ == url@,
            r == (Link { url: r.url, ..self }),
    {
        Link { url: Some(String::from_str(url)), ..self }
    }

    pub fn size(self, size: Size) -> (r: Self)
        ensures
            r == (Link { size, ..self }),
    {
        Link { size, ..self }
    }
}

} // verus!
