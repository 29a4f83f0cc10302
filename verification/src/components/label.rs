//! Text labels.
use vstd::prelude::*;
use crate::foundation::Size;

verus! {

#[derive(Clone, Debug)]
pub struct Label {
    pub text: String,
    pub size: Size,
    pub muted: bool,
}

impl Label {
    pub fn new(text: &str) -> (r: Self)
        ensures
            r.text@ == text@,
            r.size == Size::Medium,
            !r.muted,
    {
        Label { text: String::from_str(text), size: Size::Medium, muted: false }
    }

    pub fn size(self, size: Size) -> (r: Self)
        ensures
            r == (Label { size, ..self }),
    {
        Label { size, ..self }
    }

    pub fn muted(self) -> (r: Self)
        ensures
            r == (Label { muted: true, ..self }),
    {
        Label { muted: true, ..self }
    }
}

} // verus!
