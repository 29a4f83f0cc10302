//! Switches: an on/off toggle bound to a flag.
use vstd::prelude::*;
use crate::foundation::Size;

verus! {

#[derive(Debug)]
pub struct Switch<'a> {
    pub checked: &'a mut bool,
    pub size: Size,
}

impl<'a> Switch<'a> {
    /// A medium switch bound to `checked`.
    pub fn new(checked: &'a mut bool) -> (r: Self)
        ensures
            *r.checked == *old(checked),
            *final(checked) == *final(r.checked),
            r.size == Size::Medium,
    {
        Switch { checked, size: Size::Medium }
    }

    pub fn size(self, size: Size) -> (r: Self)
        ensures
            r.checked == self.checked,
            *final(r.checked) == *final(self.checked),
            r.size == size,
    {
        Switch { size, ..self }
    }

    /// A click flips the flag; every click is a change.
    pub fn click(self) -> (changed: bool)
        ensures
            changed,
            *final(self.checked) == !*old(self.checked),
    {
        *self.checked = !*self.checked;
        true
    }
}

} // verus!
