//! Check boxes, radio buttons and radio groups.
use vstd::prelude::*;
use crate::foundation::{Orientation, Size};

verus! {

/// A check box bound to a flag; an indeterminate box shows a dash.
#[derive(Debug)]
pub struct Checkbox<'a> {
    pub checked: &'a mut bool,
    pub label: String,
    pub size: Size,
    pub indeterminate: bool,
    pub enabled: bool,
}

impl<'a> Checkbox<'a> {
    pub fn new(checked: &'a mut bool, label: &str) -> (r: Self)
        ensures
            *r.checked == *old(checked),
            *final(checked) == *final(r.checked),
            r.label@ == label@,
            r.size == Size::Medium,
            !r.indeterminate,
            r.enabled,
    {
        Checkbox { checked, label: String::from_str(label), size: Size::Medium, indeterminate: false, enabled: true }
    }

    pub fn size(self, size: Size) -> (r: Self)
        ensures
            r.checked == self.checked,
            *final(r.checked) == *final(self.checked),
            r.label == self.label,
            r.size == size,
            r.indeterminate == self.indeterminate,
            r.enabled == self.enabled,
    {
        Checkbox { size, ..self }
    }

    pub fn indeterminate(self, indeterminate: bool) -> (r: Self)
        ensures
            r.checked == self.checked,
            *final(r.checked) == *final(self.checked),
            r.label == self.label,
            r.size == self.size,
            r.indeterminate == indeterminate,
            r.enabled == self.enabled,
    {
        Checkbox { indeterminate, ..self }
    }

    pub fn enabled(self, enabled: bool) -> (r: Self)
        ensures
            r.checked == self.checked,
            *final(r.checked) == *final(self.checked),
            r.label == self.label,
            r.size == self.size,
            r.indeterminate == self.indeterminate,
            r.enabled == enabled,
    {
        Checkbox { enabled, ..self }
    }

    pub fn disabled(self) -> (r: Self)
        ensures
            r.checked == self.checked,
            *final(r.checked) == *final(self.checked),
            r.label == self.label,
            r.size == self.size,
            r.indeterminate == self.indeterminate,
            !r.enabled,
    {
        Checkbox { enabled: false, ..self }
    }

    /// The box is drawn selected: checked or indeterminate.
    pub fn is_selected(&self) -> (r: bool)
        ensures
            r == (*old(self.checked) || self.indeterminate),
    {
        *self.checked || self.indeterminate
    }

    /// A click: an indeterminate box becomes checked, any other box flips;
    /// a disabled box ignores the click. Reports whether the flag changed
    /// hands (every accepted click counts as a change).
    pub fn click(self) -> (changed: bool)
        ensures
            changed == self.enabled,
            *final(self.checked) == checkbox_after_click(self.enabled, self.indeterminate, *old(self.checked)),
    {
        if self.enabled {
            *self.checked = if self.indeterminate { true } else { !*self.checked };
            true
        } else {
            false
        }
    }
}

/// The flag after a click: an indeterminate box becomes checked, any other
/// box flips, and a disabled box keeps its flag.
pub open spec fn checkbox_after_click(enabled: bool, indeterminate: bool, checked: bool) -> bool {
    if !enabled {
        checked
    } else if indeterminate {
        true
    } else {
        !checked
    }
}

/// Two clicks on an enabled, determinate box leave its flag as it was; a
/// click on an indeterminate box always checks it.
pub proof fn lemma_checkbox_click_twice(checked: bool)
    ensures
        checkbox_after_click(true, false, checkbox_after_click(true, false, checked)) == checked,
        checkbox_after_click(true, true, checked),
        checkbox_after_click(false, true, checked) == checked,
{
}

/// A radio button that selects `value` into a shared selection.
#[derive(Debug)]
pub struct Radio<'a, T> {
    pub selected: &'a mut T,
    pub value: T,
    pub label: String,
    pub size: Size,
    pub enabled: bool,
}

impl<'a, T> Radio<'a, T> {
    pub fn new(selected: &'a mut T, value: T, label: &str) -> (r: Self)
        ensures
            *r.selected == *old(selected),
            *final(selected) == *final(r.selected),
            r.value == value,
            r.label@ == label@,
            r.size == Size::Medium,
            r.enabled,
    {
        Radio { selected, value, label: String::from_str(label), size: Size::Medium, enabled: true }
    }

    pub fn size(self, size: Size) -> (r: Self)
        ensures
            r.selected == self.selected,
            *final(r.selected) == *final(self.selected),
            r.value == self.value,
            r.label == self.label,
            r.size == size,
            r.enabled == self.enabled,
    {
        Radio { size, ..self }
    }

    pub fn enabled(self, enabled: bool) -> (r: Self)
        ensures
            r.selected == self.selected,
            *final(r.selected) == *final(self.selected),
            r.value == self.value,
            r.label == self.label,
            r.size == self.size,
            r.enabled == enabled,
    {
        Radio { enabled, ..self }
    }

    pub fn disabled(self) -> (r: Self)
        ensures
            r.selected == self.selected,
            *final(r.selected) == *final(self.selected),
            r.value == self.value,
            r.label == self.label,
            r.size == self.size,
            !r.enabled,
    {
        Radio { enabled: false, ..self }
    }
}

impl<'a> Radio<'a, usize> {
    /// A click on an enabled radio that is not selected selects its value;
    /// reports whether the selection changed.
    pub fn click(self) -> (changed: bool)
        ensures
            changed == (self.enabled && *old(self.selected) != self.value),
            *final(self.selected) == if changed { self.value } else { *old(self.selected) },
    {
        if self.enabled && *self.selected != self.value {
            *self.selected = self.value;
            true
        } else {
            false
        }
    }
}

/// A group of radio buttons over `options`, laid out in a row or a column.
#[derive(Debug)]
pub struct RadioGroup<'a, T> {
    pub selected: &'a mut T,
    pub options: Vec<(T, String)>,
    pub size: Size,
    pub orientation: Orientation,
    pub enabled: bool,
}

impl<'a, T> RadioGroup<'a, T> {
    /// A horizontal, medium, enabled group over `options`.
    pub fn new(selected: &'a mut T, options: Vec<(T, String)>) -> (r: Self)
        ensures
            *r.selected == *old(selected),
            *final(selected) == *final(r.selected),
            r.options == options,
            r.size == Size::Medium,
            r.orientation == Orientation::Horizontal,
            r.enabled,
    {
        RadioGroup { selected, options, size: Size::Medium, orientation: Orientation::Horizontal, enabled: true }
    }

    pub fn size(self, size: Size) -> (r: Self)
        ensures
            r.selected == self.selected,
            *final(r.selected) == *final(self.selected),
            r.options == self.options,
            r.size == size,
            r.orientation == self.orientation,
            r.enabled == self.enabled,
    {
        RadioGroup { size, ..self }
    }

    pub fn orientation(self, orientation: Orientation) -> (r: Self)
        ensures
            r.selected == self.selected,
            *final(r.selected) == *final(self.selected),
            r.options == self.options,
            r.size == self.size,
            r.orientation == orientation,
            r.enabled == self.enabled,
    {
        RadioGroup { orientation, ..self }
    }

    pub fn vertical(self) -> (r: Self)
        ensures
            r.selected == self.selected,
            *final(r.selected) == *final(self.selected),
            r.options == self.options,
            r.size == self.size,
            r.orientation == Orientation::Vertical,
            r.enabled == self.enabled,
    {
        RadioGroup { orientation: Orientation::Vertical, ..self }
    }

    pub fn horizontal(self) -> (r: Self)
        ensures
            r.selected == self.selected,
            *final(r.selected) == *final(self.selected),
            r.options == self.options,
            r.size == self.size,
            r.orientation == Orientation::Horizontal,
            r.enabled == self.enabled,
    {
        RadioGroup { orientation: Orientation::Horizontal, ..self }
    }

    pub fn enabled(self, enabled: bool) -> (r: Self)
        ensures
            r.selected == self.selected,
            *final(r.selected) == *final(self.selected),
            r.options == self.options,
            r.size == self.size,
            r.orientation == self.orientation,
            r.enabled == enabled,
    {
        RadioGroup { enabled, ..self }
    }

    pub fn disabled(self) -> (r: Self)
        ensures
            r.selected == self.selected,
            *final(r.selected) == *final(self.selected),
            r.options == self.options,
            r.size == self.size,
            r.orientation == self.orientation,
            !r.enabled,
    {
        RadioGroup { enabled: false, ..self }
    }
}

impl<'a> RadioGroup<'a, usize> {
    /// A click on the option at `index` of an enabled group selects its
    /// value; reports whether the selection changed.
    pub fn click(self, index: usize) -> (changed: bool)
        requires
            index < self.options@.len(),
        ensures
            changed == (self.enabled && *old(self.selected) != self.options@[index as int].0),
            *final(self.selected) == if changed { self.options@[index as int].0 } else { *old(self.selected) },
    {
        let value = self.options[index].0;
        if self.enabled && *self.selected != value {
            *self.selected = value;
            true
        } else {
            false
        }
    }
}

} // verus!
