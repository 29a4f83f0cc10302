//! Carousels: one slide at a time, with previous and next buttons.
use vstd::prelude::*;

verus! {

/// What a carousel reports after a frame: the slide shown and which
/// navigation buttons moved it.
#[derive(Clone, Copy, Debug, Default, PartialEq, Eq, Structural)]
pub struct CarouselResponse {
    pub index: usize,
    pub previous_clicked: bool,
    pub next_clicked: bool,
}

/// Number of slides a carousel of `slide_count` slides shows: at least one.
pub open spec fn slides(slide_count: int) -> int {
    if slide_count > 1 {
        slide_count
    } else {
        1
    }
}

/// One frame of carousel navigation: the slide index is first limited to
/// the last slide, then "next" moves forward unless on the last slide, then
/// "previous" moves back unless on the first.
pub fn carousel_navigate(index: &mut usize, slide_count: usize, next_pressed: bool, previous_pressed: bool) -> (r: CarouselResponse)
    ensures
        ({
            let count = slides(slide_count as int);
            let start = if *old(index) < count - 1 { *old(index) as int } else { count - 1 };
            let after_next = if next_pressed && start + 1 < count { start + 1 } else { start };
            let after_previous = if previous_pressed && after_next > 0 { after_next - 1 } else { after_next };
            &&& *final(index) == after_previous
            &&& r.index == after_previous
            &&& r.next_clicked == (next_pressed && start + 1 < count)
            &&& r.previous_clicked == (previous_pressed && after_next > 0)
        }),
        *final(index) < slides(slide_count as int),
{
    let count = if slide_count > 1 { slide_count } else { 1 };
    if *index > count - 1 {
        *index = count - 1;
    }
    let mut next_clicked = false;
    let mut previous_clicked = false;
    if next_pressed && *index + 1 < count {
        *index = *index + 1;
        next_clicked = true;
    }
    if previous_pressed && *index > 0 {
        *index = *index - 1;
        previous_clicked = true;
    }
    CarouselResponse { index: *index, previous_clicked, next_clicked }
}

/// A slide show bound to a shared slide index.
#[derive(Debug)]
pub struct Carousel<'a> {
    pub index: &'a mut usize,
    pub slide_count: usize,
    pub label: Option<String>,
}

impl<'a> Carousel<'a> {
    /// A carousel over `slide_count` slides; it always has at least one.
    pub fn new(index: &'a mut usize, slide_count: usize) -> (r: Self)
        ensures
            *r.index == *old(index),
            *final(index) == *final(r.index),
            r.slide_count == slides(slide_count as int),
            r.label is None,
    {
        Carousel { index, slide_count: if slide_count > 1 { slide_count } else { 1 }, label: None }
    }

    pub fn label(self, label: &str) -> (r: Self)
        ensures
            r.index == self.index,
            *final(r.index) == *final(self.index),
            r.slide_count == self.slide_count,
            r.label matches Some(l) && l@ == label@,
    {
        Carousel { label: Some(String::from_str(label)), ..self }
    }

    /// One frame: the previous and next buttons move the shared index
    /// within the slides.
    pub fn navigate(self, next_pressed: bool, previous_pressed: bool) -> (r: CarouselResponse)
        ensures
            ({
                let count = slides(self.slide_count as int);
                let start = if *old(self.index) < count - 1 { *old(self.index) as int } else { count - 1 };
                let after_next = if next_pressed && start + 1 < count { start + 1 } else { start };
                let after_previous = if previous_pressed && after_next > 0 { after_next - 1 } else { after_next };
                &&& *final(self.index) == after_previous
                &&& r.index == after_previous
                &&& r.next_clicked == (next_pressed && start + 1 < count)
                &&& r.previous_clicked == (previous_pressed && after_next > 0)
            }),
    {
        carousel_navigate(self.index, self.slide_count, next_pressed, previous_pressed)
    }
}

} // verus!
