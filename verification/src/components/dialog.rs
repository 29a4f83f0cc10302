//! Dialogs and sheets: the controllers their contents use to ask for
//! closing, and the answer of a confirmation dialog.
use vstd::prelude::*;
use crate::components::card::SurfaceSectionStyle;
use crate::foundation::{Intent, Placement};

verus! {

/// Handed to dialog contents; closing is requested through it.
#[derive(Debug)]
pub struct DialogController {
    close_requested: bool,
}

impl DialogController {
    pub closed spec fn requested(&self) -> bool {
        self.close_requested
    }

    pub fn new() -> (r: Self)
        ensures
            !r.requested(),
    {
        DialogController { close_requested: false }
    }

    pub fn close(&mut self)
        ensures
            final(self).requested(),
    {
        self.close_requested = true;
    }

    pub fn close_requested(&self) -> (r: bool)
        ensures
            r == self.requested(),
    {
        self.close_requested
    }
}

impl Default for DialogController {
    fn default() -> (r: Self)
        ensures
            !r.requested(),
    {
        DialogController::new()
    }
}

/// Handed to sheet contents; closing is requested through it.
#[derive(Debug)]
pub struct SheetController {
    close_requested: bool,
}

impl SheetController {
    pub closed spec fn requested(&self) -> bool {
        self.close_requested
    }

    pub fn new() -> (r: Self)
        ensures
            !r.requested(),
    {
        SheetController { close_requested: false }
    }

    pub fn close(&mut self)
        ensures
            final(self).requested(),
    {
        self.close_requested = true;
    }

    pub fn close_requested(&self) -> (r: bool)
        ensures
            r == self.requested(),
    {
        self.close_requested
    }
}

impl Default for SheetController {
    fn default() -> (r: Self)
        ensures
            !r.requested(),
    {
        SheetController::new()
    }
}

/// The answer of a confirmation dialog.
#[derive(Clone, Copy, Debug, PartialEq, Eq, Structural)]
pub enum ConfirmDialogResponse {
    Confirmed,
    Cancelled,
}

/// Whether a dialog stays open after a frame: it closes when the modal was
/// dismissed (backdrop click or escape) or its contents asked to close.
pub fn dialog_open_after(open: bool, dismissed: bool, close_requested: bool) -> (r: bool)
    ensures
        r == (open && !dismissed && !close_requested),
{
    open && !(dismissed || close_requested)
}

/// What a confirmation dialog answers for a frame: a click on "confirm"
/// confirms, a click on "cancel" cancels (and wins when both came in the
/// same frame), no click answers nothing.
pub fn confirm_dialog_result(confirm_clicked: bool, cancel_clicked: bool) -> (r: Option<ConfirmDialogResponse>)
    ensures
        r == if cancel_clicked {
            Some(ConfirmDialogResponse::Cancelled)
        } else if confirm_clicked {
            Some(ConfirmDialogResponse::Confirmed)
        } else {
            None
        },
{
    let mut result = None;
    if confirm_clicked {
        result = Some(ConfirmDialogResponse::Confirmed);
    }
    if cancel_clicked {
        result = Some(ConfirmDialogResponse::Cancelled);
    }
    result
}

/// A modal dialog bound to an open flag.
#[derive(Debug)]
pub struct Dialog<'a> {
    pub open: &'a mut bool,
    pub title: Option<String>,
    pub description: Option<String>,
    pub closable: bool,
    pub sections: SurfaceSectionStyle,
}

impl<'a> Dialog<'a> {
    /// A closable dialog without header text, with flat sections.
    pub fn new(open: &'a mut bool) -> (r: Self)
        ensures
            *r.open == *old(open),
            *final(open) == *final(r.open),
            r.title is None,
            r.description is None,
            r.closable,
            r.sections == SurfaceSectionStyle::flat_spec(),
    {
        Dialog { open, title: None, description: None, closable: true, sections: SurfaceSectionStyle::flat() }
    }

    pub fn title(self, title: &str) -> (r: Self)
        ensures
            r.open == self.open,
            *final(r.open) == *final(self.open),
            r.title matches Some(t) && t@ == title@,
            r.description == self.description,
            r.closable == self.closable,
            r.sections == self.sections,
    {
        Dialog { title: Some(String::from_str(title)), ..self }
    }

    pub fn description(self, description: &str) -> (r: Self)
        ensures
            r.open == self.open,
            *final(r.open) == *final(self.open),
            r.title == self.title,
            r.description matches Some(d) && d@ == description@,
            r.closable == self.closable,
            r.sections == self.sections,
    {
        Dialog { description: Some(String::from_str(description)), ..self }
    }

    pub fn closable(self, closable: bool) -> (r: Self)
        ensures
            r.open == self.open,
            *final(r.open) == *final(self.open),
            r.title == self.title,
            r.description == self.description,
            r.closable == closable,
            r.sections == self.sections,
    {
        Dialog { closable, ..self }
    }

    pub fn section_style(self, sections: SurfaceSectionStyle) -> (r: Self)
        ensures
            r.open == self.open,
            *final(r.open) == *final(self.open),
            r.title == self.title,
            r.description == self.description,
            r.closable == self.closable,
            r.sections == sections,
    {
        Dialog { sections, ..self }
    }

    pub fn muted_sections(self) -> (r: Self)
        ensures
            r.open == self.open,
            *final(r.open) == *final(self.open),
            r.title == self.title,
            r.description == self.description,
            r.closable == self.closable,
            r.sections == SurfaceSectionStyle::muted_spec(),
    {
        Dialog { sections: SurfaceSectionStyle::muted(), ..self }
    }

    /// The end of a frame of an open dialog: it closes when the modal was
    /// dismissed or its contents asked to close.
    pub fn finish_frame(self, dismissed: bool, controller: &DialogController)
        ensures
            *final(self.open) == (*old(self.open) && !dismissed && !controller.requested()),
    {
        *self.open = dialog_open_after(*self.open, dismissed, controller.close_requested());
    }
}

/// A dialog that asks to confirm an action.
#[derive(Debug)]
pub struct ConfirmDialog<'a> {
    pub open: &'a mut bool,
    pub title: String,
    pub description: String,
    pub confirm_label: String,
    pub cancel_label: String,
    pub intent: Intent,
}

impl<'a> ConfirmDialog<'a> {
    /// A dangerous confirmation with the buttons "Confirm" and "Cancel".
    pub fn new(open: &'a mut bool) -> (r: Self)
        ensures
            *r.open == *old(open),
            *final(open) == *final(r.open),
            r.title@ == "Confirm action"@,
            r.description@ == "This action needs confirmation before continuing."@,
            r.confirm_label@ == "Confirm"@,
            r.cancel_label@ == "Cancel"@,
            r.intent == Intent::Danger,
    {
        ConfirmDialog {
            open,
            title: String::from_str("Confirm action"),
            description: String::from_str("This action needs confirmation before continuing."),
            confirm_label: String::from_str("Confirm"),
            cancel_label: String::from_str("Cancel"),
            intent: Intent::Danger,
        }
    }

    pub fn title(self, title: &str) -> (r: Self)
        ensures
            r == (ConfirmDialog { title: r.title, ..self }),
            *final(r.open) == *final(self.open),
            r.title@ == title@,
    {
        ConfirmDialog { title: String::from_str(title), ..self }
    }

    pub fn description(self, description: &str) -> (r: Self)
        ensures
            r == (ConfirmDialog { description: r.description, ..self }),
            *final(r.open) == *final(self.open),
            r.description@ == description@,
    {
        ConfirmDialog { description: String::from_str(description), ..self }
    }

    pub fn confirm_label(self, confirm_label: &str) -> (r: Self)
        ensures
            r == (ConfirmDialog { confirm_label: r.confirm_label, ..self }),
            *final(r.open) == *final(self.open),
            r.confirm_label@ == confirm_label@,
    {
        ConfirmDialog { confirm_label: String::from_str(confirm_label), ..self }
    }

    pub fn cancel_label(self, cancel_label: &str) -> (r: Self)
        ensures
            r == (ConfirmDialog { cancel_label: r.cancel_label, ..self }),
            *final(r.open) == *final(self.open),
            r.cancel_label@ == cancel_label@,
    {
        ConfirmDialog { cancel_label: String::from_str(cancel_label), ..self }
    }

    pub fn intent(self, intent: Intent) -> (r: Self)
        ensures
            r == (ConfirmDialog { intent, ..self }),
            *final(r.open) == *final(self.open),
    {
        ConfirmDialog { intent, ..self }
    }

    /// One frame of an open confirmation: an answer closes it; so does
    /// dismissing the modal, without an answer.
    pub fn respond(self, confirm_clicked: bool, cancel_clicked: bool, dismissed: bool) -> (r: Option<ConfirmDialogResponse>)
        ensures
            r == if cancel_clicked {
                Some(ConfirmDialogResponse::Cancelled)
            } else if confirm_clicked {
                Some(ConfirmDialogResponse::Confirmed)
            } else {
                None
            },
            *final(self.open) == (*old(self.open) && !dismissed && r is None),
    {
        let r = confirm_dialog_result(confirm_clicked, cancel_clicked);
        let answered = r.is_some();
        *self.open = dialog_open_after(*self.open, dismissed, answered);
        r
    }
}

/// A panel that slides in from an edge of the screen.
#[derive(Debug)]
pub struct Sheet<'a> {
    pub open: &'a mut bool,
    pub title: Option<String>,
    pub description: Option<String>,
    pub placement: Placement,
    pub closable: bool,
    pub sections: SurfaceSectionStyle,
}

impl<'a> Sheet<'a> {
    /// A closable sheet on the right edge, without header text, with flat
    /// sections.
    pub fn new(open: &'a mut bool) -> (r: Self)
        ensures
            *r.open == *old(open),
            *final(open) == *final(r.open),
            r.title is None,
            r.description is None,
            r.placement == Placement::Right,
            r.closable,
            r.sections == SurfaceSectionStyle::flat_spec(),
    {
        Sheet { open, title: None, description: None, placement: Placement::Right, closable: true, sections: SurfaceSectionStyle::flat() }
    }

    pub fn title(self, title: &str) -> (r: Self)
        ensures
            r == (Sheet { title: r.title, ..self }),
            *final(r.open) == *final(self.open),
            r.title matches Some(t) && t@ == title@,
    {
        Sheet { title: Some(String::from_str(title)), ..self }
    }

    pub fn description(self, description: &str) -> (r: Self)
        ensures
            r == (Sheet { description: r.description, ..self }),
            *final(r.open) == *final(self.open),
            r.description matches Some(d) && d@ == description@,
    {
        Sheet { description: Some(String::from_str(description)), ..self }
    }

    pub fn placement(self, placement: Placement) -> (r: Self)
        ensures
            r == (Sheet { placement, ..self }),
            *final(r.open) == *final(self.open),
    {
        Sheet { placement, ..self }
    }

    pub fn closable(self, closable: bool) -> (r: Self)
        ensures
            r == (Sheet { closable, ..self }),
            *final(r.open) == *final(self.open),
    {
        Sheet { closable, ..self }
    }

    pub fn section_style(self, sections: SurfaceSectionStyle) -> (r: Self)
        ensures
            r == (Sheet { sections, ..self }),
            *final(r.open) == *final(self.open),
    {
        Sheet { sections, ..self }
    }

    pub fn muted_sections(self) -> (r: Self)
        ensures
            r == (Sheet { sections: SurfaceSectionStyle::muted_spec(), ..self }),
            *final(r.open) == *final(self.open),
    {
        Sheet { sections: SurfaceSectionStyle::muted(), ..self }
    }

    /// The end of a frame of an open sheet: a click on the backdrop closes
    /// a closable sheet, and a request from the contents closes any sheet.
    pub fn finish_frame(self, backdrop_clicked: bool, controller: &SheetController)
        ensures
            *final(self.open) == (*old(self.open) && !(self.closable && backdrop_clicked) && !controller.requested()),
    {
        *self.open = dialog_open_after(*self.open, self.closable && backdrop_clicked, controller.close_requested());
    }
}

} // verus!
