//! Form fields: a label, an optional description, a required marker and a
//! status message around a control.
use vstd::prelude::*;
use crate::foundation::Intent;

verus! {

/// The status line under a field and the intent it is tinted with.
#[derive(Clone, Debug)]
pub struct FormFieldMessage {
    pub intent: Intent,
    pub text: String,
}

/// A labelled form control.
#[derive(Clone, Debug)]
pub struct FormField {
    pub label: String,
    pub description: Option<String>,
    pub message: Option<FormFieldMessage>,
    pub required: bool,
}

impl FormField {
    /// An optional field with a label only.
    pub fn new(label: &str) -> (r: Self)
        ensures
            r.label@ == label@,
            r.description is None,
            r.message is None,
            !r.required,
    {
        FormField { label: String::from_str(label), description: None, message: None, required: false }
    }

    pub fn description(self, description: &str) -> (r: Self)
        ensures
            r == (FormField { description: r.description, ..self }),
            r.description matches Some(d) && d@ == description@,
    {
        FormField { description: Some(String::from_str(description)), ..self }
    }

    /// A status line of the given intent.
    pub fn message(self, intent: Intent, message: &str) -> (r: Self)
        ensures
            r == (FormField { message: r.message, ..self }),
            r.message matches Some(m) && m.intent == intent && m.text@ == message@,
    {
        FormField { message: Some(FormFieldMessage { intent, text: String::from_str(message) }), ..self }
    }

    /// A success message.
    pub fn success(self, message: &str) -> (r: Self)
        ensures
            r == (FormField { message: r.message, ..self }),
            r.message matches Some(m) && m.intent == Intent::Success && m.text@ == message@,
    {
        self.message(Intent::Success, message)
    }

    /// A warning message.
    pub fn warning(self, message: &str) -> (r: Self)
        ensures
            r == (FormField { message: r.message, ..self }),
            r.message matches Some(m) && m.intent == Intent::Warning && m.text@ == message@,
    {
        self.message(Intent::Warning, message)
    }

    /// An error message, drawn as a danger.
    pub fn error(self, message: &str) -> (r: Self)
        ensures
            r == (FormField { message: r.message, ..self }),
            r.message matches Some(m) && m.intent == Intent::Danger && m.text@ == message@,
    {
        self.message(Intent::Danger, message)
    }

    pub fn required(self, required: bool) -> (r: Self)
        ensures
            r == (FormField { required, ..self }),
    {
        FormField { required, ..self }
    }
}

} // verus!
