//! Alerts and notices: a title with an optional body, tinted by intent.
use vstd::prelude::*;
use crate::foundation::Intent;

verus! {

/// An alert box; informational unless given another intent.
#[derive(Clone, Debug)]
pub struct Alert {
    pub title: String,
    pub body: Option<String>,
    pub intent: Intent,
}

impl Alert {
    pub fn new(title: &str) -> (r: Self)
        ensures
            r.title@ == title@,
            r.body is None,
            r.intent == Intent::Info,
    {
        Alert { title: String::from_str(title), body: None, intent: Intent::Info }
    }

    pub fn body(self, body: &str) -> (r: Self)
        ensures
            r.title == self.title,
            r.body matches Some(b) && b@ == body@,
            r.intent == self.intent,
    {
        Alert { body: Some(String::from_str(body)), ..self }
    }

    pub fn intent(self, intent: Intent) -> (r: Self)
        ensures
            r.title == self.title,
            r.body == self.body,
            r.intent == intent,
    {
        Alert { intent, ..self }
    }
}

/// A notice: an alert that is neutral unless given another intent.
#[derive(Clone, Debug)]
pub struct Notice {
    pub inner: Alert,
}

impl Notice {
    pub fn new(title: &str) -> (r: Self)
        ensures
            r.inner.title@ == title@,
            r.inner.body is None,
            r.inner.intent == Intent::Neutral,
    {
        Notice { inner: Alert::new(title).intent(Intent::Neutral) }
    }

    pub fn body(self, body: &str) -> (r: Self)
        ensures
            r.inner.title == self.inner.title,
            r.inner.body matches Some(b) && b@ == body@,
            r.inner.intent == self.inner.intent,
    {
        Notice { inner: self.inner.body(body) }
    }

    pub fn intent(self, intent: Intent) -> (r: Self)
        ensures
            r.inner.title == self.inner.title,
            r.inner.body == self.inner.body,
            r.inner.intent == intent,
    {
        Notice { inner: self.inner.intent(intent) }
    }
}

} // verus!
