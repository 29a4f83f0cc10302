//! Empty states: what a list or view shows when it has nothing to show.
use vstd::prelude::*;
use crate::foundation::Intent;

verus! {

#[derive(Clone, Debug)]
pub struct EmptyState {
    pub title: String,
    pub body: Option<String>,
    pub icon: Option<String>,
    pub intent: Intent,
}

impl EmptyState {
    pub fn new(title: &str) -> (r: Self)
        ensures
            r.title@ == title@,
            r.body is None,
            r.icon is None,
            r.intent == Intent::Neutral,
    {
        EmptyState { title: String::from_str(title), body: None, icon: None, intent: Intent::Neutral }
    }

    pub fn body(self, body: &str) -> (r: Self)
        ensures
            r.body matches Some(b) && b@ == body@,
            r == (EmptyState { body: r.body, ..self }),
    {
        EmptyState { body: Some(String::from_str(body)), ..self }
    }

    pub fn icon(self, icon: &str) -> (r: Self)
        ensures
            r.icon matches Some(i) && i@ == icon@,
            r == (EmptyState { icon: r.icon, ..self }),
    {
        EmptyState { icon: Some(String::from_str(icon)), ..self }
    }

    pub fn intent(self, intent: Intent) -> (r: Self)
        ensures
            r == (EmptyState { intent, ..self }),
    {
        EmptyState { intent, ..self }
    }
}

} // verus!
