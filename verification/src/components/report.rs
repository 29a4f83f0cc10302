//! Report surfaces that hold text only: metric cards and report sections.
use vstd::prelude::*;
use crate::foundation::Intent;

verus! {

/// A headline number with an optional change and detail line.
#[derive(Clone, Debug)]
pub struct MetricCard {
    pub label: String,
    pub value: String,
    pub delta: Option<String>,
    pub detail: Option<String>,
    pub intent: Intent,
}

impl MetricCard {
    /// A neutral card without change or detail.
    pub fn new(label: &str, value: &str) -> (r: Self)
        ensures
            r.label@ == label@,
            r.value@ == value@,
            r.delta is None,
            r.detail is None,
            r.intent == Intent::Neutral,
    {
        MetricCard { label: String::from_str(label), value: String::from_str(value), delta: None, detail: None, intent: Intent::Neutral }
    }

    /// The change since the last period, tinted with `intent`.
    pub fn delta(self, delta: &str, intent: Intent) -> (r: Self)
        ensures
            r.label == self.label,
            r.value == self.value,
            r.delta matches Some(d) && d@ == delta@,
            r.detail == self.detail,
            r.intent == intent,
    {
        MetricCard { delta: Some(String::from_str(delta)), intent, ..self }
    }

    pub fn detail(self, detail: &str) -> (r: Self)
        ensures
            r.label == self.label,
            r.value == self.value,
            r.delta == self.delta,
            r.detail matches Some(d) && d@ == detail@,
            r.intent == self.intent,
    {
        MetricCard { detail: Some(String::from_str(detail)), ..self }
    }
}

/// A titled section of a report.
#[derive(Clone, Debug)]
pub struct ReportSection {
    pub title: String,
    pub description: Option<String>,
}

impl ReportSection {
    pub fn new(title: &str) -> (r: Self)
        ensures
            r.title@ == title@,
            r.description is None,
    {
        ReportSection { title: String::from_str(title), description: None }
    }

    pub fn description(self, description: &str) -> (r: Self)
        ensures
            r.title == self.title,
            r.description matches Some(d) && d@ == description@,
    {
        ReportSection { description: Some(String::from_str(description)), ..self }
    }
}

} // verus!
