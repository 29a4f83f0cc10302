//! The "Related activity" panel of the gallery: three groups of recent
//! events shown in an accordion.
use vstd::prelude::*;
use crate::foundation::Intent;

verus! {

/// One event row of the panel.
#[derive(Clone, Copy, Debug)]
pub struct ActivityEvent {
    pub title: &'static str,
    pub detail: &'static str,
    pub status: &'static str,
    pub intent: Intent,
}

/// What an event row shows: title, detail, status and intent.
pub open spec fn event_view(e: ActivityEvent) -> (Seq<char>, Seq<char>, Seq<char>, Intent) {
    (e.title@, e.detail@, e.status@, e.intent)
}

/// The events of each accordion group: the current run, the review queue,
/// and (for any other group) the checks.
pub open spec fn activity_table(group: usize) -> Seq<(Seq<char>, Seq<char>, Seq<char>, Intent)> {
    if group == 0 {
        seq![
            ("Model planning"@, "4 tool calls queued"@, "Active"@, Intent::Info),
            ("Patch review"@, "2 files changed"@, "Ready"@, Intent::Primary),
            ("Gallery smoke"@, "Last run passed"@, "Done"@, Intent::Success),
        ]
    } else if group == 1 {
        seq![
            ("Component API"@, "Disclosure and accordion"@, "Open"@, Intent::Info),
            ("Visual review"@, "Badge density accepted"@, "Done"@, Intent::Success),
            ("Table polish"@, "Selection cells centered"@, "Done"@, Intent::Success),
        ]
    } else {
        seq![
            ("Unit tests"@, "cast-ui passed"@, "Done"@, Intent::Success),
            ("Gallery build"@, "cast-gallery built"@, "Done"@, Intent::Success),
            ("Formatting"@, "cargo fmt clean"@, "Done"@, Intent::Success),
        ]
    }
}

fn event(title: &'static str, detail: &'static str, status: &'static str, intent: Intent) -> (r: ActivityEvent)
    ensures
        r == (ActivityEvent { title, detail, status, intent }),
{
    ActivityEvent { title, detail, status, intent }
}

/// The three events of accordion group `group`.
pub fn activity_events(group: usize) -> (r: [ActivityEvent; 3])
    ensures
        r@.map_values(|e: ActivityEvent| event_view(e)) == activity_table(group),
{
    let r = match group {
        0 => [
            event("Model planning", "4 tool calls queued", "Active", Intent::Info),
            event("Patch review", "2 files changed", "Ready", Intent::Primary),
            event("Gallery smoke", "Last run passed", "Done", Intent::Success),
        ],
        1 => [
            event("Component API", "Disclosure and accordion", "Open", Intent::Info),
            event("Visual review", "Badge density accepted", "Done", Intent::Success),
            event("Table polish", "Selection cells centered", "Done", Intent::Success),
        ],
        _ => [
            event("Unit tests", "cast-ui passed", "Done", Intent::Success),
            event("Gallery build", "cast-gallery built", "Done", Intent::Success),
            event("Formatting", "cargo fmt clean", "Done", Intent::Success),
        ],
    };
    assert(r@.map_values(|e: ActivityEvent| event_view(e)) =~= activity_table(group));
    r
}

} // verus!
