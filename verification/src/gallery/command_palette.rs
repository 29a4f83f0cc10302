//! The command palette: a searchable list of gallery commands driven by the
//! keyboard.
use vstd::prelude::*;
use crate::foundation::Intent;
use crate::text::{chars_of, contains_chars, contains_seq, normalize_query, search_key, string_views, to_lowercase, trim_seq, unicode_lowercase};

verus! {

/// One command of the palette.
#[derive(Clone, Copy, Debug)]
pub struct CommandPaletteItem {
    pub id: &'static str,
    pub title: &'static str,
    pub detail: &'static str,
    pub shortcut: &'static str,
    pub intent: Intent,
}

/// Number of commands in the palette.
pub const COMMAND_COUNT: usize = 7;

/// The titles of the palette's commands, in order.
pub open spec fn command_titles() -> Seq<Seq<char>> {
    seq![
        "Open workspace"@,
        "Show components"@,
        "Open theme lab"@,
        "Toggle light or dark mode"@,
        "Export current table"@,
        "Review diagnostics"@,
        "Reset theme overrides"@,
    ]
}

/// The details of the palette's commands, in order.
pub open spec fn command_details() -> Seq<Seq<char>> {
    seq![
        "Jump to the main agent workspace"@,
        "Review primitive Cast widgets"@,
        "Tune tokens and runtime theme values"@,
        "Switch the gallery between theme modes"@,
        "Run the table export action"@,
        "Inspect typography and rendering metrics"@,
        "Return the gallery to its default theme seed"@,
    ]
}

/// The ids of the palette's commands, in order.
pub open spec fn command_ids() -> Seq<Seq<char>> {
    seq![
        "open-workspace"@,
        "show-components"@,
        "theme-lab"@,
        "toggle-mode"@,
        "export-table"@,
        "review-diagnostics"@,
        "reset-theme"@,
    ]
}

fn item(id: &'static str, title: &'static str, detail: &'static str, shortcut: &'static str, intent: Intent) -> (r: CommandPaletteItem)
    ensures
        r == (CommandPaletteItem { id, title, detail, shortcut, intent }),
{
    CommandPaletteItem { id, title, detail, shortcut, intent }
}

/// The palette's commands.
pub fn commands() -> (r: Vec<CommandPaletteItem>)
    ensures
        r@.len() == COMMAND_COUNT,
        forall|i: int| 0 <= i < COMMAND_COUNT ==> {
            &&& (#[trigger] r@[i]).id@ == command_ids()[i]
            &&& r@[i].title@ == command_titles()[i]
            &&& r@[i].detail@ == command_details()[i]
        },
{
    let mut v: Vec<CommandPaletteItem> = Vec::new();
    v.push(item("open-workspace", "Open workspace", "Jump to the main agent workspace", "1", Intent::Primary));
    v.push(item("show-components", "Show components", "Review primitive Cast widgets", "2", Intent::Secondary));
    v.push(item("theme-lab", "Open theme lab", "Tune tokens and runtime theme values", "3", Intent::Info));
    v.push(item("toggle-mode", "Toggle light or dark mode", "Switch the gallery between theme modes", "T", Intent::Neutral));
    v.push(item("export-table", "Export current table", "Run the table export action", "E", Intent::Success));
    v.push(item("review-diagnostics", "Review diagnostics", "Inspect typography and rendering metrics", "D", Intent::Warning));
    v.push(item("reset-theme", "Reset theme overrides", "Return the gallery to its default theme seed", "R", Intent::Danger));
    v
}

/// A command is listed for a query: the query is empty or occurs in its
/// lower-cased title or detail.
pub open spec fn command_matches(title: Seq<char>, detail: Seq<char>, normalized_query: Seq<char>) -> bool {
    normalized_query.len() == 0 || contains_seq(title, normalized_query) || contains_seq(detail, normalized_query)
}

/// The positions, in order, of the commands that a normalized query lists,
/// given their lower-cased titles and details.
pub open spec fn command_positions(titles: Seq<Seq<char>>, details: Seq<Seq<char>>, normalized_query: Seq<char>) -> Seq<usize>
    decreases titles.len(),
{
    if titles.len() == 0 {
        Seq::empty()
    } else {
        let n = titles.len() - 1;
        let prev = command_positions(titles.drop_last(), details.take(n), normalized_query);
        if command_matches(titles.last(), details[n], normalized_query) {
            prev.push(n as usize)
        } else {
            prev
        }
    }
}

/// The lower-cased forms of a sequence of strings.
pub open spec fn lowered(items: Seq<Seq<char>>) -> Seq<Seq<char>> {
    items.map_values(|s: Seq<char>| unicode_lowercase(s))
}

/// The commands listed for an already normalized query, given their
/// lower-cased titles and details.
pub fn matching_commands(lowered_titles: &[String], lowered_details: &[String], normalized_query: &str) -> (r: Vec<usize>)
    requires
        lowered_titles.len() == lowered_details.len(),
    ensures
        r@ == command_positions(string_views(lowered_titles@), string_views(lowered_details@), normalized_query@),
{
    let q = chars_of(normalized_query);
    let ghost titles = string_views(lowered_titles@);
    let ghost details = string_views(lowered_details@);
    let mut out: Vec<usize> = Vec::new();
    let mut i: usize = 0;
    while i < lowered_titles.len()
        invariant
            i <= lowered_titles.len(),
            lowered_titles.len() == lowered_details.len(),
            q@ == normalized_query@,
            titles == string_views(lowered_titles@),
            details == string_views(lowered_details@),
            out@ == command_positions(titles.take(i as int), details.take(i as int), q@),
        decreases lowered_titles.len() - i,
    {
        let t = chars_of(lowered_titles[i].as_str());
        let d = chars_of(lowered_details[i].as_str());
        let hit = q.len() == 0 || contains_chars(&t, &q) || contains_chars(&d, &q);
        proof {
            assert(titles.take(i + 1).drop_last() =~= titles.take(i as int));
            assert(details.take(i + 1).take(i as int) =~= details.take(i as int));
            assert(titles.take(i + 1).last() == lowered_titles@[i as int]@);
            assert(details.take(i + 1)[i as int] == lowered_details@[i as int]@);
        }
        if hit {
            out.push(i);
        }
        i = i + 1;
    }
    assert(titles.take(lowered_titles.len() as int) =~= titles);
    assert(details.take(lowered_titles.len() as int) =~= details);
    out
}

/// The commands that a search query lists: the query is trimmed and
/// lower-cased; a command is kept when the query is empty or occurs in its
/// lower-cased title or detail.
pub fn filtered_command_indices(query: &str) -> (r: Vec<usize>)
    ensures
        r@ == command_positions(lowered(command_titles()), lowered(command_details()), search_key(query@)),
        trim_seq(query@).len() == 0 ==> r@ == Seq::new(COMMAND_COUNT as nat, |i: int| i as usize),
{
    let normalized = normalize_query(query);
    proof {
        if trim_seq(query@).len() == 0 {
            lemma_empty_query_lists_every_command(lowered(command_titles()), lowered(command_details()));
            assert(search_key(query@) =~= Seq::<char>::empty());
        }
    }
    let all = commands();
    let mut titles: Vec<String> = Vec::new();
    let mut details: Vec<String> = Vec::new();
    let mut i: usize = 0;
    while i < all.len()
        invariant
            i <= all.len(),
            all@.len() == COMMAND_COUNT,
            forall|k: int| 0 <= k < COMMAND_COUNT ==> {
                &&& (#[trigger] all@[k]).title@ == command_titles()[k]
                &&& all@[k].detail@ == command_details()[k]
            },
            titles.len() == i,
            details.len() == i,
            forall|j: int| 0 <= j < i ==> #[trigger] titles@[j]@ == unicode_lowercase(command_titles()[j]),
            forall|j: int| 0 <= j < i ==> #[trigger] details@[j]@ == unicode_lowercase(command_details()[j]),
        decreases all.len() - i,
    {
        titles.push(to_lowercase(all[i].title));
        details.push(to_lowercase(all[i].detail));
        i = i + 1;
    }
    assert(string_views(titles@) =~= lowered(command_titles()));
    assert(string_views(details@) =~= lowered(command_details()));
    matching_commands(titles.as_slice(), details.as_slice(), normalized.as_str())
}

/// Keeps the highlighted position inside the list of matches: the last
/// match at most, and zero when nothing matches.
pub fn clamp_selected(selected: &mut usize, match_count: usize)
    ensures
        *final(selected) == if match_count == 0 {
            0
        } else if *old(selected) < match_count {
            *old(selected)
        } else {
            (match_count - 1) as usize
        },
{
    if match_count == 0 {
        *selected = 0;
    } else if *selected >= match_count {
        *selected = match_count - 1;
    }
}

/// The keys pressed in a frame, each without modifiers.
#[derive(Clone, Copy, Debug, PartialEq, Eq, Structural)]
pub struct PaletteKeys {
    pub down: bool,
    pub up: bool,
    pub enter: bool,
}

/// The highlighted position after the arrow keys: down moves to the next
/// match, stopping at the last; up moves to the previous one, stopping at
/// the first.
pub open spec fn after_arrows(selected: int, match_count: int, down: bool, up: bool) -> int {
    let s1 = if down {
        if selected + 1 < match_count - 1 { selected + 1 } else { match_count - 1 }
    } else {
        selected
    };
    if up {
        if s1 > 0 { s1 - 1 } else { 0 }
    } else {
        s1
    }
}

/// One frame of keyboard handling over the listed commands `matches`:
/// with no matches the highlight returns to the top; otherwise the arrows
/// move it and Enter runs the highlighted command.
pub fn handle_palette_keys(selected: &mut usize, matches: &[usize], keys: PaletteKeys, action: &mut Option<&'static str>)
    requires
        forall|i: int| 0 <= i < matches@.len() ==> #[trigger] matches@[i] < COMMAND_COUNT,
        matches@.len() > 0 && keys.down ==> *old(selected) < usize::MAX,
        matches@.len() > 0 && keys.enter ==> after_arrows(*old(selected) as int, matches@.len() as int, keys.down, keys.up)
            < matches@.len(),
    ensures
        matches@.len() == 0 ==> *final(selected) == 0 && *final(action) == *old(action),
        matches@.len() > 0 ==> *final(selected) == after_arrows(*old(selected) as int, matches@.len() as int, keys.down, keys.up),
        matches@.len() > 0 && keys.enter ==> (*final(action) matches Some(id) && id@ == command_ids()[matches@[*final(selected) as int] as int]),
        matches@.len() > 0 && !keys.enter ==> *final(action) == *old(action),
{
    let n = matches.len();
    if n == 0 {
        *selected = 0;
        return;
    }
    if keys.down {
        let next = *selected + 1;
        *selected = if next < n - 1 { next } else { n - 1 };
    }
    if keys.up {
        *selected = if *selected > 0 { *selected - 1 } else { 0 };
    }
    if keys.enter {
        let all = commands();
        *action = Some(all[matches[*selected]].id);
    }
}

/// The palette's state between frames.
#[derive(Debug)]
pub struct CommandPaletteState {
    pub open: bool,
    pub query: String,
    pub selected: usize,
    pub last_action: Option<&'static str>,
}

impl Default for CommandPaletteState {
    fn default() -> (r: Self)
        ensures
            !r.open,
            r.query@.len() == 0,
            r.selected == 0,
            r.last_action is None,
    {
        CommandPaletteState { open: false, query: String::new(), selected: 0, last_action: None }
    }
}

impl CommandPaletteState {
    /// A command ran: it is remembered and the palette closes.
    pub fn record_action(&mut self, action: Option<&'static str>)
        ensures
            final(self).query == old(self).query,
            final(self).selected == old(self).selected,
            action is Some ==> !final(self).open && final(self).last_action == action,
            action is None ==> final(self).open == old(self).open && final(self).last_action == old(self).last_action,
    {
        match action {
            Some(id) => {
                self.last_action = Some(id);
                self.open = false;
            },
            None => {},
        }
    }

    /// A click on the row at `position`, which lists the command at
    /// `command_index`: the row is highlighted, the command runs and the
    /// palette closes. Returns the command's id.
    pub fn click_row(&mut self, position: usize, command_index: usize) -> (id: &'static str)
        requires
            command_index < COMMAND_COUNT,
        ensures
            id@ == command_ids()[command_index as int],
            final(self).selected == position,
            final(self).last_action == Some(id),
            !final(self).open,
            final(self).query == old(self).query,
    {
        let all = commands();
        let id = all[command_index].id;
        self.selected = position;
        self.record_action(Some(id));
        id
    }
}

/// The palette lists exactly the commands that the normalized query
/// matches, each once, in their order.
pub proof fn lemma_command_positions_exact(titles: Seq<Seq<char>>, details: Seq<Seq<char>>, q: Seq<char>)
    requires
        titles.len() == details.len(),
        titles.len() <= usize::MAX,
    ensures
        forall|i: int| 0 <= i < command_positions(titles, details, q).len() ==> {
            &&& (#[trigger] command_positions(titles, details, q)[i]) < titles.len()
            &&& command_matches(
                titles[command_positions(titles, details, q)[i] as int],
                details[command_positions(titles, details, q)[i] as int],
                q,
            )
        },
        forall|i: int, j: int| 0 <= i < j < command_positions(titles, details, q).len() ==> (#[trigger] command_positions(titles, details, q)[i]) < (#[trigger] command_positions(titles, details, q)[j]),
        forall|k: int| 0 <= k < titles.len() && command_matches(#[trigger] titles[k], details[k], q) ==> command_positions(titles, details, q).contains(k as usize),
    decreases titles.len(),
{
    if titles.len() > 0 {
        let n = titles.len() - 1;
        let pt = titles.drop_last();
        let pd = details.take(n);
        lemma_command_positions_exact(pt, pd, q);
        let r = command_positions(titles, details, q);
        let pr = command_positions(pt, pd, q);
        assert forall|i: int| 0 <= i < pr.len() implies (#[trigger] pr[i]) < n && titles[pr[i] as int] == pt[pr[i] as int] && details[pr[i] as int] == pd[pr[i] as int] by {}
        assert forall|k: int| 0 <= k < titles.len() && command_matches(#[trigger] titles[k], details[k], q) implies r.contains(k as usize) by {
            if k < n {
                assert(pt[k] == titles[k]);
                assert(pd[k] == details[k]);
                let w = choose|w: int| 0 <= w < pr.len() && pr[w] == k as usize;
                assert(r[w] == k as usize);
            } else {
                assert(r[r.len() - 1] == k as usize);
            }
        }
    }
}

/// A search lists a command exactly when the query is blank or occurs,
/// lower-cased, in the command's lower-cased title or detail.
pub proof fn lemma_search_lists_command(query: Seq<char>, k: int)
    requires
        0 <= k < COMMAND_COUNT,
    ensures
        command_positions(lowered(command_titles()), lowered(command_details()), search_key(query)).contains(k as usize)
            <==> (trim_seq(query).len() == 0 || search_key(query).len() == 0
                || contains_seq(unicode_lowercase(command_titles()[k]), search_key(query))
                || contains_seq(unicode_lowercase(command_details()[k]), search_key(query))),
{
    let t = lowered(command_titles());
    let d = lowered(command_details());
    let q = search_key(query);
    let r = command_positions(t, d, q);
    lemma_command_positions_exact(t, d, q);
    assert(t[k] == unicode_lowercase(command_titles()[k]));
    assert(d[k] == unicode_lowercase(command_details()[k]));
    if r.contains(k as usize) {
        let i = choose|i: int| 0 <= i < r.len() && r[i] == k as usize;
        assert(command_matches(t[r[i] as int], d[r[i] as int], q));
    }
}

/// An empty query lists every command.
pub proof fn lemma_empty_query_lists_every_command(titles: Seq<Seq<char>>, details: Seq<Seq<char>>)
    requires
        titles.len() == details.len(),
        titles.len() <= usize::MAX,
    ensures
        command_positions(titles, details, Seq::empty()) == Seq::new(titles.len(), |i: int| i as usize),
    decreases titles.len(),
{
    if titles.len() > 0 {
        lemma_empty_query_lists_every_command(titles.drop_last(), details.take(titles.len() - 1));
        assert(command_positions(titles, details, Seq::empty()) =~= Seq::new(titles.len(), |i: int| i as usize));
    }
}

/// Keyboard moves keep the highlight on one of the matches.
pub proof fn lemma_arrows_stay_on_matches(selected: int, match_count: int, down: bool, up: bool)
    requires
        0 <= selected < match_count,
    ensures
        0 <= after_arrows(selected, match_count, down, up) < match_count,
{
}

} // verus!
