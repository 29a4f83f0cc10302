//! The gallery application's own state changes: what a palette command
//! does, when the page scrolls back to the top, when the theme follows the
//! system, and how dismissed toasts leave the stack.
use vstd::prelude::*;
use crate::foundation::ThemeMode;
use crate::gallery::shell::{
    SECTION_AGENT_COMPONENTS, SECTION_COMPONENTS, SECTION_FOUNDATIONS, SECTION_THEME_LAB, SECTION_WORKBENCH,
};
use crate::text::str_equal;

verus! {

/// Number of set flags.
pub open spec fn count_true(flags: Seq<bool>) -> nat
    decreases flags.len(),
{
    if flags.len() == 0 {
        0
    } else {
        count_true(flags.drop_last()) + if flags.last() { 1nat } else { 0nat }
    }
}

proof fn lemma_count_true_bound(flags: Seq<bool>)
    ensures
        count_true(flags) <= flags.len(),
    decreases flags.len(),
{
    if flags.len() > 0 {
        lemma_count_true_bound(flags.drop_last());
    }
}

/// Number of ticked rows.
pub fn count_selected(flags: &[bool]) -> (r: usize)
    ensures
        r == count_true(flags@),
{
    let mut n: usize = 0;
    let mut i: usize = 0;
    while i < flags.len()
        invariant
            i <= flags.len(),
            n == count_true(flags@.take(i as int)),
            n <= i,
        decreases flags.len() - i,
    {
        assert(flags@.take(i + 1).drop_last() =~= flags@.take(i as int));
        if flags[i] {
            n = n + 1;
        }
        i = i + 1;
    }
    assert(flags@.take(flags.len() as int) =~= flags@);
    n
}

/// What a palette command does to the theme.
#[derive(Clone, Copy, Debug, PartialEq, Eq, Structural)]
pub enum ThemeChange {
    Unchanged,
    /// The mode was switched between light and dark.
    ModeToggled,
    /// The theme returns to the default seed of the current mode.
    Reset,
}

/// The part of the gallery's state that palette commands act on.
#[derive(Clone, Copy, Debug, PartialEq, Eq, Structural)]
pub struct GalleryNavState {
    pub sidebar_section: usize,
    pub components_nav_open: bool,
    pub lead_exported_count: Option<usize>,
    pub mode: ThemeMode,
    pub follows_system_theme: bool,
}

pub open spec fn other_mode(mode: ThemeMode) -> ThemeMode {
    if mode == ThemeMode::Light {
        ThemeMode::Dark
    } else {
        ThemeMode::Light
    }
}

/// The state after the palette command `action`, and what it does to the
/// theme.
pub open spec fn palette_effect(s: GalleryNavState, action: Seq<char>, selected: Seq<bool>) -> (GalleryNavState, ThemeChange) {
    if action == "open-workspace"@ {
        (GalleryNavState { sidebar_section: SECTION_WORKBENCH, ..s }, ThemeChange::Unchanged)
    } else if action == "show-components"@ {
        (GalleryNavState { sidebar_section: SECTION_COMPONENTS, components_nav_open: true, ..s }, ThemeChange::Unchanged)
    } else if action == "agent-components"@ {
        (GalleryNavState { sidebar_section: SECTION_AGENT_COMPONENTS, ..s }, ThemeChange::Unchanged)
    } else if action == "theme-lab"@ {
        (GalleryNavState { sidebar_section: SECTION_THEME_LAB, ..s }, ThemeChange::Unchanged)
    } else if action == "export-table"@ {
        (GalleryNavState { lead_exported_count: Some(count_true(selected) as usize), ..s }, ThemeChange::Unchanged)
    } else if action == "review-diagnostics"@ {
        (GalleryNavState { sidebar_section: SECTION_FOUNDATIONS, ..s }, ThemeChange::Unchanged)
    } else if action == "toggle-mode"@ {
        (GalleryNavState { mode: other_mode(s.mode), follows_system_theme: false, ..s }, ThemeChange::ModeToggled)
    } else if action == "reset-theme"@ {
        (s, ThemeChange::Reset)
    } else {
        (s, ThemeChange::Unchanged)
    }
}

/// "toggle-mode" switches to the other mode (light becomes dark, dark
/// becomes light), stops following the system theme and touches nothing
/// else; toggling twice gives back the mode the gallery had.
pub proof fn lemma_toggle_mode_switches(s: GalleryNavState, selected: Seq<bool>)
    ensures
        ({
            let (t, change) = palette_effect(s, "toggle-mode"@, selected);
            let (u, _) = palette_effect(t, "toggle-mode"@, selected);
            &&& change == ThemeChange::ModeToggled
            &&& t.mode != s.mode
            &&& !t.follows_system_theme
            &&& t.sidebar_section == s.sidebar_section
            &&& t.components_nav_open == s.components_nav_open
            &&& t.lead_exported_count == s.lead_exported_count
            &&& u.mode == s.mode
        }),
{
    reveal_strlit("toggle-mode");
    reveal_strlit("open-workspace");
    reveal_strlit("show-components");
    reveal_strlit("agent-components");
    reveal_strlit("theme-lab");
    reveal_strlit("export-table");
    reveal_strlit("review-diagnostics");
    assert("toggle-mode"@.len() == 11);
    assert("open-workspace"@.len() == 14 && "show-components"@.len() == 15 && "agent-components"@.len() == 16);
    assert("theme-lab"@.len() == 9 && "export-table"@.len() == 12 && "review-diagnostics"@.len() == 18);
}

impl GalleryNavState {
    /// Runs a palette command: the navigation commands open their section,
    /// "export-table" records how many leads are ticked, "toggle-mode"
    /// switches the mode and stops following the system, "reset-theme"
    /// asks for the default theme; anything else does nothing.
    pub fn apply_command_palette_action(&mut self, action: &str, lead_selected: &[bool]) -> (change: ThemeChange)
        ensures
            (*final(self), change) == palette_effect(*old(self), action@, lead_selected@),
    {
        if str_equal(action, "open-workspace") {
            self.sidebar_section = SECTION_WORKBENCH;
        } else if str_equal(action, "show-components") {
            self.sidebar_section = SECTION_COMPONENTS;
            self.components_nav_open = true;
        } else if str_equal(action, "agent-components") {
            self.sidebar_section = SECTION_AGENT_COMPONENTS;
        } else if str_equal(action, "theme-lab") {
            self.sidebar_section = SECTION_THEME_LAB;
        } else if str_equal(action, "export-table") {
            proof {
                lemma_count_true_bound(lead_selected@);
            }
            self.lead_exported_count = Some(count_selected(lead_selected));
        } else if str_equal(action, "review-diagnostics") {
            self.sidebar_section = SECTION_FOUNDATIONS;
        } else if str_equal(action, "toggle-mode") {
            self.mode = if self.mode == ThemeMode::Light { ThemeMode::Dark } else { ThemeMode::Light };
            self.follows_system_theme = false;
            return ThemeChange::ModeToggled;
        } else if str_equal(action, "reset-theme") {
            return ThemeChange::Reset;
        }
        ThemeChange::Unchanged
    }

    /// While the gallery follows the system theme, a different system mode
    /// is taken over; reports whether the mode changed.
    pub fn follow_system_mode(&mut self, system: ThemeMode) -> (changed: bool)
        ensures
            changed == (old(self).follows_system_theme && system != old(self).mode),
            final(self).mode == if changed { system } else { old(self).mode },
            *final(self) == (GalleryNavState { mode: final(self).mode, ..*old(self) }),
    {
        if self.follows_system_theme && system != self.mode {
            self.mode = system;
            true
        } else {
            false
        }
    }
}

/// The scroll position of the main page belongs to a section and, on the
/// component page, to its tab.
pub fn scroll_route(section: usize, component_tab: usize) -> (r: (usize, usize))
    ensures
        r == (section, if section == SECTION_COMPONENTS { component_tab } else { 0 }),
{
    (section, if section == SECTION_COMPONENTS { component_tab } else { 0 })
}

/// Records the route drawn this frame; the page scrolls back to the top
/// when it differs from the last one.
pub fn take_scroll_reset(last: &mut Option<(usize, usize)>, route: (usize, usize)) -> (reset: bool)
    ensures
        reset == (*old(last) != Some(route)),
        *final(last) == Some(route),
{
    let reset = match *last {
        Some(previous) => previous.0 != route.0 || previous.1 != route.1,
        None => true,
    };
    *last = Some(route);
    reset
}

/// The toasts left after removing the entries at `indices`, last index
/// first.
pub open spec fn remove_in_reverse<T>(toasts: Seq<T>, indices: Seq<usize>) -> Seq<T>
    decreases indices.len(),
{
    if indices.len() == 0 {
        toasts
    } else {
        remove_in_reverse(toasts.remove(indices.last() as int), indices.drop_last())
    }
}

/// Every removal, last index first, finds its entry.
pub open spec fn removals_in_range<T>(toasts: Seq<T>, indices: Seq<usize>) -> bool
    decreases indices.len(),
{
    indices.len() == 0 || (indices.last() < toasts.len() && removals_in_range(
        toasts.remove(indices.last() as int),
        indices.drop_last(),
    ))
}

/// Removes the dismissed toasts, last index first; reports whether any
/// toast is left.
pub fn dismiss_toasts<T>(toasts: &mut Vec<T>, dismissed: &[usize]) -> (any_left: bool)
    requires
        removals_in_range(old(toasts)@, dismissed@),
    ensures
        final(toasts)@ == remove_in_reverse(old(toasts)@, dismissed@),
        any_left == (final(toasts)@.len() > 0),
{
    let ghost original = toasts@;
    let mut k: usize = dismissed.len();
    assert(dismissed@.take(k as int) =~= dismissed@);
    while k > 0
        invariant
            k <= dismissed.len(),
            removals_in_range(toasts@, dismissed@.take(k as int)),
            remove_in_reverse(original, dismissed@) == remove_in_reverse(toasts@, dismissed@.take(k as int)),
        decreases k,
    {
        let ghost before = toasts@;
        let index = dismissed[k - 1];
        proof {
            assert(dismissed@.take(k as int).last() == index);
            assert(dismissed@.take(k as int).drop_last() =~= dismissed@.take(k - 1));
        }
        toasts.remove(index);
        k = k - 1;
    }
    assert(dismissed@.take(0) =~= Seq::<usize>::empty());
    toasts.len() > 0
}

/// The entries of `s` whose positions are not in `gone`, in order.
pub open spec fn keep_unlisted<T>(s: Seq<T>, gone: Set<int>) -> Seq<T>
    decreases s.len(),
{
    if s.len() == 0 {
        Seq::empty()
    } else {
        let prev = keep_unlisted(s.drop_last(), gone);
        if gone.contains(s.len() - 1) {
            prev
        } else {
            prev.push(s.last())
        }
    }
}

/// Strictly increasing indices.
pub open spec fn increasing(indices: Seq<usize>) -> bool {
    forall|i: int, j: int| 0 <= i < j < indices.len() ==> indices[i] < indices[j]
}

/// The positions listed in `indices`.
pub open spec fn listed(indices: Seq<usize>) -> Set<int> {
    Set::new(|i: int| exists|k: int| 0 <= k < indices.len() && indices[k] as int == i)
}

proof fn lemma_keep_same_within<T>(s: Seq<T>, a: Set<int>, b: Set<int>)
    requires
        forall|i: int| 0 <= i < s.len() ==> (a.contains(i) <==> b.contains(i)),
    ensures
        keep_unlisted(s, a) == keep_unlisted(s, b),
    decreases s.len(),
{
    if s.len() > 0 {
        lemma_keep_same_within(s.drop_last(), a, b);
    }
}

proof fn lemma_keep_after_remove<T>(s: Seq<T>, gone: Set<int>, m: int)
    requires
        0 <= m < s.len(),
        forall|g: int| gone.contains(g) ==> g < m,
    ensures
        keep_unlisted(s.remove(m), gone) == keep_unlisted(s, gone.insert(m)),
    decreases s.len(),
{
    let n = s.len() as int;
    if m == n - 1 {
        assert(s.remove(m) =~= s.drop_last());
        lemma_keep_same_within(s.drop_last(), gone, gone.insert(m));
    } else {
        let r = s.remove(m);
        assert(r.drop_last() =~= s.drop_last().remove(m));
        assert(r.last() == s.last());
        lemma_keep_after_remove(s.drop_last(), gone, m);
        assert(!gone.contains(n - 2));
        assert(!gone.insert(m).contains(n - 1));
    }
}

/// Dismissing toasts at strictly increasing positions inside the stack,
/// last one first, removes exactly the toasts at those positions and keeps
/// the others in order.
pub proof fn lemma_dismiss_sorted_removes_listed<T>(toasts: Seq<T>, indices: Seq<usize>)
    requires
        increasing(indices),
        forall|k: int| 0 <= k < indices.len() ==> #[trigger] indices[k] < toasts.len(),
    ensures
        removals_in_range(toasts, indices),
        remove_in_reverse(toasts, indices) == keep_unlisted(toasts, listed(indices)),
    decreases indices.len(),
{
    if indices.len() == 0 {
        lemma_keep_same_within(toasts, listed(indices), Set::empty());
        lemma_keep_nothing(toasts);
    } else {
        let m = indices.last() as int;
        let rest = indices.drop_last();
        let t = toasts.remove(m);
        assert forall|k: int| 0 <= k < rest.len() implies #[trigger] rest[k] < t.len() by {
            assert(indices[k] < indices[indices.len() - 1]);
        }
        assert(increasing(rest));
        lemma_dismiss_sorted_removes_listed(t, rest);
        assert forall|g: int| listed(rest).contains(g) implies g < m by {
            let k = choose|k: int| 0 <= k < rest.len() && rest[k] as int == g;
            assert(indices[k] < indices[indices.len() - 1]);
        }
        lemma_keep_after_remove(toasts, listed(rest), m);
        assert forall|i: int| 0 <= i < toasts.len() implies (listed(rest).insert(m).contains(i) <==> listed(indices).contains(i)) by {
            if listed(indices).contains(i) {
                let k = choose|k: int| 0 <= k < indices.len() && indices[k] as int == i;
                if k < indices.len() - 1 {
                    assert(rest[k] as int == i);
                }
            }
            if listed(rest).contains(i) {
                let k = choose|k: int| 0 <= k < rest.len() && rest[k] as int == i;
                assert(indices[k] as int == i);
            }
            if i == m {
                assert(indices[indices.len() - 1] as int == i);
            }
        }
        lemma_keep_same_within(toasts, listed(rest).insert(m), listed(indices));
    }
}

proof fn lemma_keep_nothing<T>(s: Seq<T>)
    ensures
        keep_unlisted(s, Set::empty()) == s,
    decreases s.len(),
{
    if s.len() > 0 {
        lemma_keep_nothing(s.drop_last());
        assert(s.drop_last().push(s.last()) =~= s);
    }
}

} // verus!
