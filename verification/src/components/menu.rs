//! Menus: drop-downs, selects, searchable combo boxes and menu items.
use vstd::prelude::*;
use crate::foundation::{Intent, Size};
use crate::text::{
    chars_of, contains_chars, contains_seq, normalize_query, search_key, str_views,
    string_views, strings_from, to_lowercase, trim_seq, unicode_lowercase,
};

verus! {

/// A drop-down that selects one of `labels` into a shared index.
#[derive(Debug)]
pub struct Dropdown<'a> {
    pub selected: &'a mut usize,
    pub labels: Vec<String>,
    pub placeholder: String,
    pub size: Option<Size>,
    pub enabled: bool,
}

/// The text a closed drop-down shows: the selected label, or the
/// placeholder when the index is out of range.
pub open spec fn shown_label(labels: Seq<Seq<char>>, selected: usize, placeholder: Seq<char>) -> Seq<char> {
    if selected < labels.len() {
        labels[selected as int]
    } else {
        placeholder
    }
}

fn pick_label<'b>(labels: &'b Vec<String>, selected: usize, placeholder: &'b String) -> (r: &'b str)
    ensures
        r@ == shown_label(string_views(labels@), selected, placeholder@),
{
    if selected < labels.len() {
        labels[selected].as_str()
    } else {
        placeholder.as_str()
    }
}

impl<'a> Dropdown<'a> {
    /// A drop-down over `labels` with the placeholder "Select", no size of
    /// its own, enabled.
    pub fn new(selected: &'a mut usize, labels: &[&str]) -> (r: Self)
        ensures
            *r.selected == *old(selected),
            *final(selected) == *final(r.selected),
            string_views(r.labels@) == str_views(labels@),
            r.placeholder@ == "Select"@,
            r.size is None,
            r.enabled,
    {
        Dropdown {
            selected,
            labels: strings_from(labels),
            placeholder: String::from_str("Select"),
            size: None,
            enabled: true,
        }
    }

    pub fn placeholder(self, placeholder: &str) -> (r: Self)
        ensures
            r.selected == self.selected,
            *final(r.selected) == *final(self.selected),
            r.labels == self.labels,
            r.placeholder@ == placeholder@,
            r.size == self.size,
            r.enabled == self.enabled,
    {
        Dropdown { placeholder: String::from_str(placeholder), ..self }
    }

    pub fn size(self, size: Size) -> (r: Self)
        ensures
            r.selected == self.selected,
            *final(r.selected) == *final(self.selected),
            r.labels == self.labels,
            r.placeholder == self.placeholder,
            r.size == Some(size),
            r.enabled == self.enabled,
    {
        Dropdown { size: Some(size), ..self }
    }

    pub fn enabled(self, enabled: bool) -> (r: Self)
        ensures
            r.selected == self.selected,
            *final(r.selected) == *final(self.selected),
            r.labels == self.labels,
            r.placeholder == self.placeholder,
            r.size == self.size,
            r.enabled == enabled,
    {
        Dropdown { enabled, ..self }
    }

    pub fn disabled(self) -> (r: Self)
        ensures
            r.selected == self.selected,
            *final(r.selected) == *final(self.selected),
            r.labels == self.labels,
            r.placeholder == self.placeholder,
            r.size == self.size,
            !r.enabled,
    {
        Dropdown { enabled: false, ..self }
    }

    /// The text of the closed drop-down.
    pub fn trigger_label(&self) -> (r: &str)
        ensures
            r@ == shown_label(string_views(self.labels@), *old(self.selected), self.placeholder@),
    {
        pick_label(&self.labels, *self.selected, &self.placeholder)
    }

    /// A click on the option at `index`: on an enabled drop-down it becomes
    /// the selection; a disabled one opens no options, so nothing changes.
    /// Reports whether the selection changed.
    pub fn pick(self, index: usize) -> (changed: bool)
        ensures
            changed == (self.enabled && *old(self.selected) != index),
            *final(self.selected) == if self.enabled { index } else { *old(self.selected) },
    {
        if self.enabled && *self.selected != index {
            *self.selected = index;
            true
        } else {
            false
        }
    }
}

/// A select: a drop-down under another name.
#[derive(Debug)]
pub struct Select<'a> {
    pub inner: Dropdown<'a>,
}

impl<'a> Select<'a> {
    pub fn new(selected: &'a mut usize, labels: &[&str]) -> (r: Self)
        ensures
            *r.inner.selected == *old(selected),
            *final(selected) == *final(r.inner.selected),
            string_views(r.inner.labels@) == str_views(labels@),
            r.inner.placeholder@ == "Select"@,
            r.inner.size is None,
            r.inner.enabled,
    {
        Select { inner: Dropdown::new(selected, labels) }
    }

    pub fn placeholder(self, placeholder: &str) -> (r: Self)
        ensures
            r.inner.selected == self.inner.selected,
            *final(r.inner.selected) == *final(self.inner.selected),
            r.inner.labels == self.inner.labels,
            r.inner.placeholder@ == placeholder@,
            r.inner.size == self.inner.size,
            r.inner.enabled == self.inner.enabled,
    {
        Select { inner: self.inner.placeholder(placeholder) }
    }

    pub fn size(self, size: Size) -> (r: Self)
        ensures
            r.inner.selected == self.inner.selected,
            *final(r.inner.selected) == *final(self.inner.selected),
            r.inner.labels == self.inner.labels,
            r.inner.placeholder == self.inner.placeholder,
            r.inner.size == Some(size),
            r.inner.enabled == self.inner.enabled,
    {
        Select { inner: self.inner.size(size) }
    }

    pub fn enabled(self, enabled: bool) -> (r: Self)
        ensures
            r.inner.selected == self.inner.selected,
            *final(r.inner.selected) == *final(self.inner.selected),
            r.inner.labels == self.inner.labels,
            r.inner.placeholder == self.inner.placeholder,
            r.inner.size == self.inner.size,
            r.inner.enabled == enabled,
    {
        Select { inner: self.inner.enabled(enabled) }
    }

    pub fn disabled(self) -> (r: Self)
        ensures
            r.inner.selected == self.inner.selected,
            *final(r.inner.selected) == *final(self.inner.selected),
            r.inner.labels == self.inner.labels,
            r.inner.placeholder == self.inner.placeholder,
            r.inner.size == self.inner.size,
            !r.inner.enabled,
    {
        Select { inner: self.inner.disabled() }
    }
}

/// A drop-down with a search field that narrows its options.
#[derive(Debug)]
pub struct Combobox<'a> {
    pub selected: &'a mut usize,
    pub query: &'a mut String,
    pub labels: Vec<String>,
    pub placeholder: String,
    pub search_hint: String,
    pub size: Option<Size>,
    pub enabled: bool,
    pub clear_query_on_select: bool,
}

impl<'a> Combobox<'a> {
    /// A combo box with the placeholder "Select" and the search hint
    /// "Search options", enabled, clearing the query after a choice.
    pub fn new(selected: &'a mut usize, query: &'a mut String, labels: &[&str]) -> (r: Self)
        ensures
            *r.selected == *old(selected),
            *final(selected) == *final(r.selected),
            *r.query == *old(query),
            *final(query) == *final(r.query),
            string_views(r.labels@) == str_views(labels@),
            r.placeholder@ == "Select"@,
            r.search_hint@ == "Search options"@,
            r.size is None,
            r.enabled,
            r.clear_query_on_select,
    {
        Combobox {
            selected,
            query,
            labels: strings_from(labels),
            placeholder: String::from_str("Select"),
            search_hint: String::from_str("Search options"),
            size: None,
            enabled: true,
            clear_query_on_select: true,
        }
    }

    pub fn placeholder(self, placeholder: &str) -> (r: Self)
        ensures
            r == (Combobox { placeholder: r.placeholder, ..self }),
            *final(r.selected) == *final(self.selected),
            *final(r.query) == *final(self.query),
            r.placeholder@ == placeholder@,
    {
        Combobox { placeholder: String::from_str(placeholder), ..self }
    }

    pub fn search_hint(self, search_hint: &str) -> (r: Self)
        ensures
            r == (Combobox { search_hint: r.search_hint, ..self }),
            *final(r.selected) == *final(self.selected),
            *final(r.query) == *final(self.query),
            r.search_hint@ == search_hint@,
    {
        Combobox { search_hint: String::from_str(search_hint), ..self }
    }

    pub fn size(self, size: Size) -> (r: Self)
        ensures
            r == (Combobox { size: Some(size), ..self }),
            *final(r.selected) == *final(self.selected),
            *final(r.query) == *final(self.query),
    {
        Combobox { size: Some(size), ..self }
    }

    pub fn enabled(self, enabled: bool) -> (r: Self)
        ensures
            r == (Combobox { enabled, ..self }),
            *final(r.selected) == *final(self.selected),
            *final(r.query) == *final(self.query),
    {
        Combobox { enabled, ..self }
    }

    pub fn disabled(self) -> (r: Self)
        ensures
            r == (Combobox { enabled: false, ..self }),
            *final(r.selected) == *final(self.selected),
            *final(r.query) == *final(self.query),
    {
        Combobox { enabled: false, ..self }
    }

    pub fn clear_query_on_select(self, clear: bool) -> (r: Self)
        ensures
            r == (Combobox { clear_query_on_select: clear, ..self }),
            *final(r.selected) == *final(self.selected),
            *final(r.query) == *final(self.query),
    {
        Combobox { clear_query_on_select: clear, ..self }
    }

    /// The text of the closed combo box.
    pub fn trigger_label(&self) -> (r: &str)
        ensures
            r@ == shown_label(string_views(self.labels@), *old(self.selected), self.placeholder@),
    {
        pick_label(&self.labels, *self.selected, &self.placeholder)
    }

    /// The options that the current query leaves, by index.
    pub fn visible_options(&self) -> (r: Vec<usize>)
        ensures
            r@ == matching_positions(lowered_views(self.labels@), search_key(old(self.query)@)),
            trim_seq(old(self.query)@).len() == 0 ==> r@ == Seq::new(self.labels@.len(), |i: int| i as usize),
    {
        combobox_matches(&self.labels, self.query.as_str())
    }

    /// A click on the option at `index`: on an enabled box a new choice
    /// becomes the selection and, where the box is set to, empties the
    /// query; a disabled box opens no options, so nothing changes. Reports
    /// whether the selection changed.
    pub fn pick(self, index: usize) -> (changed: bool)
        ensures
            changed == (self.enabled && *old(self.selected) != index),
            *final(self.selected) == if changed { index } else { *old(self.selected) },
            final(self.query)@ == if changed && self.clear_query_on_select {
                Seq::<char>::empty()
            } else {
                old(self.query)@
            },
    {
        if self.enabled && *self.selected != index {
            *self.selected = index;
            if self.clear_query_on_select {
                *self.query = String::new();
            }
            true
        } else {
            false
        }
    }
}

/// An option is shown for a query: the query is empty or occurs in the
/// lower-cased label.
pub open spec fn option_matches(lowered_label: Seq<char>, normalized_query: Seq<char>) -> bool {
    normalized_query.len() == 0 || contains_seq(lowered_label, normalized_query)
}

/// The positions, in increasing order, of the lower-cased labels that the
/// normalized query matches.
pub open spec fn matching_positions(lowered: Seq<Seq<char>>, normalized_query: Seq<char>) -> Seq<usize>
    decreases lowered.len(),
{
    if lowered.len() == 0 {
        Seq::empty()
    } else {
        let prev = matching_positions(lowered.drop_last(), normalized_query);
        if option_matches(lowered.last(), normalized_query) {
            prev.push((lowered.len() - 1) as usize)
        } else {
            prev
        }
    }
}

/// The labels as `str::to_lowercase` maps them.
pub open spec fn lowered_views(labels: Seq<String>) -> Seq<Seq<char>> {
    labels.map_values(|l: String| unicode_lowercase(l@))
}

/// The indices of the already lower-cased labels that the normalized query
/// matches, in order.
pub fn matching_indices(lowered_labels: &[String], normalized_query: &str) -> (r: Vec<usize>)
    ensures
        r@ == matching_positions(string_views(lowered_labels@), normalized_query@),
{
    let q = chars_of(normalized_query);
    let mut out: Vec<usize> = Vec::new();
    let mut i: usize = 0;
    while i < lowered_labels.len()
        invariant
            i <= lowered_labels.len(),
            q@ == normalized_query@,
            out@ == matching_positions(string_views(lowered_labels@).take(i as int), q@),
        decreases lowered_labels.len() - i,
    {
        let label = chars_of(lowered_labels[i].as_str());
        let hit = q.len() == 0 || contains_chars(&label, &q);
        proof {
            let views = string_views(lowered_labels@);
            assert(views.take(i + 1).drop_last() =~= views.take(i as int));
            assert(views.take(i + 1).last() == lowered_labels@[i as int]@);
        }
        if hit {
            out.push(i);
        }
        i = i + 1;
    }
    assert(string_views(lowered_labels@).take(lowered_labels.len() as int) =~= string_views(
        lowered_labels@,
    ));
    out
}

/// The indices of the labels that a search query matches: the query is
/// trimmed and lower-cased, every label is lower-cased, and a label is kept
/// when the query is empty or occurs in it.
pub fn combobox_matches(labels: &[String], query: &str) -> (r: Vec<usize>)
    ensures
        r@ == matching_positions(lowered_views(labels@), search_key(query@)),
        trim_seq(query@).len() == 0 ==> r@ == Seq::new(labels@.len(), |i: int| i as usize),
{
    let normalized = normalize_query(query);
    proof {
        if trim_seq(query@).len() == 0 {
            assert(labels@.len() == labels.len());
            assert(lowered_views(labels@).len() == labels@.len());
            lemma_empty_query_lists_all(lowered_views(labels@));
            assert(search_key(query@) =~= Seq::<char>::empty());
        }
    }
    let mut lowered: Vec<String> = Vec::new();
    let mut i: usize = 0;
    while i < labels.len()
        invariant
            i <= labels.len(),
            lowered.len() == i,
            forall|j: int| 0 <= j < i ==> #[trigger] lowered@[j]@ == unicode_lowercase(labels@[j]@),
        decreases labels.len() - i,
    {
        lowered.push(to_lowercase(labels[i].as_str()));
        i = i + 1;
    }
    assert(string_views(lowered@) =~= lowered_views(labels@));
    matching_indices(lowered.as_slice(), normalized.as_str())
}

/// An entry of a menu.
#[derive(Clone, Debug)]
pub struct MenuItem {
    pub label: String,
    pub intent: Intent,
    pub selected: bool,
    pub enabled: bool,
    pub size: Size,
}

impl MenuItem {
    /// A neutral, unselected, enabled, medium item.
    pub fn new(label: &str) -> (r: Self)
        ensures
            r.label@ == label@,
            r.intent == Intent::Neutral,
            !r.selected,
            r.enabled,
            r.size == Size::Medium,
    {
        MenuItem { label: String::from_str(label), intent: Intent::Neutral, selected: false, enabled: true, size: Size::Medium }
    }

    pub fn intent(self, intent: Intent) -> (r: Self)
        ensures
            r == (MenuItem { intent, ..self }),
    {
        MenuItem { intent, ..self }
    }

    pub fn selected(self, selected: bool) -> (r: Self)
        ensures
            r == (MenuItem { selected, ..self }),
    {
        MenuItem { selected, ..self }
    }

    pub fn enabled(self, enabled: bool) -> (r: Self)
        ensures
            r == (MenuItem { enabled, ..self }),
    {
        MenuItem { enabled, ..self }
    }

    pub fn disabled(self) -> (r: Self)
        ensures
            r == (MenuItem { enabled: false, ..self }),
    {
        MenuItem { enabled: false, ..self }
    }

    pub fn size(self, size: Size) -> (r: Self)
        ensures
            r == (MenuItem { size, ..self }),
    {
        MenuItem { size, ..self }
    }
}

/// The combo box lists exactly the options that the normalized query
/// matches, each once, in their order.
pub proof fn lemma_matching_positions_exact(lowered: Seq<Seq<char>>, q: Seq<char>)
    requires
        lowered.len() <= usize::MAX,
    ensures
        forall|i: int| 0 <= i < matching_positions(lowered, q).len() ==> {
            &&& (#[trigger] matching_positions(lowered, q)[i]) < lowered.len()
            &&& option_matches(lowered[matching_positions(lowered, q)[i] as int], q)
        },
        forall|i: int, j: int| 0 <= i < j < matching_positions(lowered, q).len() ==> (#[trigger] matching_positions(lowered, q)[i]) < (#[trigger] matching_positions(lowered, q)[j]),
        forall|k: int| 0 <= k < lowered.len() && option_matches(#[trigger] lowered[k], q) ==> matching_positions(lowered, q).contains(k as usize),
    decreases lowered.len(),
{
    if lowered.len() > 0 {
        let prev = lowered.drop_last();
        lemma_matching_positions_exact(prev, q);
        let r = matching_positions(lowered, q);
        let pr = matching_positions(prev, q);
        assert forall|k: int| 0 <= k < lowered.len() && option_matches(#[trigger] lowered[k], q) implies r.contains(k as usize) by {
            if k < lowered.len() - 1 {
                assert(prev[k] == lowered[k]);
                let w = choose|w: int| 0 <= w < pr.len() && pr[w] == k as usize;
                assert(r[w] == k as usize);
            } else {
                assert(r[r.len() - 1] == k as usize);
            }
        }
    }
}

/// A search lists an option exactly when the query is blank or occurs,
/// lower-cased, in the option's lower-cased label.
pub proof fn lemma_search_lists_option(labels: Seq<String>, query: Seq<char>, k: int)
    requires
        0 <= k < labels.len(),
        labels.len() <= usize::MAX,
    ensures
        matching_positions(lowered_views(labels), search_key(query)).contains(k as usize)
            <==> (trim_seq(query).len() == 0 || search_key(query).len() == 0
                || contains_seq(unicode_lowercase(labels[k]@), search_key(query))),
{
    let l = lowered_views(labels);
    let q = search_key(query);
    let r = matching_positions(l, q);
    lemma_matching_positions_exact(l, q);
    assert(l[k] == unicode_lowercase(labels[k]@));
    if r.contains(k as usize) {
        let i = choose|i: int| 0 <= i < r.len() && r[i] == k as usize;
        assert(option_matches(l[r[i] as int], q));
    }
}

/// An empty query lists every option.
pub proof fn lemma_empty_query_lists_all(lowered: Seq<Seq<char>>)
    requires
        lowered.len() <= usize::MAX,
    ensures
        matching_positions(lowered, Seq::empty()) == Seq::new(lowered.len(), |i: int| i as usize),
    decreases lowered.len(),
{
    if lowered.len() > 0 {
        lemma_empty_query_lists_all(lowered.drop_last());
        assert(matching_positions(lowered, Seq::empty()) =~= Seq::new(lowered.len(), |i: int| i as usize));
    }
}

} // verus!
