//! Navigation widgets: tabs, segmented controls, navigation lists,
//! breadcrumbs, pagination and sidebar items, with the pagination layout
//! and the selection rules they apply when clicked.
use vstd::prelude::*;
use crate::foundation::Size;
use crate::text::{str_views, string_views, strings_from};

verus! {

/// Selects `index` when it is clicked and not already selected; reports
/// whether the selection changed.
pub fn select_clicked(selected: &mut usize, index: usize, clicked: bool) -> (changed: bool)
    ensures
        changed == (clicked && *old(selected) != index),
        *final(selected) == if changed { index } else { *old(selected) },
{
    if clicked && *selected != index {
        *selected = index;
        true
    } else {
        false
    }
}

/// A row of tabs, one of which is selected.
#[derive(Debug)]
pub struct Tabs<'a> {
    selected: &'a mut usize,
    labels: Vec<String>,
    size: Size,
}

impl<'a> Tabs<'a> {
    pub closed spec fn labels_view(&self) -> Seq<Seq<char>> {
        string_views(self.labels@)
    }

    pub closed spec fn size_view(&self) -> Size {
        self.size
    }

    pub closed spec fn selected_view(&self) -> usize {
        *self.selected
    }

    /// The caller's index that the widget writes to.
    pub closed spec fn selected_ref(&self) -> &'a mut usize {
        self.selected
    }

    /// Once the widget is done with, the caller's index holds the value
    /// the widget left in it.
    pub proof fn lemma_written_back(self)
        requires
            has_resolved(self),
        ensures
            *final(self.selected_ref()) == self.selected_view(),
    {
    }


    /// Tabs with the given labels, medium sized.
    pub fn new(selected: &'a mut usize, labels: &[&str]) -> (r: Self)
        ensures
            r.labels_view() == str_views(labels@),
            r.size_view() == Size::Medium,
            r.selected_view() == *old(selected),
            *final(selected) == *final(r.selected_ref()),
    {
        Tabs { selected, labels: strings_from(labels), size: Size::Medium }
    }

    pub fn size(self, size: Size) -> (r: Self)
        ensures
            r.size_view() == size,
            r.labels_view() == self.labels_view(),
            r.selected_view() == self.selected_view(),
            *final(r.selected_ref()) == *final(self.selected_ref()),
    {
        Tabs { size, ..self }
    }

    /// A click on tab `index`: it becomes the selected one.
    pub fn click(&mut self, index: usize) -> (changed: bool)
        ensures
            changed == (old(self).selected_view() != index),
            final(self).selected_view() == index,
            *final(final(self).selected_ref()) == *final(old(self).selected_ref()),
            final(self).labels_view() == old(self).labels_view(),
            final(self).size_view() == old(self).size_view(),
    {
        select_clicked(self.selected, index, true)
    }

    pub fn labels(&self) -> (r: &Vec<String>)
        ensures
            string_views(r@) == self.labels_view(),
    {
        &self.labels
    }

    pub fn get_size(&self) -> (r: Size)
        ensures
            r == self.size_view(),
    {
        self.size
    }
}

/// A segmented control: a compact group of mutually exclusive options.
#[derive(Debug)]
pub struct SegmentedControl<'a> {
    selected: &'a mut usize,
    labels: Vec<String>,
    size: Size,
}

impl<'a> SegmentedControl<'a> {
    pub closed spec fn labels_view(&self) -> Seq<Seq<char>> {
        string_views(self.labels@)
    }

    pub closed spec fn size_view(&self) -> Size {
        self.size
    }

    pub closed spec fn selected_view(&self) -> usize {
        *self.selected
    }

    /// The caller's index that the widget writes to.
    pub closed spec fn selected_ref(&self) -> &'a mut usize {
        self.selected
    }

    /// Once the widget is done with, the caller's index holds the value
    /// the widget left in it.
    pub proof fn lemma_written_back(self)
        requires
            has_resolved(self),
        ensures
            *final(self.selected_ref()) == self.selected_view(),
    {
    }

    /// A segmented control with the given options, medium sized.
    pub fn new(selected: &'a mut usize, labels: &[&str]) -> (r: Self)
        ensures
            r.labels_view() == str_views(labels@),
            r.size_view() == Size::Medium,
            r.selected_view() == *old(selected),
            *final(selected) == *final(r.selected_ref()),
    {
        SegmentedControl { selected, labels: strings_from(labels), size: Size::Medium }
    }

    pub fn size(self, size: Size) -> (r: Self)
        ensures
            r.size_view() == size,
            r.labels_view() == self.labels_view(),
            r.selected_view() == self.selected_view(),
            *final(r.selected_ref()) == *final(self.selected_ref()),
    {
        SegmentedControl { size, ..self }
    }

    /// A click on option `index`: it becomes the selected one.
    pub fn click(&mut self, index: usize) -> (changed: bool)
        ensures
            changed == (old(self).selected_view() != index),
            final(self).selected_view() == index,
            *final(final(self).selected_ref()) == *final(old(self).selected_ref()),
            final(self).labels_view() == old(self).labels_view(),
            final(self).size_view() == old(self).size_view(),
    {
        select_clicked(self.selected, index, true)
    }

    pub fn labels(&self) -> (r: &Vec<String>)
        ensures
            string_views(r@) == self.labels_view(),
    {
        &self.labels
    }

    pub fn get_size(&self) -> (r: Size)
        ensures
            r == self.size_view(),
    {
        self.size
    }
}

/// A vertical list of navigation entries, one of which is selected.
#[derive(Debug)]
pub struct NavList<'a> {
    selected: &'a mut usize,
    labels: Vec<String>,
    size: Size,
}

impl<'a> NavList<'a> {
    pub closed spec fn labels_view(&self) -> Seq<Seq<char>> {
        string_views(self.labels@)
    }

    pub closed spec fn size_view(&self) -> Size {
        self.size
    }

    pub closed spec fn selected_view(&self) -> usize {
        *self.selected
    }

    /// The caller's index that the widget writes to.
    pub closed spec fn selected_ref(&self) -> &'a mut usize {
        self.selected
    }

    /// Once the widget is done with, the caller's index holds the value
    /// the widget left in it.
    pub proof fn lemma_written_back(self)
        requires
            has_resolved(self),
        ensures
            *final(self.selected_ref()) == self.selected_view(),
    {
    }

    /// A navigation list with the given entries, medium sized.
    pub fn new(selected: &'a mut usize, labels: &[&str]) -> (r: Self)
        ensures
            r.labels_view() == str_views(labels@),
            r.size_view() == Size::Medium,
            r.selected_view() == *old(selected),
            *final(selected) == *final(r.selected_ref()),
    {
        NavList { selected, labels: strings_from(labels), size: Size::Medium }
    }

    pub fn size(self, size: Size) -> (r: Self)
        ensures
            r.size_view() == size,
            r.labels_view() == self.labels_view(),
            r.selected_view() == self.selected_view(),
            *final(r.selected_ref()) == *final(self.selected_ref()),
    {
        NavList { size, ..self }
    }

    /// A click on entry `index`: it becomes the selected one.
    pub fn click(&mut self, index: usize) -> (changed: bool)
        ensures
            changed == (old(self).selected_view() != index),
            final(self).selected_view() == index,
            *final(final(self).selected_ref()) == *final(old(self).selected_ref()),
            final(self).labels_view() == old(self).labels_view(),
            final(self).size_view() == old(self).size_view(),
    {
        select_clicked(self.selected, index, true)
    }

    pub fn labels(&self) -> (r: &Vec<String>)
        ensures
            string_views(r@) == self.labels_view(),
    {
        &self.labels
    }
}

/// A breadcrumb trail; the last item is the current location.
#[derive(Debug)]
pub struct Breadcrumb {
    items: Vec<String>,
    size: Size,
}

impl Breadcrumb {
    pub closed spec fn items_view(&self) -> Seq<Seq<char>> {
        string_views(self.items@)
    }

    pub closed spec fn size_view(&self) -> Size {
        self.size
    }

    /// A breadcrumb trail through `items`, medium sized.
    pub fn new(items: &[&str]) -> (r: Self)
        ensures
            r.items_view() == str_views(items@),
            r.size_view() == Size::Medium,
    {
        Breadcrumb { items: strings_from(items), size: Size::Medium }
    }

    pub fn size(self, size: Size) -> (r: Self)
        ensures
            r.size_view() == size,
            r.items_view() == self.items_view(),
    {
        Breadcrumb { size, ..self }
    }

    /// Whether item `index` is the current location: the last one, drawn
    /// without a separator after it.
    pub fn is_current(&self, index: usize) -> (r: bool)
        ensures
            r == (index + 1 == self.items_view().len()),
    {
        proof {
            assert(self.items_view().len() == self.items@.len());
        }
        index < self.items.len() && index + 1 == self.items.len()
    }

    pub fn items(&self) -> (r: &Vec<String>)
        ensures
            string_views(r@) == self.items_view(),
    {
        &self.items
    }

    pub fn get_size(&self) -> (r: Size)
        ensures
            r == self.size_view(),
    {
        self.size
    }
}

/// One slot of the pagination bar: a page button (0-based) or an ellipsis.
#[derive(Clone, Copy, Debug, PartialEq, Eq, Structural)]
pub enum PaginationItem {
    Page(usize),
    Ellipsis,
}

/// Page buttons for the pages `from..to`.
pub open spec fn page_run(from: int, to: int) -> Seq<PaginationItem> {
    Seq::new(if to > from { (to - from) as nat } else { 0 }, |i: int| PaginationItem::Page((from + i) as usize))
}

/// First page of the window around `current`.
pub open spec fn window_start(current: int) -> int {
    if current - 1 > 1 {
        current - 1
    } else {
        1
    }
}

/// End (exclusive) of the window around `current`.
pub open spec fn window_end(current: int, count: int) -> int {
    if current + 2 < count - 1 {
        current + 2
    } else {
        count - 1
    }
}

/// The pagination bar: every page when there are at most seven, else the
/// first page, a window around `current`, the last page, and an ellipsis
/// wherever pages are left out.
pub open spec fn pagination_layout(current: int, count: int) -> Seq<PaginationItem> {
    if count <= 7 {
        page_run(0, count)
    } else {
        let start = window_start(current);
        let end = window_end(current, count);
        seq![PaginationItem::Page(0)] + (if start > 1 {
            seq![PaginationItem::Ellipsis]
        } else {
            Seq::empty()
        }) + page_run(start, end) + (if end < count - 1 {
            seq![PaginationItem::Ellipsis]
        } else {
            Seq::empty()
        }) + seq![PaginationItem::Page((count - 1) as usize)]
    }
}

/// The slots of the pagination bar for page `current` of `page_count`.
pub fn pagination_items(current: usize, page_count: usize) -> (r: Vec<PaginationItem>)
    requires
        page_count > 7 ==> current + 2 <= usize::MAX,
    ensures
        r@ == pagination_layout(current as int, page_count as int),
{
    if page_count <= 7 {
        let mut items: Vec<PaginationItem> = Vec::new();
        let mut p: usize = 0;
        while p < page_count
            invariant
                p <= page_count,
                items@ == page_run(0, p as int),
            decreases page_count - p,
        {
            items.push(PaginationItem::Page(p));
            p = p + 1;
            assert(items@ =~= page_run(0, p as int));
        }
        return items;
    }
    let mut items: Vec<PaginationItem> = Vec::new();
    let start = if current >= 2 { current - 1 } else { 1 };
    let end = if current + 2 < page_count - 1 { current + 2 } else { page_count - 1 };
    items.push(PaginationItem::Page(0));
    if start > 1 {
        items.push(PaginationItem::Ellipsis);
    }
    let ghost prefix = items@;
    let mut page = start;
    while page < end
        invariant
            start <= end ==> start <= page <= end,
            start > end ==> page == start,
            items@ == prefix + page_run(start as int, page as int),
        decreases end - page,
    {
        items.push(PaginationItem::Page(page));
        page = page + 1;
        assert(items@ =~= prefix + page_run(start as int, page as int));
    }
    assert(page_run(start as int, page as int) =~= page_run(start as int, end as int));
    if end < page_count - 1 {
        items.push(PaginationItem::Ellipsis);
    }
    items.push(PaginationItem::Page(page_count - 1));
    proof {
        let s = window_start(current as int);
        assert(s == start);
        assert(items@ =~= pagination_layout(current as int, page_count as int));
    }
    items
}

/// The bar starts with the first page and ends with the last one.
pub proof fn lemma_pagination_edges(current: int, count: int)
    requires
        0 <= current,
        count >= 1,
    ensures
        pagination_layout(current, count)[0] == PaginationItem::Page(0),
        pagination_layout(current, count).last() == PaginationItem::Page((count - 1) as usize),
{
}

/// The bar never holds more than seven slots.
pub proof fn lemma_pagination_at_most_seven(current: int, count: int)
    requires
        0 <= current,
        count >= 0,
    ensures
        pagination_layout(current, count).len() <= 7,
{
}

/// Every page button names an existing page, and the page buttons appear in
/// strictly increasing order.
pub proof fn lemma_pagination_pages_ordered(current: int, count: int)
    requires
        0 <= current,
        count >= 1,
        count <= usize::MAX,
        current + 2 <= usize::MAX,
    ensures
        forall|i: int|
            0 <= i < pagination_layout(current, count).len() && #[trigger] pagination_layout(
                current,
                count,
            )[i] is Page ==> (pagination_layout(current, count)[i]->Page_0 as int) < count,
        forall|i: int, j: int|
            0 <= i < j < pagination_layout(current, count).len() && #[trigger] pagination_layout(
                current,
                count,
            )[i] is Page && #[trigger] pagination_layout(current, count)[j] is Page
                ==> (pagination_layout(current, count)[i]->Page_0 as int) < (pagination_layout(
                current,
                count,
            )[j]->Page_0 as int),
{
    let s = pagination_layout(current, count);
    if count > 7 {
        let start = window_start(current);
        let end = window_end(current, count);
        let e1: Seq<PaginationItem> = if start > 1 {
            seq![PaginationItem::Ellipsis]
        } else {
            Seq::empty()
        };
        let e2: Seq<PaginationItem> = if end < count - 1 {
            seq![PaginationItem::Ellipsis]
        } else {
            Seq::empty()
        };
        let run = page_run(start, end);
        let a = 1 + e1.len();
        let b = a + run.len();
        let c = b + e2.len();
        assert(s.len() == c + 1);
        assert forall|i: int| 0 <= i < s.len() implies (#[trigger] s[i] is Page ==> (
        s[i]->Page_0 as int) == (if i == 0 {
            0
        } else if a <= i < b {
            start + (i - a)
        } else {
            count - 1
        })) && (s[i] is Ellipsis ==> (a - e1.len() <= i < a || b <= i < c)) by {
            if i == 0 {
            } else if i < a {
            } else if i < b {
                assert(s[i] == run[i - a]);
            } else if i < c {
            } else {
            }
        }
        assert forall|i: int, j: int|
            0 <= i < j < s.len() && #[trigger] s[i] is Page && #[trigger] s[j] is Page implies (
            s[i]->Page_0 as int) < (s[j]->Page_0 as int) by {
            if j == s.len() - 1 {
                if a <= i < b {
                    assert(start + (i - a) < end);
                }
            }
        }
    }
}

/// When `current` names an existing page, its button is on the bar.
pub proof fn lemma_pagination_shows_current(current: int, count: int)
    requires
        0 <= current < count,
        count <= usize::MAX,
    ensures
        exists|i: int|
            0 <= i < pagination_layout(current, count).len() && pagination_layout(current, count)[i]
                == PaginationItem::Page(current as usize),
{
    let s = pagination_layout(current, count);
    if count <= 7 {
        assert(s[current] == PaginationItem::Page(current as usize));
    } else if current == 0 {
        assert(s[0] == PaginationItem::Page(0));
    } else if current == count - 1 {
        assert(s[s.len() - 1] == PaginationItem::Page(current as usize));
    } else {
        let start = window_start(current);
        let e1: Seq<PaginationItem> = if start > 1 {
            seq![PaginationItem::Ellipsis]
        } else {
            Seq::empty()
        };
        let a = 1 + e1.len();
        let k = a + (current - start);
        assert(s[k] == page_run(start, window_end(current, count))[current - start]);
    }
}

/// The pagination control: a page index and the number of pages.
#[derive(Debug)]
pub struct Pagination<'a> {
    page: &'a mut usize,
    page_count: usize,
    size: Size,
}

/// What the user clicked on the pagination bar.
#[derive(Clone, Copy, Debug, PartialEq, Eq, Structural)]
pub enum PaginationClick {
    Previous,
    Page(usize),
    Next,
}

/// The page shown after `click`, starting from page `page` of `count`
/// (the page is first limited to the last one).
pub open spec fn paginate(page: int, count: int, click: PaginationClick) -> int {
    let current = if page < count - 1 {
        page
    } else {
        count - 1
    };
    match click {
        PaginationClick::Previous => if current > 0 {
            current - 1
        } else {
            current
        },
        PaginationClick::Page(index) => index as int,
        PaginationClick::Next => if current + 1 < count {
            current + 1
        } else {
            current
        },
    }
}

impl<'a> Pagination<'a> {
    pub closed spec fn page_view(&self) -> usize {
        *self.page
    }

    /// The caller's page index that the control writes to.
    pub closed spec fn page_ref(&self) -> &'a mut usize {
        self.page
    }

    /// Once the control is done with, the caller's page index holds the
    /// value the control left in it.
    pub proof fn lemma_written_back(self)
        requires
            has_resolved(self),
        ensures
            *final(self.page_ref()) == self.page_view(),
    {
    }

    pub closed spec fn page_count_view(&self) -> usize {
        self.page_count
    }

    pub closed spec fn size_view(&self) -> Size {
        self.size
    }

    /// Pagination over `page_count` pages (at least one), small sized.
    pub fn new(page: &'a mut usize, page_count: usize) -> (r: Self)
        ensures
            r.page_view() == *old(page),
            *final(page) == *final(r.page_ref()),
            r.page_count_view() == if page_count > 1 { page_count } else { 1 },
            r.size_view() == Size::Small,
    {
        let page_count = if page_count > 1 { page_count } else { 1 };
        Pagination { page, page_count, size: Size::Small }
    }

    pub fn size(self, size: Size) -> (r: Self)
        ensures
            r.size_view() == size,
            r.page_view() == self.page_view(),
            *final(r.page_ref()) == *final(self.page_ref()),
            r.page_count_view() == self.page_count_view(),
    {
        Pagination { size, ..self }
    }

    /// The current page, limited to the last one.
    pub fn current(&self) -> (r: usize)
        requires
            self.page_count_view() >= 1,
        ensures
            r == if self.page_view() < self.page_count_view() - 1 { self.page_view() } else {
                (self.page_count_view() - 1) as usize
            },
    {
        if *self.page < self.page_count - 1 {
            *self.page
        } else {
            self.page_count - 1
        }
    }

    /// The bar for the current page.
    pub fn items(&self) -> (r: Vec<PaginationItem>)
        requires
            self.page_count_view() >= 1,
            self.page_count_view() < usize::MAX - 2,
        ensures
            r@ == pagination_layout(
                if self.page_view() < self.page_count_view() - 1 { self.page_view() as int } else {
                    self.page_count_view() - 1
                },
                self.page_count_view() as int,
            ),
    {
        let current = self.current();
        pagination_items(current, self.page_count)
    }

    /// Applies a click: previous and next move one page within range, a page
    /// button jumps to its page.
    pub fn click(&mut self, click: PaginationClick)
        requires
            old(self).page_count_view() >= 1,
        ensures
            final(self).page_view() as int == paginate(
                old(self).page_view() as int,
                old(self).page_count_view() as int,
                click,
            ),
            *final(final(self).page_ref()) == *final(old(self).page_ref()),
            final(self).page_count_view() == old(self).page_count_view(),
            final(self).size_view() == old(self).size_view(),
    {
        let current = self.current();
        *self.page = current;
        match click {
            PaginationClick::Previous => {
                if current > 0 {
                    *self.page = current - 1;
                }
            },
            PaginationClick::Page(index) => {
                select_clicked(self.page, index, true);
            },
            PaginationClick::Next => {
                if current + 1 < self.page_count {
                    *self.page = current + 1;
                }
            },
        }
    }
}

/// An entry of the application sidebar, with an optional badge.
#[derive(Clone, Debug)]
pub struct SidebarItem {
    label: String,
    badge: Option<String>,
}

impl SidebarItem {
    pub closed spec fn label_view(&self) -> Seq<char> {
        self.label@
    }

    pub closed spec fn badge_view(&self) -> Option<Seq<char>> {
        match self.badge {
            Some(b) => Some(b@),
            None => None,
        }
    }

    pub fn new(label: &str) -> (r: Self)
        ensures
            r.label_view() == label@,
            r.badge_view() is None,
    {
        SidebarItem { label: String::from_str(label), badge: None }
    }

    pub fn badge(self, badge: &str) -> (r: Self)
        ensures
            r.label_view() == self.label_view(),
            r.badge_view() == Some(badge@),
    {
        SidebarItem { badge: Some(String::from_str(badge)), ..self }
    }

    pub fn get_label(&self) -> (r: &str)
        ensures
            r@ == self.label_view(),
    {
        self.label.as_str()
    }

    pub fn get_badge(&self) -> (r: Option<&str>)
        ensures
            match r {
                Some(b) => self.badge_view() == Some(b@),
                None => self.badge_view() is None,
            },
    {
        match &self.badge {
            Some(b) => Some(b.as_str()),
            None => None,
        }
    }
}

/// The application sidebar: a titled list of entries, one of which is
/// selected.
#[derive(Debug)]
pub struct Sidebar<'a> {
    pub selected: &'a mut usize,
    pub items: Vec<SidebarItem>,
    pub title: Option<String>,
    pub subtitle: Option<String>,
}

impl<'a> Sidebar<'a> {
    pub fn new(selected: &'a mut usize, items: Vec<SidebarItem>) -> (r: Self)
        ensures
            *r.selected == *old(selected),
            *final(selected) == *final(r.selected),
            r.items == items,
            r.title is None,
            r.subtitle is None,
    {
        Sidebar { selected, items, title: None, subtitle: None }
    }

    pub fn title(self, title: &str) -> (r: Self)
        ensures
            r.selected == self.selected,
            *final(r.selected) == *final(self.selected),
            r.items == self.items,
            r.title matches Some(t) && t@ == title@,
            r.subtitle == self.subtitle,
    {
        Sidebar { title: Some(String::from_str(title)), ..self }
    }

    pub fn subtitle(self, subtitle: &str) -> (r: Self)
        ensures
            r.selected == self.selected,
            *final(r.selected) == *final(self.selected),
            r.items == self.items,
            r.title == self.title,
            r.subtitle matches Some(t) && t@ == subtitle@,
    {
        Sidebar { subtitle: Some(String::from_str(subtitle)), ..self }
    }

    /// A click on the entry at `index` selects it; reports whether the
    /// selection changed.
    pub fn click(self, index: usize) -> (changed: bool)
        ensures
            changed == (*old(self.selected) != index),
            *final(self.selected) == index,
    {
        select_clicked(self.selected, index, true)
    }
}

} // verus!
