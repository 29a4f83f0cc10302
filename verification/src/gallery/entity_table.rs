//! The lead table: its records, the badge colours of their fields, and the
//! paging, selection and expansion of its rows.
use vstd::prelude::*;
use crate::foundation::Intent;
use crate::text::str_equal;

verus! {

/// One row of the lead table.
#[derive(Clone, Copy, Debug)]
pub struct EntityRecord {
    pub name: &'static str,
    pub status: &'static str,
    pub interest: &'static str,
    pub source: &'static str,
    pub deal_value: &'static str,
    pub payment: &'static str,
    pub assigned_to: &'static str,
    pub interacted: &'static str,
    pub days_ago: u8,
}

pub open spec fn rows_per_page_spec(index: usize) -> usize {
    if index == 1 {
        10
    } else if index == 2 {
        25
    } else {
        5
    }
}

/// The rows a page holds for the rows-per-page choice `index`
/// ("5", "10", "25"); any other index means five.
pub fn rows_per_page_limit(index: usize) -> (r: usize)
    ensures
        r == rows_per_page_spec(index),
{
    match index {
        1 => 10,
        2 => 25,
        _ => 5,
    }
}

pub open spec fn entity_status_intent_spec(status: Seq<char>) -> Intent {
    if status == "Won"@ || status == "Qualified"@ {
        Intent::Success
    } else if status == "Call booked"@ {
        Intent::Info
    } else if status == "Lost"@ || status == "Unqualified"@ || status == "No show"@ {
        Intent::Danger
    } else {
        Intent::Neutral
    }
}

/// The badge colour of a lead status: won and qualified leads succeed,
/// booked calls inform, lost, unqualified and no-show leads are dangers.
pub fn entity_status_intent(status: &str) -> (r: Intent)
    ensures
        r == entity_status_intent_spec(status@),
{
    if str_equal(status, "Won") || str_equal(status, "Qualified") {
        Intent::Success
    } else if str_equal(status, "Call booked") {
        Intent::Info
    } else if str_equal(status, "Lost") || str_equal(status, "Unqualified") || str_equal(status, "No show") {
        Intent::Danger
    } else {
        Intent::Neutral
    }
}

pub open spec fn entity_interest_intent_spec(interest: Seq<char>) -> Intent {
    if interest == "Interested"@ {
        Intent::Primary
    } else if interest == "Achiever"@ {
        Intent::Success
    } else if interest == "Broke"@ {
        Intent::Warning
    } else {
        Intent::Neutral
    }
}

/// The badge colour of a lead's interest.
pub fn entity_interest_intent(interest: &str) -> (r: Intent)
    ensures
        r == entity_interest_intent_spec(interest@),
{
    if str_equal(interest, "Interested") {
        Intent::Primary
    } else if str_equal(interest, "Achiever") {
        Intent::Success
    } else if str_equal(interest, "Broke") {
        Intent::Warning
    } else {
        Intent::Neutral
    }
}

pub open spec fn payment_intent_spec(payment: Seq<char>) -> Intent {
    if payment == "Paid"@ {
        Intent::Success
    } else if payment == "Pending"@ {
        Intent::Warning
    } else {
        Intent::Neutral
    }
}

/// The badge colour of a payment state.
pub fn payment_intent(payment: &str) -> (r: Intent)
    ensures
        r == payment_intent_spec(payment@),
{
    if str_equal(payment, "Paid") {
        Intent::Success
    } else if str_equal(payment, "Pending") {
        Intent::Warning
    } else {
        Intent::Neutral
    }
}

/// Number of pages that `count` rows take at `limit` rows a page: at
/// least one, so that an empty table still shows its first page.
pub open spec fn page_count_spec(count: int, limit: int) -> int {
    let full = (count + limit - 1) / limit;
    if full < 1 {
        1
    } else {
        full
    }
}

/// Which rows of the table a page shows.
#[derive(Clone, Copy, Debug, PartialEq, Eq, Structural)]
pub struct TablePage {
    pub row_limit: usize,
    pub page_count: usize,
    /// Index of the first row shown.
    pub row_offset: usize,
    /// Number of rows shown.
    pub visible_count: usize,
    /// One-based number of the first row shown, zero when none is.
    pub visible_start: usize,
    /// One-based number of the last row shown.
    pub visible_end: usize,
    pub can_next: bool,
    pub can_previous: bool,
}

proof fn lemma_page_bounds(count: int, limit: int, page: int)
    requires
        limit > 0,
        count >= 0,
        0 <= page < page_count_spec(count, limit),
    ensures
        page * limit <= count,
        count > 0 ==> page * limit < count,
        0 <= (count + limit - 1) / limit <= count,
{
    let full = (count + limit - 1) / limit;
    assert(full * limit <= count + limit - 1) by (nonlinear_arith)
        requires
            limit > 0,
            count >= 0,
            full == (count + limit - 1) / limit,
    ;
    assert(0 <= full <= count) by (nonlinear_arith)
        requires
            limit > 0,
            count >= 0,
            full == (count + limit - 1) / limit,
    ;
    if count > 0 {
        assert(full >= 1) by (nonlinear_arith)
            requires
                limit > 0,
                count > 0,
                full == (count + limit - 1) / limit,
        ;
        assert(page <= full - 1);
        assert(page * limit <= (full - 1) * limit) by (nonlinear_arith)
            requires
                page <= full - 1,
                limit > 0,
        ;
        assert((full - 1) * limit == full * limit - limit) by (nonlinear_arith);
    } else {
        assert(full == 0) by (nonlinear_arith)
            requires
                limit > 0,
                full == (count + limit - 1) / limit,
                count == 0,
        ;
        assert(page == 0);
        assert(page * limit == 0) by (nonlinear_arith)
            requires
                page == 0,
        ;
    }
}

/// The page of a table of `count` rows that the state asks for: the page
/// is first kept below the page count, then its rows are those from
/// `page * limit` on, at most `limit` of them.
pub fn table_page(count: usize, rows_per_page: usize, page: &mut usize) -> (t: TablePage)
    ensures
        t.row_limit == rows_per_page_spec(rows_per_page),
        t.page_count == page_count_spec(count as int, t.row_limit as int),
        *final(page) == if *old(page) < t.page_count { *old(page) } else { (t.page_count - 1) as usize },
        t.row_offset == *final(page) * t.row_limit,
        t.visible_count == if count - t.row_offset < t.row_limit { count - t.row_offset } else { t.row_limit as int },
        t.row_offset + t.visible_count <= count,
        count > 0 ==> t.visible_count > 0,
        t.visible_start == if t.visible_count == 0 { 0 } else { t.row_offset + 1 },
        t.visible_end == t.row_offset + t.visible_count,
        t.can_next == (*final(page) + 1 < t.page_count && t.visible_count > 0),
        t.can_previous == (*final(page) > 0 && t.visible_count > 0),
{
    let limit = rows_per_page_limit(rows_per_page);
    let full = count / limit + if count % limit == 0 { 0 } else { 1 };
    proof {
        let c = count as int;
        let l = limit as int;
        assert(full == (c + l - 1) / l) by (nonlinear_arith)
            requires
                l > 0,
                c >= 0,
                full == c / l + if c % l == 0 { 0int } else { 1int },
        ;
    }
    let page_count = if full < 1 { 1 } else { full };
    if *page >= page_count {
        *page = page_count - 1;
    }
    proof {
        lemma_page_bounds(count as int, limit as int, *page as int);
    }
    let row_offset = *page * limit;
    let rest = count - row_offset;
    let visible_count = if rest < limit { rest } else { limit };
    proof {
        if count > 0 {
            assert(rest > 0);
        }
    }
    TablePage {
        row_limit: limit,
        page_count,
        row_offset,
        visible_count,
        visible_start: if visible_count == 0 { 0 } else { row_offset + 1 },
        visible_end: row_offset + visible_count,
        can_next: *page + 1 < page_count && visible_count > 0,
        can_previous: *page > 0 && visible_count > 0,
    }
}

/// The positions among the `count` shown rows, starting at row `offset`,
/// whose flag is set; a row without a flag counts as unset.
pub open spec fn flagged_rows(flags: Seq<bool>, offset: int, count: int) -> Seq<usize>
    decreases count,
{
    if count <= 0 {
        Seq::empty()
    } else {
        let prev = flagged_rows(flags, offset, count - 1);
        let i = offset + count - 1;
        if 0 <= i < flags.len() && flags[i] {
            prev.push((count - 1) as usize)
        } else {
            prev
        }
    }
}

/// The shown rows, by position on the page, whose flag is set.
pub fn visible_flagged_rows(flags: &Vec<bool>, offset: usize, count: usize) -> (r: Vec<usize>)
    requires
        offset + count <= usize::MAX,
    ensures
        r@ == flagged_rows(flags@, offset as int, count as int),
{
    let mut out: Vec<usize> = Vec::new();
    let mut v: usize = 0;
    while v < count
        invariant
            v <= count,
            offset + count <= usize::MAX,
            out@ == flagged_rows(flags@, offset as int, v as int),
        decreases count - v,
    {
        let i = offset + v;
        if i < flags.len() && flags[i] {
            out.push(v);
        }
        v = v + 1;
    }
    out
}

/// The table's state between frames: which records are ticked and
/// expanded, the rows-per-page choice, the page, and the last export.
#[derive(Clone, Debug)]
pub struct EntityTableState {
    pub selected: Vec<bool>,
    pub expanded: Vec<bool>,
    pub rows_per_page: usize,
    pub page: usize,
    pub exported_count: Option<usize>,
}

impl EntityTableState {
    /// Nothing ticked or expanded among `record_count` records, five rows
    /// a page, the first page, no export.
    pub fn new(record_count: usize) -> (r: Self)
        ensures
            r.selected@ == Seq::new(record_count as nat, |i: int| false),
            r.expanded@ == Seq::new(record_count as nat, |i: int| false),
            r.rows_per_page == 0,
            r.page == 0,
            r.exported_count is None,
    {
        let mut selected: Vec<bool> = Vec::new();
        let mut expanded: Vec<bool> = Vec::new();
        let mut i: usize = 0;
        while i < record_count
            invariant
                i <= record_count,
                selected@ == Seq::new(i as nat, |k: int| false),
                expanded@ == Seq::new(i as nat, |k: int| false),
            decreases record_count - i,
        {
            selected.push(false);
            expanded.push(false);
            i = i + 1;
            assert(selected@ =~= Seq::new(i as nat, |k: int| false));
            assert(expanded@ =~= Seq::new(i as nat, |k: int| false));
        }
        EntityTableState { selected, expanded, rows_per_page: 0, page: 0, exported_count: None }
    }

    /// The page to draw for `count` records; a page past the end is
    /// pulled back to the last one.
    pub fn layout(&mut self, count: usize) -> (t: TablePage)
        ensures
            t.row_limit == rows_per_page_spec(old(self).rows_per_page),
            t.page_count == page_count_spec(count as int, t.row_limit as int),
            final(self).page == if old(self).page < t.page_count { old(self).page } else { (t.page_count - 1) as usize },
            t.row_offset == final(self).page * t.row_limit,
            t.row_offset + t.visible_count <= count,
            t.visible_count == if count - t.row_offset < t.row_limit { count - t.row_offset } else { t.row_limit as int },
            count > 0 ==> t.visible_count > 0,
            t.visible_start == if t.visible_count == 0 { 0 } else { t.row_offset + 1 },
            t.visible_end == t.row_offset + t.visible_count,
            t.can_next == (final(self).page + 1 < t.page_count && t.visible_count > 0),
            t.can_previous == (final(self).page > 0 && t.visible_count > 0),
            final(self).selected == old(self).selected,
            final(self).expanded == old(self).expanded,
            final(self).rows_per_page == old(self).rows_per_page,
            final(self).exported_count == old(self).exported_count,
    {
        let mut page = self.page;
        let t = table_page(count, self.rows_per_page, &mut page);
        self.page = page;
        t
    }

    /// The shown rows, by position, whose records are ticked.
    pub fn selected_rows(&self, t: &TablePage) -> (r: Vec<usize>)
        requires
            t.row_offset + t.visible_count <= usize::MAX,
        ensures
            r@ == flagged_rows(self.selected@, t.row_offset as int, t.visible_count as int),
    {
        visible_flagged_rows(&self.selected, t.row_offset, t.visible_count)
    }

    /// The shown rows, by position, whose records are expanded.
    pub fn expanded_rows(&self, t: &TablePage) -> (r: Vec<usize>)
        requires
            t.row_offset + t.visible_count <= usize::MAX,
        ensures
            r@ == flagged_rows(self.expanded@, t.row_offset as int, t.visible_count as int),
    {
        visible_flagged_rows(&self.expanded, t.row_offset, t.visible_count)
    }

    /// The "+" / "-" button of a record: it expands a collapsed record and
    /// collapses an expanded one; a record without a flag is left alone.
    pub fn toggle_expanded(&mut self, record_index: usize)
        ensures
            final(self).expanded@ == if record_index < old(self).expanded@.len() {
                old(self).expanded@.update(record_index as int, !old(self).expanded@[record_index as int])
            } else {
                old(self).expanded@
            },
            final(self).selected == old(self).selected,
            final(self).rows_per_page == old(self).rows_per_page,
            final(self).page == old(self).page,
            final(self).exported_count == old(self).exported_count,
    {
        if record_index < self.expanded.len() {
            let was = self.expanded[record_index];
            self.expanded.set(record_index, !was);
        }
    }

    /// The tick box of a record was clicked.
    pub fn toggle_selected(&mut self, record_index: usize)
        ensures
            final(self).selected@ == if record_index < old(self).selected@.len() {
                old(self).selected@.update(record_index as int, !old(self).selected@[record_index as int])
            } else {
                old(self).selected@
            },
            final(self).expanded == old(self).expanded,
            final(self).rows_per_page == old(self).rows_per_page,
            final(self).page == old(self).page,
            final(self).exported_count == old(self).exported_count,
    {
        if record_index < self.selected.len() {
            let was = self.selected[record_index];
            self.selected.set(record_index, !was);
        }
    }

    /// A new rows-per-page choice starts again from the first page.
    pub fn set_rows_per_page(&mut self, index: usize)
        ensures
            final(self).rows_per_page == index,
            final(self).page == if index != old(self).rows_per_page { 0 } else { old(self).page },
            final(self).selected == old(self).selected,
            final(self).expanded == old(self).expanded,
            final(self).exported_count == old(self).exported_count,
    {
        if index != self.rows_per_page {
            self.rows_per_page = index;
            self.page = 0;
        }
    }

    /// "Next": moves one page on where the page allows it.
    pub fn next_page(&mut self, t: &TablePage)
        requires
            t.can_next ==> old(self).page + 1 <= usize::MAX,
        ensures
            final(self).page == if t.can_next { old(self).page + 1 } else { old(self).page as int },
            final(self).selected == old(self).selected,
            final(self).expanded == old(self).expanded,
            final(self).rows_per_page == old(self).rows_per_page,
            final(self).exported_count == old(self).exported_count,
    {
        if t.can_next {
            self.page = self.page + 1;
        }
    }

    /// "Previous": moves one page back where the page allows it.
    pub fn previous_page(&mut self, t: &TablePage)
        ensures
            final(self).page == if t.can_previous && old(self).page > 0 { old(self).page - 1 } else { old(self).page as int },
            final(self).selected == old(self).selected,
            final(self).expanded == old(self).expanded,
            final(self).rows_per_page == old(self).rows_per_page,
            final(self).exported_count == old(self).exported_count,
    {
        if t.can_previous && self.page > 0 {
            self.page = self.page - 1;
        }
    }

    /// "Export as CSV": remembers how many records went out.
    pub fn export(&mut self, count: usize)
        ensures
            final(self).exported_count == Some(count),
            final(self).selected == old(self).selected,
            final(self).expanded == old(self).expanded,
            final(self).rows_per_page == old(self).rows_per_page,
            final(self).page == old(self).page,
    {
        self.exported_count = Some(count);
    }
}

/// Every row of the table is shown on exactly one page: the row `i` is on
/// page `i / limit`, which exists, and on no other page.
pub proof fn lemma_every_row_on_one_page(count: int, limit: int, i: int, page: int)
    requires
        limit > 0,
        0 <= i < count,
        0 <= page,
    ensures
        i / limit < page_count_spec(count, limit),
        (page * limit <= i < page * limit + limit) <==> page == i / limit,
{
    let p = i / limit;
    assert(p * limit <= i < p * limit + limit) by (nonlinear_arith)
        requires
            limit > 0,
            i >= 0,
            p == i / limit,
    ;
    assert(p < (count + limit - 1) / limit) by (nonlinear_arith)
        requires
            limit > 0,
            0 <= i < count,
            p == i / limit,
    ;
    if page < p {
        assert(page * limit + limit <= p * limit) by (nonlinear_arith)
            requires
                page < p,
                limit > 0,
        ;
    } else if page > p {
        assert(p * limit + limit <= page * limit) by (nonlinear_arith)
            requires
                page > p,
                limit > 0,
        ;
    }
}

} // verus!
