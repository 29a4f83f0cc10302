//! List rows and data tables.
use vstd::prelude::*;
use crate::foundation::Size;
use crate::text::{str_views, string_views, strings_from};

verus! {

/// A row of a list: title, optional subtitle and leading / trailing text.
#[derive(Clone, Debug)]
pub struct ListRow {
    pub title: String,
    pub subtitle: Option<String>,
    pub leading: Option<String>,
    pub trailing: Option<String>,
    pub selected: bool,
    pub enabled: bool,
    pub size: Size,
}

impl ListRow {
    pub fn new(title: &str) -> (r: Self)
        ensures
            r.title@ == title@,
            r.subtitle is None,
            r.leading is None,
            r.trailing is None,
            !r.selected,
            r.enabled,
            r.size == Size::Medium,
    {
        ListRow {
            title: String::from_str(title),
            subtitle: None,
            leading: None,
            trailing: None,
            selected: false,
            enabled: true,
            size: Size::Medium,
        }
    }

    pub fn subtitle(self, subtitle: &str) -> (r: Self)
        ensures
            r.subtitle matches Some(s) && s@ == subtitle@,
            r == (ListRow { subtitle: r.subtitle, ..self }),
    {
        ListRow { subtitle: Some(String::from_str(subtitle)), ..self }
    }

    pub fn leading(self, leading: &str) -> (r: Self)
        ensures
            r.leading matches Some(s) && s@ == leading@,
            r == (ListRow { leading: r.leading, ..self }),
    {
        ListRow { leading: Some(String::from_str(leading)), ..self }
    }

    pub fn trailing(self, trailing: &str) -> (r: Self)
        ensures
            r.trailing matches Some(s) && s@ == trailing@,
            r == (ListRow { trailing: r.trailing, ..self }),
    {
        ListRow { trailing: Some(String::from_str(trailing)), ..self }
    }

    pub fn selected(self, selected: bool) -> (r: Self)
        ensures
            r == (ListRow { selected, ..self }),
    {
        ListRow { selected, ..self }
    }

    pub fn enabled(self, enabled: bool) -> (r: Self)
        ensures
            r == (ListRow { enabled, ..self }),
    {
        ListRow { enabled, ..self }
    }

    pub fn disabled(self) -> (r: Self)
        ensures
            r == (ListRow { enabled: false, ..self }),
    {
        ListRow { enabled: false, ..self }
    }

    pub fn size(self, size: Size) -> (r: Self)
        ensures
            r == (ListRow { size, ..self }),
    {
        ListRow { size, ..self }
    }
}

/// A table of text cells with a selectable row.
#[derive(Debug)]
pub struct DataTable<'a> {
    pub selected: &'a mut usize,
    pub columns: Vec<String>,
    pub rows: Vec<Vec<String>>,
    pub right_aligned_columns: Vec<usize>,
    pub size: Size,
}

impl<'a> DataTable<'a> {
    /// A medium table over `columns` and `rows`, every column left-aligned.
    pub fn new(selected: &'a mut usize, columns: &[&str], rows: Vec<Vec<String>>) -> (r: Self)
        ensures
            *r.selected == *old(selected),
            *final(selected) == *final(r.selected),
            string_views(r.columns@) == str_views(columns@),
            r.rows == rows,
            r.right_aligned_columns@.len() == 0,
            r.size == Size::Medium,
    {
        DataTable { selected, columns: strings_from(columns), rows, right_aligned_columns: Vec::new(), size: Size::Medium }
    }

    pub fn right_aligned_columns(self, columns: Vec<usize>) -> (r: Self)
        ensures
            r.selected == self.selected,
            *final(r.selected) == *final(self.selected),
            r.columns == self.columns,
            r.rows == self.rows,
            r.right_aligned_columns == columns,
            r.size == self.size,
    {
        DataTable { right_aligned_columns: columns, ..self }
    }

    pub fn size(self, size: Size) -> (r: Self)
        ensures
            r.selected == self.selected,
            *final(r.selected) == *final(self.selected),
            r.columns == self.columns,
            r.rows == self.rows,
            r.right_aligned_columns == self.right_aligned_columns,
            r.size == size,
    {
        DataTable { size, ..self }
    }

    /// Column `column` is drawn right-aligned.
    pub fn is_right_aligned(&self, column: usize) -> (r: bool)
        ensures
            r == self.right_aligned_columns@.contains(column),
    {
        let mut i: usize = 0;
        while i < self.right_aligned_columns.len()
            invariant
                i <= self.right_aligned_columns.len(),
                forall|j: int| 0 <= j < i ==> self.right_aligned_columns@[j] != column,
            decreases self.right_aligned_columns.len() - i,
        {
            if self.right_aligned_columns[i] == column {
                assert(self.right_aligned_columns@[i as int] == column);
                return true;
            }
            i = i + 1;
        }
        false
    }

    /// A click on row `index` selects it; reports whether the selection
    /// changed.
    pub fn click_row(self, index: usize) -> (changed: bool)
        ensures
            changed == (*old(self.selected) != index),
            *final(self.selected) == index,
    {
        let changed = *self.selected != index;
        *self.selected = index;
        changed
    }
}

} // verus!
