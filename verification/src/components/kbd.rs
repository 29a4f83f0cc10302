//! Keyboard keys and shortcuts.
use vstd::prelude::*;
use crate::foundation::Size;
use crate::text::{str_views, string_views, strings_from};

verus! {

/// One key, or the keys of a shortcut.
#[derive(Clone, Debug)]
pub struct Kbd {
    pub keys: Vec<String>,
    pub size: Size,
}

impl Kbd {
    /// A single medium key.
    pub fn new(key: &str) -> (r: Self)
        ensures
            string_views(r.keys@) == seq![key@],
            r.size == Size::Medium,
    {
        let mut keys: Vec<String> = Vec::new();
        keys.push(String::from_str(key));
        assert(string_views(keys@) =~= seq![key@]);
        Kbd { keys, size: Size::Medium }
    }

    /// A medium shortcut made of `keys`.
    pub fn shortcut(keys: &[&str]) -> (r: Self)
        ensures
            string_views(r.keys@) == str_views(keys@),
            r.size == Size::Medium,
    {
        Kbd { keys: strings_from(keys), size: Size::Medium }
    }

    pub fn size(self, size: Size) -> (r: Self)
        ensures
            r.keys == self.keys,
            r.size == size,
    {
        Kbd { size, ..self }
    }

    /// The keycaps drawn: the keys, or one blank keycap when there are
    /// none; a "+" is drawn between neighbours.
    pub fn keycaps(&self) -> (r: Vec<String>)
        ensures
            self.keys@.len() == 0 ==> string_views(r@) == seq![Seq::<char>::empty()],
            self.keys@.len() > 0 ==> string_views(r@) == string_views(self.keys@),
    {
        if self.keys.len() == 0 {
            let mut blank: Vec<String> = Vec::new();
            blank.push(String::new());
            assert(string_views(blank@) =~= seq![Seq::<char>::empty()]);
            blank
        } else {
            let mut out: Vec<String> = Vec::new();
            let mut i: usize = 0;
            while i < self.keys.len()
                invariant
                    i <= self.keys.len(),
                    out.len() == i,
                    forall|j: int| 0 <= j < i ==> #[trigger] out@[j]@ == self.keys@[j]@,
                decreases self.keys.len() - i,
            {
                out.push(String::from_str(self.keys[i].as_str()));
                i = i + 1;
            }
            assert(string_views(out@) =~= string_views(self.keys@));
            out
        }
    }
}

} // verus!
